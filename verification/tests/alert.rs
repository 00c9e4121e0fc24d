use akurai_monitor::address::{are_public, public_ip, IpAddress};
use akurai_monitor::alert::{
    evaluate_alerts, log_line, log_message, notification_json, rules_query, test_channel,
    test_channel_at, violates, write_alert_log, AlertRule, Change, Figures, Reading, Sample, Sweep,
    SweepAction,
};
use akurai_monitor::json::{Double, Json, JsonNumber};
use akurai_monitor::sql::{SqlValue, Statement};

fn bits(value: f64) -> Double {
    Double { bits: value.to_bits() }
}

fn rule(id: i64, operator: &str, threshold: f64) -> AlertRule {
    AlertRule {
        id,
        host_id: Some(1),
        application_id: None,
        name: format!("Rule {id}"),
        metric_name: "cpu.usage".to_string(),
        operator: operator.to_string(),
        threshold: bits(threshold),
        duration_secs: 300,
    }
}

fn sample(value: f64, threshold: f64) -> Sample {
    Sample {
        value: bits(value),
        reading: Reading {
            above: value > threshold,
            below: value < threshold,
            near: (value - threshold).abs() < f64::EPSILON,
        },
    }
}

#[test]
fn webhook_addresses_must_be_public() {
    assert!(public_ip(&IpAddress::V4([8, 8, 8, 8])));
    assert!(public_ip(&IpAddress::V6([0x2606, 0x4700, 0x4700, 0, 0, 0, 0, 0x1111])));
    for address in [
        [127, 0, 0, 1],
        [10, 0, 0, 1],
        [100, 88, 0, 9],
        [169, 254, 169, 254],
        [192, 0, 2, 1],
    ] {
        assert!(!public_ip(&IpAddress::V4(address)));
    }
}

#[test]
fn special_addresses_are_not_public() {
    for address in [
        [0, 0, 0, 0],
        [0, 1, 2, 3],
        [100, 64, 0, 0],
        [100, 127, 255, 255],
        [172, 16, 0, 1],
        [172, 31, 255, 255],
        [192, 168, 1, 1],
        [198, 18, 0, 1],
        [198, 19, 255, 255],
        [198, 51, 100, 7],
        [203, 0, 113, 9],
        [224, 0, 0, 1],
        [239, 255, 255, 255],
        [240, 0, 0, 1],
        [255, 255, 255, 255],
    ] {
        assert!(!public_ip(&IpAddress::V4(address)), "{address:?}");
    }
    for address in [
        [1, 1, 1, 1],
        [100, 63, 255, 255],
        [100, 128, 0, 0],
        [169, 253, 0, 1],
        [172, 15, 0, 1],
        [172, 32, 0, 1],
        [192, 0, 3, 1],
        [192, 167, 0, 1],
        [198, 17, 0, 1],
        [198, 20, 0, 1],
        [198, 51, 101, 1],
        [203, 0, 112, 1],
        [223, 255, 255, 255],
    ] {
        assert!(public_ip(&IpAddress::V4(address)), "{address:?}");
    }
    for address in [
        [0, 0, 0, 0, 0, 0, 0, 0],
        [0, 0, 0, 0, 0, 0, 0, 1],
        [0xff02, 0, 0, 0, 0, 0, 0, 1],
        [0xfc00, 0, 0, 0, 0, 0, 0, 1],
        [0xfdff, 0, 0, 0, 0, 0, 0, 1],
        [0xfe80, 0, 0, 0, 0, 0, 0, 1],
        [0xfebf, 0, 0, 0, 0, 0, 0, 1],
    ] {
        assert!(!public_ip(&IpAddress::V6(address)), "{address:?}");
    }
    assert!(public_ip(&IpAddress::V6([0, 0, 0, 0, 0, 0, 0, 2])));
    assert!(public_ip(&IpAddress::V6([0xfec0, 0, 0, 0, 0, 0, 0, 1])));
}

#[test]
fn mapped_addresses_are_judged_as_ipv4() {
    for octets in [[8u8, 8, 8, 8], [10, 0, 0, 1], [127, 0, 0, 1], [198, 51, 100, 1]] {
        let mapped = [
            0,
            0,
            0,
            0,
            0,
            0xffff,
            u16::from(octets[0]) * 256 + u16::from(octets[1]),
            u16::from(octets[2]) * 256 + u16::from(octets[3]),
        ];
        assert_eq!(public_ip(&IpAddress::V6(mapped)), public_ip(&IpAddress::V4(octets)));
    }
}

#[test]
fn one_private_address_spoils_the_lot() {
    let public = IpAddress::V4([8, 8, 8, 8]);
    let private = IpAddress::V4([10, 0, 0, 1]);
    assert!(are_public(&vec![public, public]));
    assert!(!are_public(&vec![public, private]));
    assert!(!are_public(&Vec::new()));
}

#[test]
fn rules_compare_by_their_operator() {
    let high = sample(91.0, 90.0).reading;
    let low = sample(89.0, 90.0).reading;
    let same = sample(90.0, 90.0).reading;
    assert!(violates(&high, "gt") && !violates(&low, "gt") && !violates(&same, "gt"));
    assert!(violates(&low, "lt") && !violates(&high, "lt") && !violates(&same, "lt"));
    assert!(violates(&same, "eq") && !violates(&high, "eq") && !violates(&low, "eq"));
    for reading in [high, low, same] {
        assert!(!violates(&reading, "ge"));
    }
}

#[test]
fn a_pass_asks_for_samples_and_open_alerts() {
    let mut sweep = Sweep::begin(vec![rule(4, "gt", 90.0)], 1000);
    assert_eq!(
        sweep.action(),
        SweepAction::Samples(Statement {
            sql: "SELECT value FROM metrics WHERE name = ?1 AND ts >= ?2 AND (?3 IS NULL OR host_id = ?3) AND (?4 IS NULL OR application_id = ?4) ORDER BY ts".to_string(),
            values: vec![
                SqlValue::Text("cpu.usage".to_string()),
                SqlValue::Integer(700),
                SqlValue::Integer(1),
                SqlValue::Null,
            ],
        })
    );
    sweep.samples(&vec![sample(95.0, 90.0), sample(99.0, 90.0)]);
    assert_eq!(
        sweep.action(),
        SweepAction::OpenAlerts(Statement {
            sql: "SELECT COUNT(*) FROM alert_events WHERE rule_id = ?1 AND resolved_at IS NULL".to_string(),
            values: vec![SqlValue::Integer(4)],
        })
    );
    let transition = sweep.open_alerts(Some(0)).unwrap();
    assert_eq!(transition.change, Change::Triggered);
    assert_eq!(transition.rule, 0);
    assert_eq!(transition.latest, bits(99.0));
    assert_eq!(
        transition.statement,
        Statement {
            sql: "INSERT INTO alert_events (rule_id, triggered_at, value) VALUES (?1, ?2, ?3)".to_string(),
            values: vec![
                SqlValue::Integer(4),
                SqlValue::Integer(1000),
                SqlValue::Real(JsonNumber::Float(bits(99.0))),
            ],
        }
    );
    assert_eq!(sweep.action(), SweepAction::Deliver);
    assert_eq!(sweep.notifications.len(), 1);
    let told = &sweep.notifications[0];
    assert_eq!(told.event, "triggered");
    assert_eq!(told.rule_id, 4);
    assert_eq!(told.rule, "Rule 4");
    assert_eq!(told.metric, "cpu.usage");
    assert_eq!(told.value, bits(99.0));
    assert_eq!(told.threshold, bits(90.0));
    assert_eq!(told.host_id, Some(1));
    assert_eq!(told.application_id, None);
    assert_eq!(told.timestamp, 1000);
}

fn change(samples: Vec<Sample>, open: Option<i64>) -> Option<Change> {
    let mut sweep = Sweep::begin(vec![rule(4, "gt", 90.0)], 1000);
    sweep.samples(&samples);
    let change = sweep.open_alerts(open).map(|transition| transition.change);
    assert_eq!(sweep.notifications.len(), usize::from(change.is_some()));
    change
}

#[test]
fn alerts_open_and_close_with_the_samples() {
    let violating = || vec![sample(95.0, 90.0), sample(91.0, 90.0)];
    let mixed = || vec![sample(95.0, 90.0), sample(90.0, 90.0)];
    assert_eq!(change(violating(), Some(0)), Some(Change::Triggered));
    assert_eq!(change(violating(), None), Some(Change::Triggered));
    assert_eq!(change(violating(), Some(1)), None);
    assert_eq!(change(mixed(), Some(2)), Some(Change::Resolved));
    assert_eq!(change(mixed(), Some(0)), None);
    assert_eq!(change(mixed(), None), None);
}

#[test]
fn resolving_closes_the_open_alerts() {
    let mut sweep = Sweep::begin(vec![rule(4, "gt", 90.0)], 1000);
    sweep.samples(&vec![sample(50.0, 90.0)]);
    let transition = sweep.open_alerts(Some(1)).unwrap();
    assert_eq!(
        transition.statement,
        Statement {
            sql: "UPDATE alert_events SET resolved_at = ?1 WHERE rule_id = ?2 AND resolved_at IS NULL".to_string(),
            values: vec![SqlValue::Integer(1000), SqlValue::Integer(4)],
        }
    );
    assert_eq!(sweep.notifications[0].event, "resolved");
}

#[test]
fn changes_alternate_over_successive_passes() {
    let mut open = 0;
    let mut changes = Vec::new();
    for value in [80.0, 95.0, 96.0, 50.0, 50.0, 97.0] {
        match change(vec![sample(value, 90.0)], Some(open)) {
            Some(Change::Triggered) => {
                open = 1;
                changes.push(Change::Triggered);
            }
            Some(Change::Resolved) => {
                open = 0;
                changes.push(Change::Resolved);
            }
            None => {}
        }
        assert_eq!(open == 1, value > 90.0);
    }
    assert_eq!(changes, vec![Change::Triggered, Change::Resolved, Change::Triggered]);
}

#[test]
fn a_pass_sees_every_rule_once() {
    let rules = vec![rule(1, "gt", 90.0), rule(2, "lt", 5.0), rule(3, "gt", 90.0)];
    let mut sweep = Sweep::begin(rules, 1000);
    sweep.samples(&vec![sample(95.0, 90.0)]);
    sweep.open_alerts(Some(0));
    sweep.samples(&Vec::new());
    assert!(matches!(sweep.action(), SweepAction::Samples(_)));
    sweep.samples(&vec![sample(10.0, 90.0)]);
    sweep.open_alerts(Some(1));
    assert_eq!(sweep.action(), SweepAction::Deliver);
    let told: Vec<(i64, &str)> =
        sweep.notifications.iter().map(|told| (told.rule_id, told.event)).collect();
    assert_eq!(told, vec![(1, "triggered"), (3, "resolved")]);
    assert_eq!(Sweep::begin(Vec::new(), 1000).action(), SweepAction::Deliver);
}

#[test]
fn windows_out_of_range_stop_a_pass() {
    let mut odd = rule(1, "gt", 90.0);
    odd.duration_secs = i64::MIN;
    assert_eq!(Sweep::begin(vec![odd], 0).action(), SweepAction::OutOfRange);
}

#[test]
fn passes_begin_now() {
    assert_eq!(
        rules_query(),
        Statement {
            sql: "SELECT id, host_id, application_id, name, metric_name, operator, threshold, duration_secs FROM alert_rules WHERE enabled = 1".to_string(),
            values: Vec::new(),
        }
    );
    let before = chrono::Utc::now().timestamp();
    let sweep = evaluate_alerts(vec![rule(1, "gt", 90.0)]);
    let after = chrono::Utc::now().timestamp();
    assert!(before <= sweep.now && sweep.now <= after);
    assert!(matches!(sweep.action(), SweepAction::Samples(_)));
}

#[test]
fn writes_the_alert_log() {
    let figures = Figures { value: "99.0".to_string(), threshold: "90.0".to_string() };
    assert_eq!(
        log_message(Change::Triggered, &rule(4, "gt", 90.0), &figures),
        "ALERT rule=\"Rule 4\" metric=\"cpu.usage\" value=99.0 threshold=90.0"
    );
    assert_eq!(
        log_message(Change::Resolved, &rule(4, "gt", 90.0), &figures),
        "RESOLVED rule=\"Rule 4\" metric=\"cpu.usage\" value=99.0"
    );
    assert_eq!(log_line("2026-01-26T18:30:09Z", "ALERT"), "2026-01-26T18:30:09Z ALERT");

    let line = write_alert_log("ALERT rule");
    let stamp = line.strip_suffix(" ALERT rule").unwrap();
    let time = chrono::DateTime::parse_from_rfc3339(stamp).unwrap();
    assert!(stamp.ends_with('Z'));
    assert_eq!(stamp.len(), 20);
    assert!((chrono::Utc::now().timestamp() - time.timestamp()).abs() <= 5);
}

#[test]
fn shows_test_notifications() {
    let one = || Json::Number(JsonNumber::Float(bits(1.0)));
    let text = |t: &str| Json::Text(t.to_string());
    let members = vec![
        ("event", text("test")),
        ("rule_id", Json::Number(JsonNumber::PosInt(0))),
        ("rule", text("Channel test")),
        ("metric", text("monitor.channel")),
        ("value", one()),
        ("threshold", one()),
        ("host_id", Json::Null),
        ("application_id", Json::Null),
        ("timestamp", Json::Number(JsonNumber::PosInt(77))),
    ];
    let tree = Json::Object(
        members.into_iter().map(|(name, value)| (name.to_string(), value)).collect(),
    );
    assert_eq!(notification_json(&test_channel_at(77)), tree);

    let before = chrono::Utc::now().timestamp();
    let told = test_channel();
    let after = chrono::Utc::now().timestamp();
    assert!(before <= told.timestamp && told.timestamp <= after);
    assert_eq!(told, test_channel_at(told.timestamp));
}
