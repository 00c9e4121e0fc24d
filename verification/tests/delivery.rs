use akurai_monitor::address::IpAddress;
use akurai_monitor::alert::{notification_json, test_channel_at, AlertNotification, Figures};
use akurai_monitor::delivery::{
    answered, channel_token, connected, deliver, deliver_one, destinations_query, resolved,
    start_pi_bun, start_webhook, Delivery, Destination, LookupFailure, PostReply, PostRequest,
    Purpose, Step,
};
use akurai_monitor::endpoint::Endpoint;
use akurai_monitor::json::Json;
use akurai_monitor::percent::percent_encode_path;
use akurai_monitor::sql::{SqlValue, Statement};

fn told() -> AlertNotification {
    test_channel_at(77)
}

fn figures() -> Figures {
    Figures { value: "1.00".to_string(), threshold: "1.00".to_string() }
}

fn webhook(token_env: Option<&str>) -> Destination {
    Destination {
        channel_id: 1,
        channel_name: "ops-webhook".to_string(),
        kind: "webhook".to_string(),
        endpoint: "https://example.com/monitor".to_string(),
        token_env: token_env.map(|name| name.to_string()),
        recipient: "operations".to_string(),
        target: "on-call".to_string(),
    }
}

fn pi_bun(endpoint: &str) -> Destination {
    Destination {
        channel_id: -2,
        channel_name: "pi-bun".to_string(),
        kind: "pi-bun".to_string(),
        endpoint: endpoint.to_string(),
        token_env: Some("MONITOR_CHANNEL_TOKEN_PI_BUN".to_string()),
        recipient: "monitor-agent".to_string(),
        target: "a b/1".to_string(),
    }
}

fn failed(message: &str) -> Step {
    Step::Finish(Err(message.to_string()))
}

fn text(t: &str) -> Json {
    Json::Text(t.to_string())
}

fn object(members: Vec<(&str, Json)>) -> Json {
    Json::Object(members.into_iter().map(|(name, value)| (name.to_string(), value)).collect())
}

fn reply(code: u16, status: &str, cookie: Option<&str>) -> Result<PostReply, String> {
    Ok(PostReply {
        code,
        status: status.to_string(),
        cookie: cookie.map(|value| value.to_string()),
    })
}

fn webhook_post(bearer: Option<&str>) -> Step {
    Step::Post(PostRequest {
        purpose: Purpose::Webhook,
        url: "https://example.com/monitor".to_string(),
        bearer: bearer.map(|token| token.to_string()),
        cookie: None,
        body: object(vec![
            ("recipient", object(vec![("name", text("operations")), ("target", text("on-call"))])),
            ("alert", notification_json(&told())),
        ]),
    })
}

#[test]
fn webhooks_are_resolved_first() {
    assert_eq!(
        deliver_one(&webhook(None)),
        Step::Resolve { host: "example.com".to_string(), port: 443 }
    );
    let mut invalid = webhook(None);
    invalid.endpoint = "not a url".to_string();
    assert_eq!(deliver_one(&invalid), failed("webhook endpoint is invalid"));
    invalid.endpoint = "mailto:ops".to_string();
    assert_eq!(deliver_one(&invalid), failed("webhook endpoint has no host"));
    invalid.endpoint = "unknown://example.com/".to_string();
    assert_eq!(deliver_one(&invalid), failed("webhook endpoint has no port"));
    invalid.endpoint = "https://example.com:8443/".to_string();
    assert_eq!(
        deliver_one(&invalid),
        Step::Resolve { host: "example.com".to_string(), port: 8443 }
    );
    assert_eq!(start_webhook(None), failed("webhook endpoint is invalid"));
}

#[test]
fn webhooks_need_public_addresses() {
    let public = IpAddress::V4([8, 8, 8, 8]);
    let private = IpAddress::V4([10, 0, 0, 1]);
    let refused = "webhook endpoint resolves to a non-public address";
    assert_eq!(resolved(&Some(vec![public])), Step::Connect);
    assert_eq!(resolved(&Some(vec![public, private])), failed(refused));
    assert_eq!(resolved(&Some(Vec::new())), failed(refused));
    assert_eq!(resolved(&None), failed("webhook endpoint could not be resolved"));
}

#[test]
fn webhooks_are_posted_with_their_token() {
    assert_eq!(connected(&told(), &webhook(None), true), webhook_post(None));
    assert_eq!(
        connected(&told(), &webhook(None), false),
        failed("failed to create webhook HTTP client")
    );
    let secret = webhook(Some("MONITOR_CHANNEL_TOKEN_WEBHOOK"));
    assert_eq!(
        connected(&told(), &secret, true),
        Step::ReadVariable("MONITOR_CHANNEL_TOKEN_WEBHOOK".to_string())
    );
    assert_eq!(
        channel_token(&told(), &secret, Some("hush".to_string())),
        webhook_post(Some("hush"))
    );
    assert_eq!(channel_token(&told(), &secret, None), failed("channel token is unavailable"));
}

#[test]
fn webhooks_are_told_by_a_success() {
    let answer = |answer| answered(&told(), &webhook(None), &figures(), Purpose::Webhook, answer);
    assert_eq!(answer(reply(200, "200 OK", None)), Step::Finish(Ok(())));
    assert_eq!(answer(reply(299, "299", None)), Step::Finish(Ok(())));
    assert_eq!(
        answer(reply(300, "300 Multiple Choices", None)),
        failed("webhook returned HTTP 300 Multiple Choices")
    );
    assert_eq!(
        answer(reply(199, "199", None)),
        failed("webhook returned HTTP 199")
    );
    assert_eq!(answer(Err("connection refused".to_string())), failed("connection refused"));
}

#[test]
fn pi_bun_sessions_are_told_in_two_requests() {
    let session = pi_bun("http://100.88.0.9:4173//");
    assert_eq!(
        deliver_one(&session),
        Step::ReadVariable("MONITOR_CHANNEL_TOKEN_PI_BUN".to_string())
    );
    assert_eq!(
        channel_token(&told(), &session, Some("hush".to_string())),
        Step::Post(PostRequest {
            purpose: Purpose::Login,
            url: "http://100.88.0.9:4173/api/login".to_string(),
            bearer: None,
            cookie: None,
            body: object(vec![("token", text("hush"))]),
        })
    );
    assert_eq!(channel_token(&told(), &session, None), failed("channel token is unavailable"));
    let message = "AkurAI Monitor test alert: Channel test (monitor.channel = 1.00, threshold 1.00). Investigate with akurai-monitorctl.";
    assert_eq!(
        answered(
            &told(),
            &session,
            &figures(),
            Purpose::Login,
            reply(200, "200 OK", Some("sid=1; Path=/; HttpOnly"))
        ),
        Step::Post(PostRequest {
            purpose: Purpose::Command,
            url: "http://100.88.0.9:4173/api/sessions/a%20b%2F1/command".to_string(),
            bearer: None,
            cookie: Some("sid=1".to_string()),
            body: object(vec![(
                "command",
                object(vec![("type", text("prompt")), ("message", text(message))])
            )]),
        })
    );
    assert_eq!(
        answered(&told(), &session, &figures(), Purpose::Command, reply(204, "204", None)),
        Step::Finish(Ok(()))
    );
}

#[test]
fn pi_bun_failures() {
    assert_eq!(deliver_one(&pi_bun("nowhere")), failed("pi-bun endpoint is invalid"));
    let outside = failed("pi-bun endpoint is outside the Titan mesh");
    assert_eq!(deliver_one(&pi_bun("http://100.88.0.8:4173")), outside);
    assert_eq!(deliver_one(&pi_bun("ftp://100.88.0.9")), outside);
    let mut open = pi_bun("https://100.88.0.9");
    open.token_env = None;
    assert_eq!(deliver_one(&open), failed("pi-bun channel requires token_env"));
    assert_eq!(start_pi_bun(&None, &None), failed("pi-bun endpoint is invalid"));

    let session = pi_bun("http://100.88.0.9:4173");
    let answer =
        |purpose, answer| answered(&told(), &session, &figures(), purpose, answer);
    assert_eq!(
        answer(Purpose::Login, reply(401, "401 Unauthorized", None)),
        failed("pi-bun login returned HTTP 401 Unauthorized")
    );
    assert_eq!(
        answer(Purpose::Login, reply(200, "200 OK", None)),
        failed("pi-bun login returned no session cookie")
    );
    assert_eq!(
        answer(Purpose::Command, reply(500, "500 Internal Server Error", None)),
        failed("pi-bun command returned HTTP 500 Internal Server Error")
    );
    assert_eq!(answer(Purpose::Login, Err("timed out".to_string())), failed("timed out"));
}

#[test]
fn unknown_kinds_are_not_delivered() {
    let mut mail = webhook(None);
    mail.kind = "mail".to_string();
    assert_eq!(deliver_one(&mail), failed("unsupported channel kind"));
    assert_eq!(
        channel_token(&told(), &mail, Some("hush".to_string())),
        failed("unsupported channel kind")
    );
}

#[test]
fn starts_by_the_parts_of_a_url() {
    let parts = |scheme: &str, host: Option<&str>, port: Option<u16>| {
        Some(Endpoint {
            scheme: scheme.to_string(),
            username: String::new(),
            password: None,
            host: host.map(|host| host.to_string()),
            port,
        })
    };
    assert_eq!(
        start_webhook(parts("https", Some("a.b"), Some(1))),
        Step::Resolve { host: "a.b".to_string(), port: 1 }
    );
    assert_eq!(
        start_webhook(parts("https", None, Some(1))),
        failed("webhook endpoint has no host")
    );
    assert_eq!(
        start_webhook(parts("https", Some("a.b"), None)),
        failed("webhook endpoint has no port")
    );
    let token = Some("T".to_string());
    assert_eq!(
        start_pi_bun(&parts("https", Some("100.88.0.9"), None), &token),
        Step::ReadVariable("T".to_string())
    );
    assert_eq!(
        start_pi_bun(&parts("ws", Some("100.88.0.9"), None), &token),
        failed("pi-bun endpoint is outside the Titan mesh")
    );
    assert_eq!(
        start_pi_bun(&parts("http", None, None), &token),
        failed("pi-bun endpoint is outside the Titan mesh")
    );
}

#[test]
fn asks_for_the_destinations() {
    let query = |value| Statement {
        sql: "SELECT c.id, c.name, c.kind, c.endpoint, c.token_env, r.name, r.target FROM recipients r JOIN channels c ON c.id = r.channel_id WHERE c.enabled = 1 AND r.enabled = 1 AND (?1 IS NULL OR c.id = ?1) ORDER BY c.id, r.id".to_string(),
        values: vec![value],
    };
    assert_eq!(destinations_query(None), query(SqlValue::Null));
    assert_eq!(destinations_query(Some(3)), query(SqlValue::Integer(3)));
}

#[test]
fn deliveries_need_recipients_of_a_tested_channel() {
    let refused = |channel, found| deliver(channel, found).err();
    assert_eq!(
        refused(Some(1), Ok(Vec::new())),
        Some("channel has no enabled recipients")
    );
    assert!(deliver(None, Ok(Vec::new())).is_ok());
    assert_eq!(deliver(Some(1), Ok(vec![webhook(None)])).ok().unwrap().len(), 1);
    assert_eq!(refused(None, Err(LookupFailure::Prepare)), Some("failed to query channels"));
    assert_eq!(refused(None, Err(LookupFailure::Run)), Some("failed to query recipients"));
    assert_eq!(refused(None, Err(LookupFailure::Read)), Some("failed to read recipients"));
    assert_eq!(
        Delivery::begin(Vec::new(), false).err(),
        Some("failed to create alert HTTP client")
    );
}

#[test]
fn deliveries_count_what_was_sent() {
    let mut delivery =
        Delivery::begin(vec![webhook(None), webhook(None)], true).ok().unwrap();
    assert_eq!(delivery.current().unwrap().channel_id, 1);
    delivery.record(&Ok(()));
    delivery.record(&Ok(()));
    assert!(delivery.current().is_none());
    assert_eq!(delivery.finish(), Ok(2));
    assert_eq!(Delivery::begin(Vec::new(), true).ok().unwrap().finish(), Ok(0));
}

#[test]
fn deliveries_fail_with_every_failure() {
    let destinations = vec![webhook(None), pi_bun("http://100.88.0.9"), webhook(None)];
    let mut delivery = Delivery::begin(destinations, true).ok().unwrap();
    delivery.record(&Err("timed out".to_string()));
    assert_eq!(delivery.current().unwrap().channel_id, -2);
    delivery.record(&Err("channel token is unavailable".to_string()));
    delivery.record(&Ok(()));
    assert_eq!(
        delivery.finish(),
        Err("channel 1 (ops-webhook) recipient operations: timed out; channel -2 (pi-bun) recipient monitor-agent: channel token is unavailable".to_string())
    );
}

#[test]
fn encodes_path_segments() {
    assert_eq!(percent_encode_path("aZ09-_.~"), "aZ09-_.~");
    assert_eq!(percent_encode_path("a b/c?d#e%"), "a%20b%2Fc%3Fd%23e%25");
    assert_eq!(percent_encode_path("ö\n\u{7f}"), "%C3%B6%0A%7F");
    assert_eq!(percent_encode_path(""), "");
    assert_ne!(percent_encode_path("%20"), percent_encode_path(" "));
}
