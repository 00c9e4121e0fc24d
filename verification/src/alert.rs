//! Alert rules: when a rule triggers or resolves an alert, and what is then recorded and told.
use crate::clock::{clock_time, utc_seconds, utc_stamp, utc_text};
use crate::json::{
    double, double_tree, integer, integer_tree, lemma_member, lemma_no_member, member_views,
    no_members, object, optional_integer, optional_integer_tree, put_member, text, under, Double,
    Json, JsonNumber, JsonView,
};
use crate::sql::{
    integer_or_null, optional_integer_value, statement, text_value, value_views, SqlValue, SqlView,
    Statement, StatementView,
};
use crate::text::same_text;
use vstd::prelude::*;
use vstd::string::*;

verus! {

/// Reads the rules that are enabled.
pub const RULES: &'static str =
    "SELECT id, host_id, application_id, name, metric_name, operator, threshold, duration_secs FROM alert_rules WHERE enabled = 1";

/// Reads the values of a metric in a window, the earliest first.
pub const SAMPLES: &'static str =
    "SELECT value FROM metrics WHERE name = ?1 AND ts >= ?2 AND (?3 IS NULL OR host_id = ?3) AND (?4 IS NULL OR application_id = ?4) ORDER BY ts";

/// Counts the open alerts of a rule.
pub const OPEN_ALERTS: &'static str =
    "SELECT COUNT(*) FROM alert_events WHERE rule_id = ?1 AND resolved_at IS NULL";

/// Opens an alert.
pub const TRIGGER: &'static str =
    "INSERT INTO alert_events (rule_id, triggered_at, value) VALUES (?1, ?2, ?3)";

/// Closes the open alerts of a rule.
pub const RESOLVE: &'static str =
    "UPDATE alert_events SET resolved_at = ?1 WHERE rule_id = ?2 AND resolved_at IS NULL";

/// A rule: the metric that it watches, the comparison with the threshold that violates it, and
/// for how many seconds.
pub struct AlertRule {
    pub id: i64,
    pub host_id: Option<i64>,
    pub application_id: Option<i64>,
    pub name: String,
    pub metric_name: String,
    pub operator: String,
    pub threshold: Double,
    pub duration_secs: i64,
}

/// The mathematical value of an [`AlertRule`].
pub struct AlertRuleView {
    pub id: i64,
    pub host_id: Option<i64>,
    pub application_id: Option<i64>,
    pub name: Seq<char>,
    pub metric_name: Seq<char>,
    pub operator: Seq<char>,
    pub threshold: Double,
    pub duration_secs: i64,
}

impl View for AlertRule {
    type V = AlertRuleView;

    open spec fn view(&self) -> AlertRuleView {
        AlertRuleView {
            id: self.id,
            host_id: self.host_id,
            application_id: self.application_id,
            name: self.name@,
            metric_name: self.metric_name@,
            operator: self.operator@,
            threshold: self.threshold,
            duration_secs: self.duration_secs,
        }
    }
}

/// The views of a list of rules.
pub open spec fn rule_views(rules: Seq<AlertRule>) -> Seq<AlertRuleView> {
    rules.map_values(|rule: AlertRule| rule@)
}

/// How a measured value stands to the threshold of a rule.
#[derive(Clone, Copy, Debug)]
pub struct Reading {
    /// The value is greater than the threshold.
    pub above: bool,
    /// The value is less than the threshold.
    pub below: bool,
    /// The value differs from the threshold by less than the machine epsilon.
    pub near: bool,
}

/// A measured value, and how it stands to the threshold.
#[derive(Clone, Copy, Debug)]
pub struct Sample {
    pub value: Double,
    pub reading: Reading,
}

/// The reading violates a rule with this comparison. An unknown comparison is never violated.
pub open spec fn violating(operator: Seq<char>, reading: Reading) -> bool {
    if operator == "gt"@ {
        reading.above
    } else if operator == "lt"@ {
        reading.below
    } else if operator == "eq"@ {
        reading.near
    } else {
        false
    }
}

/// Whether a reading violates a rule with this comparison.
pub fn violates(reading: &Reading, operator: &str) -> (violated: bool)
    ensures
        violated == violating(operator@, *reading),
{
    if same_text(operator, "gt") {
        reading.above
    } else if same_text(operator, "lt") {
        reading.below
    } else if same_text(operator, "eq") {
        reading.near
    } else {
        false
    }
}

/// Each of the samples violates the rule.
pub open spec fn all_violating(operator: Seq<char>, samples: Seq<Sample>) -> bool {
    forall|i: int| 0 <= i < samples.len() ==> violating(operator, (#[trigger] samples[i]).reading)
}

fn all_violate(operator: &str, samples: &Vec<Sample>) -> (all: bool)
    ensures
        all == all_violating(operator@, samples@),
{
    let mut i: usize = 0;
    while i < samples.len()
        invariant
            i <= samples@.len(),
            forall|j: int|
                0 <= j < i ==> violating(operator@, (#[trigger] samples@[j]).reading),
        decreases samples@.len() - i,
    {
        if !violates(&samples[i].reading, operator) {
            assert(!violating(operator@, samples@[i as int].reading));
            return false;
        }
        i = i + 1;
    }
    true
}

/// What becomes of the alert of a rule.
#[derive(Clone, Copy, Debug, PartialEq, Eq, Structural)]
pub enum Change {
    Triggered,
    Resolved,
}

/// An alert is triggered where every sample violates the rule and none is open, and resolved
/// where some sample does not and one is open.
pub open spec fn change_of(violated: bool, open: bool) -> Option<Change> {
    if violated && !open {
        Some(Change::Triggered)
    } else if !violated && open {
        Some(Change::Resolved)
    } else {
        None
    }
}

/// Some alert of the rule is open, by the count of those that are. A count that could not be
/// read stands for zero.
pub open spec fn has_open_alert(count: Option<i64>) -> bool {
    count is Some && count->0 > 0
}

/// The name of the event that tells of the change.
pub open spec fn event_name(change: Change) -> Seq<char> {
    match change {
        Change::Triggered => "triggered"@,
        Change::Resolved => "resolved"@,
    }
}

/// What the recipients are told of an alert.
#[derive(Debug, PartialEq)]
pub struct AlertNotification {
    pub event: &'static str,
    pub rule_id: i64,
    pub rule: String,
    pub metric: String,
    pub value: Double,
    pub threshold: Double,
    pub host_id: Option<i64>,
    pub application_id: Option<i64>,
    pub timestamp: i64,
}

/// The mathematical value of an [`AlertNotification`].
pub struct NotificationView {
    pub event: Seq<char>,
    pub rule_id: i64,
    pub rule: Seq<char>,
    pub metric: Seq<char>,
    pub value: Double,
    pub threshold: Double,
    pub host_id: Option<i64>,
    pub application_id: Option<i64>,
    pub timestamp: i64,
}

impl View for AlertNotification {
    type V = NotificationView;

    open spec fn view(&self) -> NotificationView {
        NotificationView {
            event: self.event@,
            rule_id: self.rule_id,
            rule: self.rule@,
            metric: self.metric@,
            value: self.value,
            threshold: self.threshold,
            host_id: self.host_id,
            application_id: self.application_id,
            timestamp: self.timestamp,
        }
    }
}

impl Clone for AlertNotification {
    fn clone(&self) -> (copy: Self)
        ensures
            copy@ == self@,
    {
        AlertNotification {
            event: self.event,
            rule_id: self.rule_id,
            rule: self.rule.clone(),
            metric: self.metric.clone(),
            value: self.value,
            threshold: self.threshold,
            host_id: self.host_id,
            application_id: self.application_id,
            timestamp: self.timestamp,
        }
    }
}

/// The views of a list of notifications.
pub open spec fn notification_views(notifications: Seq<AlertNotification>) -> Seq<
    NotificationView,
> {
    notifications.map_values(|notification: AlertNotification| notification@)
}

/// The tree that shows a notification.
pub open spec fn notification_tree(notification: NotificationView) -> JsonView {
    JsonView::Object(
        seq![
            ("event"@, JsonView::Text(notification.event)),
            ("rule_id"@, integer_tree(notification.rule_id)),
            ("rule"@, JsonView::Text(notification.rule)),
            ("metric"@, JsonView::Text(notification.metric)),
            ("value"@, double_tree(notification.value)),
            ("threshold"@, double_tree(notification.threshold)),
            ("host_id"@, optional_integer_tree(notification.host_id)),
            ("application_id"@, optional_integer_tree(notification.application_id)),
            ("timestamp"@, integer_tree(notification.timestamp)),
        ],
    )
}

/// The tree that shows a notification.
pub fn notification_json(notification: &AlertNotification) -> (json: Json)
    ensures
        json@ == notification_tree(notification@),
{
    let mut members = no_members();
    put_member(&mut members, "event", text(notification.event));
    put_member(&mut members, "rule_id", integer(notification.rule_id));
    put_member(&mut members, "rule", text(notification.rule.as_str()));
    put_member(&mut members, "metric", text(notification.metric.as_str()));
    put_member(&mut members, "value", double(notification.value));
    put_member(&mut members, "threshold", double(notification.threshold));
    put_member(&mut members, "host_id", optional_integer(notification.host_id));
    put_member(&mut members, "application_id", optional_integer(notification.application_id));
    put_member(&mut members, "timestamp", integer(notification.timestamp));
    assert(member_views(members@) =~= notification_tree(notification@)->Object_0);
    object(members)
}

/// What the recipients are told of a change of a rule's alert.
pub open spec fn notification_of(
    change: Change,
    rule: AlertRuleView,
    latest: Double,
    now: i64,
) -> NotificationView {
    NotificationView {
        event: event_name(change),
        rule_id: rule.id,
        rule: rule.name,
        metric: rule.metric_name,
        value: latest,
        threshold: rule.threshold,
        host_id: rule.host_id,
        application_id: rule.application_id,
        timestamp: now,
    }
}

fn notification(change: Change, rule: &AlertRule, latest: Double, now: i64) -> (result:
    AlertNotification)
    ensures
        result@ == notification_of(change, rule@, latest, now),
{
    let event: &'static str = match change {
        Change::Triggered => "triggered",
        Change::Resolved => "resolved",
    };
    AlertNotification {
        event,
        rule_id: rule.id,
        rule: rule.name.clone(),
        metric: rule.metric_name.clone(),
        value: latest,
        threshold: rule.threshold,
        host_id: rule.host_id,
        application_id: rule.application_id,
        timestamp: now,
    }
}

/// The query for the rules that are enabled.
pub open spec fn rules_statement() -> StatementView {
    StatementView {
        sql: RULES@,
        values: seq![],
    }
}

/// The query for the rules that are enabled.
pub fn rules_query() -> (query: Statement)
    ensures
        query@ == rules_statement(),
{
    let values: Vec<SqlValue> = Vec::new();
    assert(value_views(values@) =~= seq![]);
    statement(RULES, values)
}

/// The start of the window that a rule looks at, none where it is out of range.
pub open spec fn rule_window(rule: AlertRuleView, now: i64) -> Option<i64> {
    if i64::MIN <= now - rule.duration_secs <= i64::MAX {
        Some((now - rule.duration_secs) as i64)
    } else {
        None
    }
}

/// The query for a rule's samples since `start`, the earliest first.
pub open spec fn samples_statement(rule: AlertRuleView, start: i64) -> StatementView {
    StatementView {
        sql: SAMPLES@,
        values: seq![
            SqlView::Text(rule.metric_name),
            SqlView::Integer(start),
            optional_integer_value(rule.host_id),
            optional_integer_value(rule.application_id),
        ],
    }
}

fn samples_query(rule: &AlertRule, start: i64) -> (query: Statement)
    ensures
        query@ == samples_statement(rule@, start),
{
    let mut values: Vec<SqlValue> = Vec::new();
    values.push(text_value(rule.metric_name.as_str()));
    values.push(SqlValue::Integer(start));
    values.push(integer_or_null(rule.host_id));
    values.push(integer_or_null(rule.application_id));
    assert(value_views(values@) =~= samples_statement(rule@, start).values);
    statement(SAMPLES, values)
}

/// The query that counts the open alerts of a rule.
pub open spec fn open_statement(rule: AlertRuleView) -> StatementView {
    StatementView {
        sql: OPEN_ALERTS@,
        values: seq![SqlView::Integer(rule.id)],
    }
}

fn open_query(rule: &AlertRule) -> (query: Statement)
    ensures
        query@ == open_statement(rule@),
{
    let mut values: Vec<SqlValue> = Vec::new();
    values.push(SqlValue::Integer(rule.id));
    assert(value_views(values@) =~= open_statement(rule@).values);
    statement(OPEN_ALERTS, values)
}

/// The statement that records a change: a new open alert, or the end of those that are open.
pub open spec fn change_statement(
    change: Change,
    rule: AlertRuleView,
    latest: Double,
    now: i64,
) -> StatementView {
    match change {
        Change::Triggered => StatementView {
            sql: TRIGGER@,
            values: seq![
                SqlView::Integer(rule.id),
                SqlView::Integer(now),
                SqlView::Real(JsonNumber::Float(latest)),
            ],
        },
        Change::Resolved => StatementView {
            sql: RESOLVE@,
            values: seq![SqlView::Integer(now), SqlView::Integer(rule.id)],
        },
    }
}

fn record_change(change: Change, rule: &AlertRule, latest: Double, now: i64) -> (query: Statement)
    ensures
        query@ == change_statement(change, rule@, latest, now),
{
    let mut values: Vec<SqlValue> = Vec::new();
    match change {
        Change::Triggered => {
            values.push(SqlValue::Integer(rule.id));
            values.push(SqlValue::Integer(now));
            values.push(SqlValue::Real(JsonNumber::Float(latest)));
            assert(value_views(values@) =~= change_statement(change, rule@, latest, now).values);
            statement(TRIGGER, values)
        },
        Change::Resolved => {
            values.push(SqlValue::Integer(now));
            values.push(SqlValue::Integer(rule.id));
            assert(value_views(values@) =~= change_statement(change, rule@, latest, now).values);
            statement(RESOLVE, values)
        },
    }
}

/// A value and a threshold, written out.
pub struct Figures {
    pub value: String,
    pub threshold: String,
}

/// What the alert log says of a change.
pub open spec fn change_message(
    change: Change,
    rule: AlertRuleView,
    value: Seq<char>,
    threshold: Seq<char>,
) -> Seq<char> {
    match change {
        Change::Triggered => "ALERT rule=\""@ + rule.name + "\" metric=\""@ + rule.metric_name
            + "\" value="@ + value + " threshold="@ + threshold,
        Change::Resolved => "RESOLVED rule=\""@ + rule.name + "\" metric=\""@ + rule.metric_name
            + "\" value="@ + value,
    }
}

/// What the alert log says of a change, with the figures as the log writes them.
pub fn log_message(change: Change, rule: &AlertRule, figures: &Figures) -> (message: String)
    ensures
        message@ == change_message(change, rule@, figures.value@, figures.threshold@),
{
    let mut message = match change {
        Change::Triggered => "ALERT rule=\"".to_owned(),
        Change::Resolved => "RESOLVED rule=\"".to_owned(),
    };
    message.append(rule.name.as_str());
    message.append("\" metric=\"");
    message.append(rule.metric_name.as_str());
    message.append("\" value=");
    message.append(figures.value.as_str());
    match change {
        Change::Triggered => {
            message.append(" threshold=");
            message.append(figures.threshold.as_str());
        },
        Change::Resolved => {},
    }
    message
}

/// A line of the alert log: the time, a space and the message.
pub open spec fn stamped(timestamp: Seq<char>, message: Seq<char>) -> Seq<char> {
    timestamp + seq![' '] + message
}

/// A line of the alert log: the time, a space and the message.
pub fn log_line(timestamp: &str, message: &str) -> (line: String)
    ensures
        line@ == timestamp@ + seq![' '] + message@,
        line@ == stamped(timestamp@, message@),
{
    let mut line = timestamp.to_owned();
    line.push(' ');
    line.append(message);
    assert(line@ =~= timestamp@ + seq![' '] + message@);
    line
}

/// The line to append to the alert log now.
pub fn write_alert_log(message: &str) -> (line: String)
    ensures
        exists|timestamp: Seq<char>| #[trigger]
            utc_stamp(timestamp) && line@ == timestamp + seq![' '] + message@,
        exists|timestamp: Seq<char>| #[trigger]
            utc_stamp(timestamp) && line@ == stamped(timestamp, message@),
{
    log_line(utc_text().as_str(), message)
}

/// What the samples of a rule say: whether all of them violate it, and the latest of them.
#[derive(Clone, Copy, Debug)]
pub struct Judgement {
    pub violated: bool,
    pub latest: Double,
}

/// What the samples say of the rule; nothing where there are none.
pub open spec fn judgement_of(operator: Seq<char>, samples: Seq<Sample>) -> Option<Judgement> {
    if samples.len() == 0 {
        None
    } else {
        Some(
            Judgement {
                violated: all_violating(operator, samples),
                latest: samples.last().value,
            },
        )
    }
}

/// A pass over the enabled rules. Of the rule at `next` either the samples are wanted, or, once
/// they are judged, the count of its open alerts.
pub struct Sweep {
    pub now: i64,
    pub rules: Vec<AlertRule>,
    pub next: usize,
    pub judged: Option<Judgement>,
    pub notifications: Vec<AlertNotification>,
}

/// The mathematical value of a [`Sweep`].
#[verifier::ext_equal]
pub struct SweepView {
    pub now: i64,
    pub rules: Seq<AlertRuleView>,
    pub next: int,
    pub judged: Option<Judgement>,
    pub notifications: Seq<NotificationView>,
}

impl View for Sweep {
    type V = SweepView;

    open spec fn view(&self) -> SweepView {
        SweepView {
            now: self.now,
            rules: rule_views(self.rules@),
            next: self.next as int,
            judged: self.judged,
            notifications: notification_views(self.notifications@),
        }
    }
}

/// What a pass asks for next.
#[derive(Debug, PartialEq)]
pub enum SweepAction {
    /// Read the samples.
    Samples(Statement),
    /// Count the open alerts.
    OpenAlerts(Statement),
    /// The window of the rule starts out of range: the pass cannot go on.
    OutOfRange,
    /// Every rule has been seen: deliver the notifications.
    Deliver,
}

/// The mathematical value of a [`SweepAction`].
#[verifier::ext_equal]
pub enum SweepActionView {
    Samples(StatementView),
    OpenAlerts(StatementView),
    OutOfRange,
    Deliver,
}

impl View for SweepAction {
    type V = SweepActionView;

    open spec fn view(&self) -> SweepActionView {
        match self {
            SweepAction::Samples(statement) => SweepActionView::Samples(statement@),
            SweepAction::OpenAlerts(statement) => SweepActionView::OpenAlerts(statement@),
            SweepAction::OutOfRange => SweepActionView::OutOfRange,
            SweepAction::Deliver => SweepActionView::Deliver,
        }
    }
}

/// A change that a pass came to: the rule it is of, the latest value, and the statement that
/// records it.
#[derive(Debug, PartialEq)]
pub struct Transition {
    pub change: Change,
    pub rule: usize,
    pub latest: Double,
    pub statement: Statement,
}

/// The mathematical value of a [`Transition`].
#[verifier::ext_equal]
pub struct TransitionView {
    pub change: Change,
    pub rule: int,
    pub latest: Double,
    pub statement: StatementView,
}

impl View for Transition {
    type V = TransitionView;

    open spec fn view(&self) -> TransitionView {
        TransitionView {
            change: self.change,
            rule: self.rule as int,
            latest: self.latest,
            statement: self.statement@,
        }
    }
}

/// The view of an optional transition.
pub open spec fn optional_transition(transition: Option<Transition>) -> Option<TransitionView> {
    match transition {
        Some(t) => Some(t@),
        None => None,
    }
}

impl SweepView {
    /// A pass over these rules before the first of them is seen.
    pub open spec fn begun(rules: Seq<AlertRuleView>, now: i64) -> SweepView {
        SweepView { now, rules, next: 0, judged: None, notifications: seq![] }
    }

    /// Some rule is still to be seen.
    pub open spec fn ongoing(self) -> bool {
        0 <= self.next < self.rules.len()
    }

    /// What the pass asks for next.
    pub open spec fn action(self) -> SweepActionView {
        if !self.ongoing() {
            SweepActionView::Deliver
        } else if self.judged is Some {
            SweepActionView::OpenAlerts(open_statement(self.rules[self.next]))
        } else {
            match rule_window(self.rules[self.next], self.now) {
                Some(start) => SweepActionView::Samples(
                    samples_statement(self.rules[self.next], start),
                ),
                None => SweepActionView::OutOfRange,
            }
        }
    }

    /// The pass once the samples of its next rule are known. A rule without samples is passed
    /// over.
    pub open spec fn with_samples(self, samples: Seq<Sample>) -> SweepView {
        match judgement_of(self.rules[self.next].operator, samples) {
            Some(judgement) => SweepView { judged: Some(judgement), ..self },
            None => SweepView { next: self.next + 1, ..self },
        }
    }

    /// The change of its next rule's alert, given the count of those that are open.
    pub open spec fn transition(self, count: Option<i64>) -> Option<TransitionView> {
        match change_of(self.judged->0.violated, has_open_alert(count)) {
            Some(change) => Some(
                TransitionView {
                    change,
                    rule: self.next,
                    latest: self.judged->0.latest,
                    statement: change_statement(
                        change,
                        self.rules[self.next],
                        self.judged->0.latest,
                        self.now,
                    ),
                },
            ),
            None => None,
        }
    }

    /// The pass once the count of its next rule's open alerts is known.
    pub open spec fn with_count(self, count: Option<i64>) -> SweepView {
        SweepView {
            next: self.next + 1,
            judged: None,
            notifications: match change_of(self.judged->0.violated, has_open_alert(count)) {
                Some(change) => self.notifications.push(
                    notification_of(
                        change,
                        self.rules[self.next],
                        self.judged->0.latest,
                        self.now,
                    ),
                ),
                None => self.notifications,
            },
            ..self
        }
    }
}

impl Sweep {
    /// Begins a pass over these rules at `now`.
    pub fn begin(rules: Vec<AlertRule>, now: i64) -> (sweep: Sweep)
        ensures
            sweep@ == SweepView::begun(rule_views(rules@), now),
    {
        let notifications: Vec<AlertNotification> = Vec::new();
        assert(notification_views(notifications@) =~= seq![]);
        Sweep { now, rules, next: 0, judged: None, notifications }
    }

    /// What the pass asks for next.
    pub fn action(&self) -> (action: SweepAction)
        ensures
            action@ == self@.action(),
    {
        if self.next >= self.rules.len() {
            return SweepAction::Deliver;
        }
        let rule = &self.rules[self.next];
        assert(rule@ == self@.rules[self@.next]);
        if self.judged.is_some() {
            return SweepAction::OpenAlerts(open_query(rule));
        }
        match self.now.checked_sub(rule.duration_secs) {
            Some(start) => SweepAction::Samples(samples_query(rule, start)),
            None => SweepAction::OutOfRange,
        }
    }

    /// Takes the samples of the next rule, the earliest first.
    pub fn samples(&mut self, samples: &Vec<Sample>)
        requires
            old(self)@.ongoing(),
            old(self).judged is None,
        ensures
            final(self)@ == old(self)@.with_samples(samples@),
    {
        let ghost before = self@;
        assert(self.next < self.rules.len());
        if samples.len() == 0 {
            self.next = self.next + 1;
        } else {
            let violated = all_violate(self.rules[self.next].operator.as_str(), samples);
            let latest = samples[samples.len() - 1].value;
            self.judged = Some(Judgement { violated, latest });
        }
        assert(self@ =~= before.with_samples(samples@));
    }

    /// Takes the count of the next rule's open alerts, none where it could not be read. Gives
    /// back the change that is to be recorded, if there is one.
    pub fn open_alerts(&mut self, count: Option<i64>) -> (transition: Option<Transition>)
        requires
            old(self)@.ongoing(),
            old(self).judged is Some,
        ensures
            final(self)@ == old(self)@.with_count(count),
            optional_transition(transition) == old(self)@.transition(count),
    {
        let ghost before = self@;
        let open = match count {
            Some(n) => n > 0,
            None => false,
        };
        let transition = match self.judged {
            Some(judgement) => {
                let change = if judgement.violated && !open {
                    Some(Change::Triggered)
                } else if !judgement.violated && open {
                    Some(Change::Resolved)
                } else {
                    None
                };
                match change {
                    Some(change) => {
                        let ghost told = self.notifications@;
                        let rule = &self.rules[self.next];
                        let message = notification(change, rule, judgement.latest, self.now);
                        let statement = record_change(change, rule, judgement.latest, self.now);
                        self.notifications.push(message);
                        assert(notification_views(self.notifications@) =~= notification_views(
                            told,
                        ).push(message@));
                        Some(
                            Transition {
                                change,
                                rule: self.next,
                                latest: judgement.latest,
                                statement,
                            },
                        )
                    },
                    None => None,
                }
            },
            None => None,
        };
        assert(self.next < self.rules.len());
        self.judged = None;
        self.next = self.next + 1;
        assert(self@ =~= before.with_count(count));
        transition
    }
}

/// Begins a pass over the enabled rules now.
pub fn evaluate_alerts(rules: Vec<AlertRule>) -> (sweep: Sweep)
    ensures
        exists|now: i64|
            clock_time(now) && sweep@ == #[trigger] SweepView::begun(rule_views(rules@), now),
{
    Sweep::begin(rules, utc_seconds())
}

/// What the recipients of a channel are told to test it. The double one has the bits of 1.
pub open spec fn test_notification(now: i64) -> NotificationView {
    NotificationView {
        event: "test"@,
        rule_id: 0,
        rule: "Channel test"@,
        metric: "monitor.channel"@,
        value: Double { bits: 0x3ff0_0000_0000_0000 },
        threshold: Double { bits: 0x3ff0_0000_0000_0000 },
        host_id: None,
        application_id: None,
        timestamp: now,
    }
}

/// What the recipients of a channel are told to test it at `now`.
pub fn test_channel_at(now: i64) -> (notification: AlertNotification)
    ensures
        notification@ == test_notification(now),
{
    AlertNotification {
        event: "test",
        rule_id: 0,
        rule: "Channel test".to_owned(),
        metric: "monitor.channel".to_owned(),
        value: Double { bits: 0x3ff0_0000_0000_0000 },
        threshold: Double { bits: 0x3ff0_0000_0000_0000 },
        host_id: None,
        application_id: None,
        timestamp: now,
    }
}

/// What the recipients of a channel are told to test it now.
pub fn test_channel() -> (notification: AlertNotification)
    ensures
        exists|now: i64| clock_time(now) && notification@ == #[trigger] test_notification(now),
{
    test_channel_at(utc_seconds())
}

/// Some alert of a rule is open once the change is recorded.
pub open spec fn open_after(open: bool, change: Option<Change>) -> bool {
    match change {
        Some(Change::Triggered) => true,
        Some(Change::Resolved) => false,
        None => open,
    }
}

/// Once a pass has judged a rule and recorded the change, an alert of it is open exactly when
/// every sample violated it; and a second look at the same samples changes nothing, so no
/// change is told twice.
pub proof fn law_open_alerts_follow_the_samples(violated: bool, open: bool)
    ensures
        open_after(open, change_of(violated, open)) == violated,
        change_of(violated, open_after(open, change_of(violated, open))) is None,
{
}

/// How many alerts of a rule are open once the change is recorded.
pub open spec fn count_after(count: i64, change: Option<Change>) -> int {
    match change {
        Some(Change::Triggered) => count + 1,
        Some(Change::Resolved) => 0,
        None => count as int,
    }
}

/// A rule never has two open alerts, as long as their count can be read.
pub proof fn law_at_most_one_alert_is_open(violated: bool, count: i64)
    requires
        0 <= count <= 1,
    ensures
        0 <= count_after(count, change_of(violated, has_open_alert(Some(count)))) <= 1,
{
}

/// Some alert of a rule is open after successive looks, from a state without one, where at
/// each look the samples violate the rule or not.
pub open spec fn open_over(violated: Seq<bool>) -> bool
    decreases violated.len(),
{
    if violated.len() == 0 {
        false
    } else {
        let open = open_over(violated.drop_last());
        open_after(open, change_of(violated.last(), open))
    }
}

/// The changes of a rule's alert over those looks.
pub open spec fn changes_over(violated: Seq<bool>) -> Seq<Change>
    decreases violated.len(),
{
    if violated.len() == 0 {
        seq![]
    } else {
        let before = violated.drop_last();
        match change_of(violated.last(), open_over(before)) {
            Some(change) => changes_over(before).push(change),
            None => changes_over(before),
        }
    }
}

/// Over any number of looks, a rule's alert is triggered and resolved in turn: the first
/// change triggers it, and no two neighbours are the same.
pub proof fn law_changes_alternate(violated: Seq<bool>)
    ensures
        forall|i: int|
            0 <= i < changes_over(violated).len() ==> (#[trigger] changes_over(violated)[i]
                == if i % 2 == 0 {
                Change::Triggered
            } else {
                Change::Resolved
            }),
        (changes_over(violated).len() % 2 == 1) == open_over(violated),
    decreases violated.len(),
{
    if violated.len() > 0 {
        law_changes_alternate(violated.drop_last());
    }
}

/// The pass from this state to its end, where the samples and the count of open alerts of the
/// rule at each place are as given.
pub open spec fn swept(
    sweep: SweepView,
    samples: spec_fn(int) -> Seq<Sample>,
    counts: spec_fn(int) -> Option<i64>,
) -> SweepView
    decreases sweep.rules.len() - sweep.next,
{
    if !sweep.ongoing() {
        sweep
    } else {
        let judged = sweep.with_samples(samples(sweep.next));
        swept(
            if judged.next == sweep.next {
                judged.with_count(counts(sweep.next))
            } else {
                judged
            },
            samples,
            counts,
        )
    }
}

/// What is told of the first `n` rules.
pub open spec fn told(
    rules: Seq<AlertRuleView>,
    now: i64,
    samples: spec_fn(int) -> Seq<Sample>,
    counts: spec_fn(int) -> Option<i64>,
    n: int,
) -> Seq<NotificationView>
    decreases n,
{
    if n <= 0 {
        seq![]
    } else {
        let before = told(rules, now, samples, counts, n - 1);
        let judgement = judgement_of(rules[n - 1].operator, samples(n - 1));
        if judgement is None {
            before
        } else {
            match change_of(judgement->0.violated, has_open_alert(counts(n - 1))) {
                Some(change) => before.push(
                    notification_of(change, rules[n - 1], judgement->0.latest, now),
                ),
                None => before,
            }
        }
    }
}

proof fn lemma_swept_tells(
    sweep: SweepView,
    samples: spec_fn(int) -> Seq<Sample>,
    counts: spec_fn(int) -> Option<i64>,
)
    requires
        0 <= sweep.next <= sweep.rules.len(),
        sweep.judged is None,
        sweep.notifications == told(sweep.rules, sweep.now, samples, counts, sweep.next),
    ensures
        swept(sweep, samples, counts).next == sweep.rules.len(),
        swept(sweep, samples, counts).notifications == told(
            sweep.rules,
            sweep.now,
            samples,
            counts,
            sweep.rules.len() as int,
        ),
    decreases sweep.rules.len() - sweep.next,
{
    if sweep.ongoing() {
        let judged = sweep.with_samples(samples(sweep.next));
        let after = if judged.next == sweep.next {
            judged.with_count(counts(sweep.next))
        } else {
            judged
        };
        assert(after.notifications =~= told(
            sweep.rules,
            sweep.now,
            samples,
            counts,
            sweep.next + 1,
        ));
        lemma_swept_tells(after, samples, counts);
    }
}

/// A pass sees every rule once, in order, and tells of exactly those whose alert changes. A
/// rule without samples tells nothing.
pub proof fn law_a_pass_tells_of_every_change(
    rules: Seq<AlertRuleView>,
    now: i64,
    samples: spec_fn(int) -> Seq<Sample>,
    counts: spec_fn(int) -> Option<i64>,
)
    ensures
        swept(SweepView::begun(rules, now), samples, counts).next == rules.len(),
        swept(SweepView::begun(rules, now), samples, counts).notifications == told(
            rules,
            now,
            samples,
            counts,
            rules.len() as int,
        ),
{
    lemma_swept_tells(SweepView::begun(rules, now), samples, counts);
}

/// A reading violates a rule by `gt` where the value is above the threshold, by `lt` where it is
/// below, by `eq` where it is near, and by no other comparison.
pub proof fn law_each_operator_has_its_reading(operator: Seq<char>, reading: Reading)
    ensures
        violating("gt"@, reading) == reading.above,
        violating("lt"@, reading) == reading.below,
        violating("eq"@, reading) == reading.near,
        operator != "gt"@ && operator != "lt"@ && operator != "eq"@ ==> !violating(
            operator,
            reading,
        ),
{
    lemma_operators_differ();
}

proof fn lemma_operators_differ()
    ensures
        "gt"@ != "lt"@,
        "gt"@ != "eq"@,
        "lt"@ != "eq"@,
{
    reveal_strlit("gt");
    reveal_strlit("lt");
    reveal_strlit("eq");
    assert("gt"@[0] == 'g');
    assert("lt"@[0] == 'l');
    assert("eq"@[0] == 'e');
}

/// Once the samples of a rule are taken, and none of its alerts is open, an alert is triggered
/// exactly when each sample, wherever it stands, is on the side of the threshold that the rule's
/// operator names. Where one is open, it is resolved exactly when some sample is not. The value
/// that is told is that of the last sample.
pub proof fn law_every_sample_counts(sweep: SweepView, samples: Seq<Sample>, count: Option<i64>)
    requires
        sweep.ongoing(),
        sweep.judged is None,
        samples.len() > 0,
    ensures
        ({
            let operator = sweep.rules[sweep.next].operator;
            let judged = sweep.with_samples(samples);
            let transition = judged.transition(count);
            let open = count is Some && count->0 > 0;
            let violated = {
                ||| operator == "gt"@ && forall|i: int|
                    0 <= i < samples.len() ==> (#[trigger] samples[i]).reading.above
                ||| operator == "lt"@ && forall|i: int|
                    0 <= i < samples.len() ==> (#[trigger] samples[i]).reading.below
                ||| operator == "eq"@ && forall|i: int|
                    0 <= i < samples.len() ==> (#[trigger] samples[i]).reading.near
            };
            &&& judged.judged is Some
            &&& transition is Some && transition->0.change == Change::Triggered <==> violated
                && !open
            &&& transition is Some && transition->0.change == Change::Resolved <==> !violated
                && open
            &&& transition is Some ==> transition->0.latest == samples[samples.len() - 1].value
            &&& judged.notifications == sweep.notifications
            &&& judged.rules == sweep.rules && judged.next == sweep.next && judged.now == sweep.now
        }),
{
    lemma_operators_differ();
    let operator = sweep.rules[sweep.next].operator;
    let judged = sweep.with_samples(samples);
    assert forall|i: int| 0 <= i < samples.len() implies {
        let reading = (#[trigger] samples[i]).reading;
        violating(operator, reading) == {
            ||| operator == "gt"@ && reading.above
            ||| operator == "lt"@ && reading.below
            ||| operator == "eq"@ && reading.near
        }
    } by {
        law_each_operator_has_its_reading(operator, samples[i].reading);
    }
    if judged.judged->0.violated {
        assert(violating(operator, samples[0].reading));
    }
}

/// One sample that does not violate the rule keeps its alert from being triggered, whatever
/// stands before and behind it.
pub proof fn law_a_spike_does_not_trigger(
    sweep: SweepView,
    before: Seq<Sample>,
    calm: Sample,
    after: Seq<Sample>,
    count: Option<i64>,
)
    requires
        sweep.ongoing(),
        sweep.judged is None,
        ({
            let operator = sweep.rules[sweep.next].operator;
            &&& operator == "gt"@ ==> !calm.reading.above
            &&& operator == "lt"@ ==> !calm.reading.below
            &&& operator == "eq"@ ==> !calm.reading.near
        }),
    ensures
        ({
            let judged = sweep.with_samples(before + seq![calm] + after);
            let transition = judged.transition(count);
            transition is Some ==> transition->0.change == Change::Resolved
        }),
{
    let samples = before + seq![calm] + after;
    law_every_sample_counts(sweep, samples, count);
    lemma_operators_differ();
    assert(samples[before.len() as int] == calm);
}

/// A rule without samples is passed over: nothing is told of it, and the next rule is seen.
pub proof fn law_rules_without_samples_are_passed_over(sweep: SweepView)
    ensures
        ({
            let passed = sweep.with_samples(Seq::empty());
            &&& passed.next == sweep.next + 1
            &&& passed.notifications == sweep.notifications
            &&& passed.judged == sweep.judged
            &&& passed.rules == sweep.rules && passed.now == sweep.now
        }),
        SweepView::begun(sweep.rules, sweep.now).next == 0,
        SweepView::begun(sweep.rules, sweep.now).rules == sweep.rules,
        SweepView::begun(sweep.rules, sweep.now).now == sweep.now,
        SweepView::begun(sweep.rules, sweep.now).judged is None,
        SweepView::begun(sweep.rules, sweep.now).notifications.len() == 0,
{
}

/// A transition and the notification of it are of the rule that was seen: they bear its id, its
/// name, its metric, its threshold and its place, the latest value and the time of the pass.
/// Where there is no transition, nothing is told. Either way the next rule is seen.
pub proof fn law_transitions_are_told_as_they_are_recorded(sweep: SweepView, count: Option<i64>)
    requires
        sweep.ongoing(),
        sweep.judged is Some,
    ensures
        ({
            let rule = sweep.rules[sweep.next];
            let after = sweep.with_count(count);
            &&& after.next == sweep.next + 1
            &&& after.judged is None
            &&& after.rules == sweep.rules && after.now == sweep.now
            &&& sweep.transition(count) is None ==> after.notifications == sweep.notifications
            &&& sweep.transition(count) matches Some(transition) ==> {
                let told = after.notifications.last();
                &&& after.notifications == sweep.notifications.push(told)
                &&& transition.rule == sweep.next
                &&& transition.latest == sweep.judged->0.latest
                &&& told.rule_id == rule.id
                &&& told.rule == rule.name
                &&& told.metric == rule.metric_name
                &&& told.value == transition.latest
                &&& told.threshold == rule.threshold
                &&& told.host_id == rule.host_id
                &&& told.application_id == rule.application_id
                &&& told.timestamp == sweep.now
                &&& transition.change == Change::Triggered ==> {
                    &&& told.event == "triggered"@
                    &&& transition.statement.sql
                        == "INSERT INTO alert_events (rule_id, triggered_at, value) VALUES (?1, ?2, ?3)"@
                    &&& transition.statement.values.len() == 3
                    &&& transition.statement.values[0] == SqlView::Integer(rule.id)
                    &&& transition.statement.values[1] == SqlView::Integer(sweep.now)
                    &&& transition.statement.values[2] == SqlView::Real(
                        JsonNumber::Float(transition.latest),
                    )
                }
                &&& transition.change == Change::Resolved ==> {
                    &&& told.event == "resolved"@
                    &&& transition.statement.sql
                        == "UPDATE alert_events SET resolved_at = ?1 WHERE rule_id = ?2 AND resolved_at IS NULL"@
                    &&& transition.statement.values.len() == 2
                    &&& transition.statement.values[0] == SqlView::Integer(sweep.now)
                    &&& transition.statement.values[1] == SqlView::Integer(rule.id)
                }
            }
        }),
{
    let after = sweep.with_count(count);
    if sweep.transition(count) is Some {
        assert(after.notifications =~= sweep.notifications.push(after.notifications.last()));
    }
}

/// What a pass asks for: the samples of the rule's metric, host and application in the window
/// that ends now and is as long as the rule says; then the count of that rule's open alerts; and
/// once every rule was seen, the delivery.
pub proof fn law_a_pass_asks_for_the_window_of_its_rule(sweep: SweepView)
    requires
        0 <= sweep.next <= sweep.rules.len(),
    ensures
        sweep.action() is Deliver <==> sweep.next == sweep.rules.len(),
        sweep.action() is OpenAlerts <==> sweep.next < sweep.rules.len() && sweep.judged is Some,
        sweep.action() is OutOfRange ==> sweep.now - sweep.rules[sweep.next].duration_secs
            > 0x7fff_ffff_ffff_ffff || sweep.now - sweep.rules[sweep.next].duration_secs
            < -0x8000_0000_0000_0000,
        sweep.action() matches SweepActionView::OpenAlerts(query) ==> {
            &&& query.sql
                == "SELECT COUNT(*) FROM alert_events WHERE rule_id = ?1 AND resolved_at IS NULL"@
            &&& query.values == seq![SqlView::Integer(sweep.rules[sweep.next].id)]
        },
        sweep.action() matches SweepActionView::Samples(query) ==> {
            let rule = sweep.rules[sweep.next];
            &&& query.sql
                == "SELECT value FROM metrics WHERE name = ?1 AND ts >= ?2 AND (?3 IS NULL OR host_id = ?3) AND (?4 IS NULL OR application_id = ?4) ORDER BY ts"@
            &&& query.values.len() == 4
            &&& query.values[0] == SqlView::Text(rule.metric_name)
            &&& query.values[1] is Integer
            &&& query.values[1]->Integer_0 + rule.duration_secs == sweep.now
            &&& rule.host_id matches Some(id) ==> query.values[2] == SqlView::Integer(id)
            &&& rule.host_id is None ==> query.values[2] == SqlView::Null
            &&& rule.application_id matches Some(id) ==> query.values[3] == SqlView::Integer(id)
            &&& rule.application_id is None ==> query.values[3] == SqlView::Null
        },
        rules_statement().sql
            == "SELECT id, host_id, application_id, name, metric_name, operator, threshold, duration_secs FROM alert_rules WHERE enabled = 1"@,
        rules_statement().values.len() == 0,
{
}

/// The object that shows a notification holds each of its fields under the field's own name,
/// and nothing else.
pub proof fn law_notifications_are_shown_by_name(notification: NotificationView, other: Seq<char>)
    ensures
        ({
            let tree = notification_tree(notification);
            &&& under(tree, "event"@) == Some(JsonView::Text(notification.event))
            &&& under(tree, "rule_id"@) == Some(integer_tree(notification.rule_id))
            &&& under(tree, "rule"@) == Some(JsonView::Text(notification.rule))
            &&& under(tree, "metric"@) == Some(JsonView::Text(notification.metric))
            &&& under(tree, "value"@) == Some(double_tree(notification.value))
            &&& under(tree, "threshold"@) == Some(double_tree(notification.threshold))
            &&& under(tree, "host_id"@) == Some(optional_integer_tree(notification.host_id))
            &&& under(tree, "application_id"@) == Some(
                optional_integer_tree(notification.application_id),
            )
            &&& under(tree, "timestamp"@) == Some(integer_tree(notification.timestamp))
            &&& under(tree, other) is Some ==> other == "event"@ || other == "rule_id"@ || other
                == "rule"@ || other == "metric"@ || other == "value"@ || other == "threshold"@
                || other == "host_id"@ || other == "application_id"@ || other == "timestamp"@
        }),
{
    reveal_strlit("event");
    reveal_strlit("rule_id");
    reveal_strlit("rule");
    reveal_strlit("metric");
    reveal_strlit("value");
    reveal_strlit("threshold");
    reveal_strlit("host_id");
    reveal_strlit("application_id");
    reveal_strlit("timestamp");
    assert("event"@.len() == 5);
    assert("rule_id"@.len() == 7);
    assert("rule"@.len() == 4);
    assert("metric"@.len() == 6);
    assert("value"@.len() == 5);
    assert("threshold"@.len() == 9);
    assert("host_id"@.len() == 7);
    assert("application_id"@.len() == 14);
    assert("timestamp"@.len() == 9);
    assert("event"@[0] != "value"@[0]);
    assert("rule_id"@[0] != "host_id"@[0]);
    assert("threshold"@[1] != "timestamp"@[1]);
    let members = notification_tree(notification)->Object_0;
    assert(members[0].0 == "event"@);
    assert(members[1].0 == "rule_id"@);
    assert(members[2].0 == "rule"@);
    assert(members[3].0 == "metric"@);
    assert(members[4].0 == "value"@);
    assert(members[5].0 == "threshold"@);
    assert(members[6].0 == "host_id"@);
    assert(members[7].0 == "application_id"@);
    assert(members[8].0 == "timestamp"@);
    lemma_member(members, 0);
    lemma_member(members, 1);
    lemma_member(members, 2);
    lemma_member(members, 3);
    lemma_member(members, 4);
    lemma_member(members, 5);
    lemma_member(members, 6);
    lemma_member(members, 7);
    lemma_member(members, 8);
    if forall|j: int| 0 <= j < members.len() ==> (#[trigger] members[j]).0 != other {
        lemma_no_member(members, other);
    }
}

/// The alert log says of a triggered alert the rule, the metric, the value and the threshold,
/// and of a resolved one the rule, the metric and the value, each behind its own label.
pub proof fn law_the_alert_log_labels_its_figures(
    rule: AlertRuleView,
    value: Seq<char>,
    threshold: Seq<char>,
)
    ensures
        ({
            let message = change_message(Change::Triggered, rule, value, threshold);
            let head = "ALERT rule=\""@ + rule.name + "\" metric=\""@ + rule.metric_name;
            let tail = "\" value="@ + value + " threshold="@ + threshold;
            &&& head.is_prefix_of(message)
            &&& tail.is_suffix_of(message)
            &&& message.len() == head.len() + tail.len()
        }),
        ({
            let message = change_message(Change::Resolved, rule, value, threshold);
            let head = "RESOLVED rule=\""@ + rule.name + "\" metric=\""@ + rule.metric_name;
            let tail = "\" value="@ + value;
            &&& head.is_prefix_of(message)
            &&& tail.is_suffix_of(message)
            &&& message.len() == head.len() + tail.len()
        }),
{
    let triggered = change_message(Change::Triggered, rule, value, threshold);
    let head = "ALERT rule=\""@ + rule.name + "\" metric=\""@ + rule.metric_name;
    let tail = "\" value="@ + value + " threshold="@ + threshold;
    assert(triggered =~= head + tail);
    assert(triggered.take(head.len() as int) =~= head);
    assert(triggered.skip(head.len() as int) =~= tail);
    let resolved = change_message(Change::Resolved, rule, value, threshold);
    let head = "RESOLVED rule=\""@ + rule.name + "\" metric=\""@ + rule.metric_name;
    let tail = "\" value="@ + value;
    assert(resolved =~= head + tail);
    assert(resolved.take(head.len() as int) =~= head);
    assert(resolved.skip(head.len() as int) =~= tail);
}

/// A channel test is told as such, at its time, with one for the value and for the threshold,
/// and of no rule, host or application.
pub proof fn law_channel_tests_are_told_as_such(now: i64)
    ensures
        test_notification(now).event == "test"@,
        test_notification(now).rule_id == 0,
        test_notification(now).rule == "Channel test"@,
        test_notification(now).metric == "monitor.channel"@,
        test_notification(now).value.bits == 0x3ff0_0000_0000_0000,
        test_notification(now).threshold.bits == 0x3ff0_0000_0000_0000,
        test_notification(now).host_id is None,
        test_notification(now).application_id is None,
        test_notification(now).timestamp == now,
{
}

/// A line of the alert log begins with the time and ends with the message, one blank between.
pub proof fn law_log_lines_are_stamped(timestamp: Seq<char>, message: Seq<char>)
    ensures
        timestamp.is_prefix_of(stamped(timestamp, message)),
        message.is_suffix_of(stamped(timestamp, message)),
        stamped(timestamp, message)[timestamp.len() as int] == ' ',
        stamped(timestamp, message).len() == timestamp.len() + 1 + message.len(),
{
    let line = stamped(timestamp, message);
    assert(line.take(timestamp.len() as int) =~= timestamp);
    assert(line.skip(timestamp.len() as int + 1) =~= message);
}

} // verus!
