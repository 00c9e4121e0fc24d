//! The delivery of notifications: to whom, in which steps, and with what outcome.
use crate::address::{all_public, are_public, is_public, IpAddress};
use crate::alert::{
    notification_json, notification_tree, AlertNotification, Figures, NotificationView,
};
use crate::endpoint::{
    is_on_mesh, on_mesh, optional_endpoint, parse_endpoint, url_parts, Endpoint, EndpointView,
};
use crate::json::{lemma_member, object1, object2, text, under, Json, JsonView};
use crate::percent::{percent_encode_path, percent_encoded};
use crate::sql::{
    integer_or_null, optional_integer_value, statement, value_views, SqlValue, SqlView, Statement,
    StatementView,
};
use crate::text::{
    before_mark, join, joined, law_joining_splits_anywhere, law_only_trailing_marks_are_removed,
    law_text_is_cut_at_the_first_mark, optional_text, same_text, signed_decimal,
    signed_decimal_text, text_views, trim_trailing, until_mark, without_trailing,
};
use vstd::prelude::*;
use vstd::string::*;

verus! {

/// Reads the enabled recipients of the enabled channels, or of one of them.
pub const DESTINATIONS: &'static str =
    "SELECT c.id, c.name, c.kind, c.endpoint, c.token_env, r.name, r.target FROM recipients r JOIN channels c ON c.id = r.channel_id WHERE c.enabled = 1 AND r.enabled = 1 AND (?1 IS NULL OR c.id = ?1) ORDER BY c.id, r.id";

/// A recipient, and the channel on which it is reached.
pub struct Destination {
    pub channel_id: i64,
    pub channel_name: String,
    pub kind: String,
    pub endpoint: String,
    pub token_env: Option<String>,
    pub recipient: String,
    pub target: String,
}

/// The mathematical value of a [`Destination`].
pub struct DestinationView {
    pub channel_id: i64,
    pub channel_name: Seq<char>,
    pub kind: Seq<char>,
    pub endpoint: Seq<char>,
    pub token_env: Option<Seq<char>>,
    pub recipient: Seq<char>,
    pub target: Seq<char>,
}

impl View for Destination {
    type V = DestinationView;

    open spec fn view(&self) -> DestinationView {
        DestinationView {
            channel_id: self.channel_id,
            channel_name: self.channel_name@,
            kind: self.kind@,
            endpoint: self.endpoint@,
            token_env: optional_text(self.token_env),
            recipient: self.recipient@,
            target: self.target@,
        }
    }
}

/// The views of a list of destinations.
pub open spec fn destination_views(destinations: Seq<Destination>) -> Seq<DestinationView> {
    destinations.map_values(|destination: Destination| destination@)
}

/// The query for the enabled recipients of the enabled channels, or of one of them.
pub open spec fn destinations_statement(channel_id: Option<i64>) -> StatementView {
    StatementView {
        sql: DESTINATIONS@,
        values: seq![optional_integer_value(channel_id)],
    }
}

/// The query for the enabled recipients of the enabled channels, or of one of them.
pub fn destinations_query(channel_id: Option<i64>) -> (query: Statement)
    ensures
        query@ == destinations_statement(channel_id),
{
    let mut values: Vec<SqlValue> = Vec::new();
    values.push(integer_or_null(channel_id));
    assert(value_views(values@) =~= destinations_statement(channel_id).values);
    statement(DESTINATIONS, values)
}

/// Where the query for the destinations failed.
#[derive(Clone, Copy, Debug)]
pub enum LookupFailure {
    /// The query could not be prepared.
    Prepare,
    /// The query could not be run.
    Run,
    /// A row could not be read.
    Read,
}

/// The destinations to deliver to, or why there is no delivery.
pub open spec fn delivery_plan(
    channel_id: Option<i64>,
    found: Result<Seq<DestinationView>, LookupFailure>,
) -> Result<Seq<DestinationView>, Seq<char>> {
    match found {
        Err(LookupFailure::Prepare) => Err("failed to query channels"@),
        Err(LookupFailure::Run) => Err("failed to query recipients"@),
        Err(LookupFailure::Read) => Err("failed to read recipients"@),
        Ok(destinations) => if channel_id is Some && destinations.len() == 0 {
            Err("channel has no enabled recipients"@)
        } else {
            Ok(destinations)
        },
    }
}

/// The view of the outcome of the query for the destinations.
pub open spec fn found_view(found: Result<Vec<Destination>, LookupFailure>) -> Result<
    Seq<DestinationView>,
    LookupFailure,
> {
    match found {
        Ok(destinations) => Ok(destination_views(destinations@)),
        Err(failure) => Err(failure),
    }
}

/// The view of a list of destinations or of a message.
pub open spec fn plan_view(plan: Result<Vec<Destination>, &'static str>) -> Result<
    Seq<DestinationView>,
    Seq<char>,
> {
    match plan {
        Ok(destinations) => Ok(destination_views(destinations@)),
        Err(message) => Err(message@),
    }
}

/// Prepares a delivery to the destinations that were found. A delivery to one channel needs at
/// least one of them.
pub fn deliver(channel_id: Option<i64>, found: Result<Vec<Destination>, LookupFailure>) -> (plan:
    Result<Vec<Destination>, &'static str>)
    ensures
        plan_view(plan) == delivery_plan(channel_id, found_view(found)),
{
    match found {
        Err(LookupFailure::Prepare) => Err("failed to query channels"),
        Err(LookupFailure::Run) => Err("failed to query recipients"),
        Err(LookupFailure::Read) => Err("failed to read recipients"),
        Ok(destinations) => {
            if channel_id.is_some() && destinations.len() == 0 {
                return Err("channel has no enabled recipients");
            }
            Ok(destinations)
        },
    }
}

/// A delivery under way: the destinations before `next` have been tried.
pub struct Delivery {
    pub destinations: Vec<Destination>,
    pub next: usize,
    pub sent: usize,
    pub failures: Vec<String>,
}

/// The mathematical value of a [`Delivery`].
#[verifier::ext_equal]
pub struct DeliveryView {
    pub destinations: Seq<DestinationView>,
    pub next: int,
    pub sent: int,
    pub failures: Seq<Seq<char>>,
}

impl View for Delivery {
    type V = DeliveryView;

    open spec fn view(&self) -> DeliveryView {
        DeliveryView {
            destinations: destination_views(self.destinations@),
            next: self.next as int,
            sent: self.sent as int,
            failures: text_views(self.failures@),
        }
    }
}

/// What is said of a delivery that failed.
pub open spec fn failure_text(destination: DestinationView, message: Seq<char>) -> Seq<char> {
    "channel "@ + signed_decimal(destination.channel_id as int) + " ("@ + destination.channel_name
        + ") recipient "@ + destination.recipient + ": "@ + message
}

fn failure(destination: &Destination, message: &str) -> (result: String)
    ensures
        result@ == failure_text(destination@, message@),
{
    let mut result = "channel ".to_owned();
    result.append(signed_decimal_text(destination.channel_id).as_str());
    result.append(" (");
    result.append(destination.channel_name.as_str());
    result.append(") recipient ");
    result.append(destination.recipient.as_str());
    result.append(": ");
    result.append(message);
    result
}

/// The view of the outcome of one delivery.
pub open spec fn outcome_view(outcome: Result<(), String>) -> Result<(), Seq<char>> {
    match outcome {
        Ok(_) => Ok(()),
        Err(message) => Err(message@),
    }
}

impl DeliveryView {
    /// A delivery before the first destination is tried.
    pub open spec fn begun(destinations: Seq<DestinationView>) -> DeliveryView {
        DeliveryView { destinations, next: 0, sent: 0, failures: seq![] }
    }

    /// Each destination that was tried is counted as sent or as failed.
    pub open spec fn valid(self) -> bool {
        0 <= self.sent && self.sent + self.failures.len() == self.next && self.next
            <= self.destinations.len()
    }

    /// Some destination is still to be tried.
    pub open spec fn ongoing(self) -> bool {
        self.next < self.destinations.len()
    }

    /// The delivery once the outcome at its next destination is known.
    pub open spec fn with_outcome(self, outcome: Result<(), Seq<char>>) -> DeliveryView {
        match outcome {
            Ok(_) => DeliveryView { next: self.next + 1, sent: self.sent + 1, ..self },
            Err(message) => DeliveryView {
                next: self.next + 1,
                failures: self.failures.push(
                    failure_text(self.destinations[self.next], message),
                ),
                ..self
            },
        }
    }

    /// The number of notifications sent, or what is said of those that failed.
    pub open spec fn result(self) -> Result<int, Seq<char>> {
        if self.failures.len() == 0 {
            Ok(self.sent)
        } else {
            Err(joined(self.failures, "; "@))
        }
    }
}

/// The view of a delivery that may begin, or of the message where it may not.
pub open spec fn begun_view(begun: Result<Delivery, &'static str>) -> Result<
    DeliveryView,
    Seq<char>,
> {
    match begun {
        Ok(delivery) => Ok(delivery@),
        Err(message) => Err(message@),
    }
}

/// The view of the result of a delivery.
pub open spec fn result_view(result: Result<usize, String>) -> Result<int, Seq<char>> {
    match result {
        Ok(sent) => Ok(sent as int),
        Err(message) => Err(message@),
    }
}

/// A delivery that may begin, where the HTTP client could be built.
pub open spec fn beginning(destinations: Seq<DestinationView>, client_built: bool) -> Result<
    DeliveryView,
    Seq<char>,
> {
    if client_built {
        Ok(DeliveryView::begun(destinations))
    } else {
        Err("failed to create alert HTTP client"@)
    }
}

impl Delivery {
    /// Begins a delivery, once it is known whether the HTTP client could be built.
    pub fn begin(destinations: Vec<Destination>, client_built: bool) -> (begun: Result<
        Delivery,
        &'static str,
    >)
        ensures
            begun_view(begun) == if client_built {
                Ok(DeliveryView::begun(destination_views(destinations@)))
            } else {
                Err("failed to create alert HTTP client"@)
            },
            begun_view(begun) == beginning(destination_views(destinations@), client_built),
    {
        if !client_built {
            return Err("failed to create alert HTTP client");
        }
        let failures: Vec<String> = Vec::new();
        assert(text_views(failures@) =~= seq![]);
        Ok(Delivery { destinations, next: 0, sent: 0, failures })
    }

    /// The destination to try next, if there is one.
    pub fn current(&self) -> (destination: Option<&Destination>)
        ensures
            destination is Some <==> self@.ongoing(),
            destination is Some ==> destination->0@ == self@.destinations[self@.next],
    {
        if self.next < self.destinations.len() {
            Some(&self.destinations[self.next])
        } else {
            None
        }
    }

    /// Takes the outcome at the next destination.
    pub fn record(&mut self, outcome: &Result<(), String>)
        requires
            old(self)@.valid(),
            old(self)@.ongoing(),
        ensures
            final(self)@ == old(self)@.with_outcome(outcome_view(*outcome)),
            final(self)@.valid(),
    {
        let ghost before = self@;
        let ghost told = self.failures@;
        assert(self.next < self.destinations.len());
        match outcome {
            Ok(_) => {
                self.sent = self.sent + 1;
            },
            Err(message) => {
                let line = failure(&self.destinations[self.next], message.as_str());
                self.failures.push(line);
                assert(text_views(self.failures@) =~= text_views(told).push(line@));
            },
        }
        self.next = self.next + 1;
        assert(self@ =~= before.with_outcome(outcome_view(*outcome)));
    }

    /// The number of notifications sent, or what is said of those that failed.
    pub fn finish(&self) -> (result: Result<usize, String>)
        ensures
            result_view(result) == self@.result(),
    {
        if self.failures.len() == 0 {
            Ok(self.sent)
        } else {
            Err(join(&self.failures, "; "))
        }
    }
}

/// What a request is for.
#[derive(Clone, Copy, Debug, PartialEq, Eq, Structural)]
pub enum Purpose {
    Webhook,
    Login,
    Command,
}

/// An HTTP request to post.
#[derive(Debug, PartialEq)]
pub struct PostRequest {
    pub purpose: Purpose,
    pub url: String,
    /// The bearer token to authorize with.
    pub bearer: Option<String>,
    pub cookie: Option<String>,
    pub body: Json,
}

/// The mathematical value of a [`PostRequest`].
#[verifier::ext_equal]
pub struct PostRequestView {
    pub purpose: Purpose,
    pub url: Seq<char>,
    pub bearer: Option<Seq<char>>,
    pub cookie: Option<Seq<char>>,
    pub body: JsonView,
}

impl View for PostRequest {
    type V = PostRequestView;

    open spec fn view(&self) -> PostRequestView {
        PostRequestView {
            purpose: self.purpose,
            url: self.url@,
            bearer: optional_text(self.bearer),
            cookie: optional_text(self.cookie),
            body: self.body@,
        }
    }
}

/// The reply to a request: its status code, the status as it is shown, and the text of its
/// `Set-Cookie` header, if it has one.
pub struct PostReply {
    pub code: u16,
    pub status: String,
    pub cookie: Option<String>,
}

/// The mathematical value of a [`PostReply`].
pub struct PostReplyView {
    pub code: u16,
    pub status: Seq<char>,
    pub cookie: Option<Seq<char>>,
}

impl View for PostReply {
    type V = PostReplyView;

    open spec fn view(&self) -> PostReplyView {
        PostReplyView {
            code: self.code,
            status: self.status@,
            cookie: optional_text(self.cookie),
        }
    }
}

/// The view of a reply, or of the message where there is none.
pub open spec fn answer_view(answer: Result<PostReply, String>) -> Result<
    PostReplyView,
    Seq<char>,
> {
    match answer {
        Ok(reply) => Ok(reply@),
        Err(message) => Err(message@),
    }
}

/// The next step of the delivery to one destination.
#[derive(Debug, PartialEq)]
pub enum Step {
    /// Look up the addresses of a host.
    Resolve { host: String, port: u16 },
    /// Build the HTTP client that talks to those addresses alone.
    Connect,
    /// Read the environment variable of this name.
    ReadVariable(String),
    /// Post a request.
    Post(PostRequest),
    /// The delivery has come to this outcome.
    Finish(Result<(), String>),
}

/// The mathematical value of a [`Step`].
#[verifier::ext_equal]
pub enum StepView {
    Resolve { host: Seq<char>, port: u16 },
    Connect,
    ReadVariable(Seq<char>),
    Post(PostRequestView),
    Finish(Result<(), Seq<char>>),
}

impl View for Step {
    type V = StepView;

    open spec fn view(&self) -> StepView {
        match self {
            Step::Resolve { host, port } => StepView::Resolve { host: host@, port: *port },
            Step::Connect => StepView::Connect,
            Step::ReadVariable(name) => StepView::ReadVariable(name@),
            Step::Post(request) => StepView::Post(request@),
            Step::Finish(outcome) => StepView::Finish(outcome_view(*outcome)),
        }
    }
}

/// The delivery fails with this message.
pub open spec fn failed(message: Seq<char>) -> StepView {
    StepView::Finish(Err(message))
}

fn fail(message: &str) -> (step: Step)
    ensures
        step@ == failed(message@),
{
    Step::Finish(Err(message.to_owned()))
}

/// The first step to a webhook, by the parts of its URL: its host is looked up.
pub open spec fn webhook_start(url: Option<EndpointView>) -> StepView {
    match url {
        None => failed("webhook endpoint is invalid"@),
        Some(url) => if url.host is None {
            failed("webhook endpoint has no host"@)
        } else if url.port is None {
            failed("webhook endpoint has no port"@)
        } else {
            StepView::Resolve { host: url.host->0, port: url.port->0 }
        },
    }
}

/// The first step to a webhook, by the parts of its URL.
pub fn start_webhook(url: Option<Endpoint>) -> (step: Step)
    ensures
        step@ == webhook_start(optional_endpoint(url)),
{
    match url {
        None => fail("webhook endpoint is invalid"),
        Some(url) => match url.host {
            None => fail("webhook endpoint has no host"),
            Some(host) => match url.port {
                None => fail("webhook endpoint has no port"),
                Some(port) => Step::Resolve { host, port },
            },
        },
    }
}

/// The first step to the webhook at this URL.
pub fn webhook_client(endpoint: &str) -> (step: Step)
    ensures
        step@ == webhook_start(url_parts(endpoint@)),
{
    start_webhook(parse_endpoint(endpoint))
}

/// The first step to a pi-bun session, by the parts of the URL: the channel's token is read.
/// The URL has to be on the mesh.
pub open spec fn pi_bun_start(url: Option<EndpointView>, token_env: Option<Seq<char>>) -> StepView {
    match url {
        None => failed("pi-bun endpoint is invalid"@),
        Some(url) => if !on_mesh(url) {
            failed("pi-bun endpoint is outside the Titan mesh"@)
        } else {
            match token_env {
                None => failed("pi-bun channel requires token_env"@),
                Some(name) => StepView::ReadVariable(name),
            }
        },
    }
}

/// The first step to a pi-bun session, by the parts of the URL.
pub fn start_pi_bun(url: &Option<Endpoint>, token_env: &Option<String>) -> (step: Step)
    ensures
        step@ == pi_bun_start(optional_endpoint(*url), optional_text(*token_env)),
{
    match url {
        None => fail("pi-bun endpoint is invalid"),
        Some(url) => {
            if !is_on_mesh(url) {
                return fail("pi-bun endpoint is outside the Titan mesh");
            }
            match token_env {
                None => fail("pi-bun channel requires token_env"),
                Some(name) => Step::ReadVariable(name.clone()),
            }
        },
    }
}

/// The first step to the pi-bun session of a destination.
pub fn deliver_pi_bun(destination: &Destination) -> (step: Step)
    ensures
        step@ == pi_bun_start(url_parts(destination@.endpoint), destination@.token_env),
{
    let url = parse_endpoint(destination.endpoint.as_str());
    start_pi_bun(&url, &destination.token_env)
}

/// The first step to a destination, by the kind of its channel.
pub open spec fn first_step(destination: DestinationView) -> StepView {
    if destination.kind == "webhook"@ {
        webhook_start(url_parts(destination.endpoint))
    } else if destination.kind == "pi-bun"@ {
        pi_bun_start(url_parts(destination.endpoint), destination.token_env)
    } else {
        failed("unsupported channel kind"@)
    }
}

/// The first step to a destination.
pub fn deliver_one(destination: &Destination) -> (step: Step)
    ensures
        step@ == first_step(destination@),
{
    if same_text(destination.kind.as_str(), "webhook") {
        webhook_client(destination.endpoint.as_str())
    } else if same_text(destination.kind.as_str(), "pi-bun") {
        deliver_pi_bun(destination)
    } else {
        fail("unsupported channel kind")
    }
}

/// The step once the addresses of a webhook's host are known: all of them have to be public.
pub open spec fn resolved_step(addresses: Option<Seq<IpAddress>>) -> StepView {
    match addresses {
        None => failed("webhook endpoint could not be resolved"@),
        Some(addresses) => if all_public(addresses) {
            StepView::Connect
        } else {
            failed("webhook endpoint resolves to a non-public address"@)
        },
    }
}

/// The view of optional addresses.
pub open spec fn optional_addresses(addresses: Option<Vec<IpAddress>>) -> Option<Seq<IpAddress>> {
    match addresses {
        Some(addresses) => Some(addresses@),
        None => None,
    }
}

/// The step once the addresses of a webhook's host are known; none where they could not be
/// looked up.
pub fn resolved(addresses: &Option<Vec<IpAddress>>) -> (step: Step)
    ensures
        step@ == resolved_step(optional_addresses(*addresses)),
{
    match addresses {
        None => fail("webhook endpoint could not be resolved"),
        Some(addresses) => {
            if are_public(addresses) {
                Step::Connect
            } else {
                fail("webhook endpoint resolves to a non-public address")
            }
        },
    }
}

/// The request that tells a webhook of an alert.
pub open spec fn webhook_request(
    notification: NotificationView,
    destination: DestinationView,
    token: Option<Seq<char>>,
) -> PostRequestView {
    PostRequestView {
        purpose: Purpose::Webhook,
        url: destination.endpoint,
        bearer: token,
        cookie: None,
        body: JsonView::Object(
            seq![
                (
                    "recipient"@,
                    JsonView::Object(
                        seq![
                            ("name"@, JsonView::Text(destination.recipient)),
                            ("target"@, JsonView::Text(destination.target)),
                        ],
                    ),
                ),
                ("alert"@, notification_tree(notification)),
            ],
        ),
    }
}

fn post_webhook(
    notification: &AlertNotification,
    destination: &Destination,
    token: Option<String>,
) -> (step: Step)
    ensures
        step@ == StepView::Post(
            webhook_request(notification@, destination@, optional_text(token)),
        ),
{
    let recipient = object2(
        "name",
        text(destination.recipient.as_str()),
        "target",
        text(destination.target.as_str()),
    );
    let body = object2("recipient", recipient, "alert", notification_json(notification));
    Step::Post(
        PostRequest {
            purpose: Purpose::Webhook,
            url: destination.endpoint.clone(),
            bearer: token,
            cookie: None,
            body,
        },
    )
}

/// The step once it is known whether the client for a webhook could be built.
pub open spec fn connected_step(
    notification: NotificationView,
    destination: DestinationView,
    client_built: bool,
) -> StepView {
    if !client_built {
        failed("failed to create webhook HTTP client"@)
    } else {
        match destination.token_env {
            Some(name) => StepView::ReadVariable(name),
            None => StepView::Post(webhook_request(notification, destination, None)),
        }
    }
}

/// The step once it is known whether the client for a webhook could be built.
pub fn connected(
    notification: &AlertNotification,
    destination: &Destination,
    client_built: bool,
) -> (step: Step)
    ensures
        step@ == connected_step(notification@, destination@, client_built),
{
    if !client_built {
        return fail("failed to create webhook HTTP client");
    }
    match &destination.token_env {
        Some(name) => Step::ReadVariable(name.clone()),
        None => post_webhook(notification, destination, None),
    }
}

/// The URL of a pi-bun server, without the slashes that it ends with.
pub open spec fn pi_bun_base(destination: DestinationView) -> Seq<char> {
    without_trailing(destination.endpoint, '/')
}

/// The request that opens a session with a pi-bun server.
pub open spec fn login_request(destination: DestinationView, token: Seq<char>) -> PostRequestView {
    PostRequestView {
        purpose: Purpose::Login,
        url: pi_bun_base(destination) + "/api/login"@,
        bearer: None,
        cookie: None,
        body: JsonView::Object(seq![("token"@, JsonView::Text(token))]),
    }
}

fn post_login(destination: &Destination, token: &str) -> (step: Step)
    ensures
        step@ == StepView::Post(login_request(destination@, token@)),
{
    let mut url = trim_trailing(destination.endpoint.as_str(), '/');
    url.append("/api/login");
    Step::Post(
        PostRequest {
            purpose: Purpose::Login,
            url,
            bearer: None,
            cookie: None,
            body: object1("token", text(token)),
        },
    )
}

/// The step once the channel's token was read.
pub open spec fn token_step(
    notification: NotificationView,
    destination: DestinationView,
    token: Option<Seq<char>>,
) -> StepView {
    match token {
        None => failed("channel token is unavailable"@),
        Some(token) => if destination.kind == "webhook"@ {
            StepView::Post(webhook_request(notification, destination, Some(token)))
        } else if destination.kind == "pi-bun"@ {
            StepView::Post(login_request(destination, token))
        } else {
            failed("unsupported channel kind"@)
        },
    }
}

/// The step once the channel's token was read; none where the variable could not be read.
pub fn channel_token(
    notification: &AlertNotification,
    destination: &Destination,
    token: Option<String>,
) -> (step: Step)
    ensures
        step@ == token_step(notification@, destination@, optional_text(token)),
{
    match token {
        None => fail("channel token is unavailable"),
        Some(token) => {
            if same_text(destination.kind.as_str(), "webhook") {
                post_webhook(notification, destination, Some(token))
            } else if same_text(destination.kind.as_str(), "pi-bun") {
                post_login(destination, token.as_str())
            } else {
                fail("unsupported channel kind")
            }
        },
    }
}

/// What a pi-bun session is told of an alert, with the figures written out.
pub open spec fn prompt(
    notification: NotificationView,
    value: Seq<char>,
    threshold: Seq<char>,
) -> Seq<char> {
    "AkurAI Monitor "@ + notification.event + " alert: "@ + notification.rule + " ("@
        + notification.metric + " = "@ + value + ", threshold "@ + threshold
        + "). Investigate with akurai-monitorctl."@
}

/// The request that prompts a pi-bun session. The target is one segment of the path, and the
/// cookie is what stands before its first attribute.
pub open spec fn command_request(
    notification: NotificationView,
    destination: DestinationView,
    value: Seq<char>,
    threshold: Seq<char>,
    cookie: Seq<char>,
) -> PostRequestView {
    PostRequestView {
        purpose: Purpose::Command,
        url: pi_bun_base(destination) + "/api/sessions/"@ + percent_encoded(destination.target)
            + "/command"@,
        bearer: None,
        cookie: Some(before_mark(cookie, ';')),
        body: JsonView::Object(
            seq![
                (
                    "command"@,
                    JsonView::Object(
                        seq![
                            ("type"@, JsonView::Text("prompt"@)),
                            ("message"@, JsonView::Text(prompt(notification, value, threshold))),
                        ],
                    ),
                ),
            ],
        ),
    }
}

fn post_command(
    notification: &AlertNotification,
    destination: &Destination,
    figures: &Figures,
    cookie: &str,
) -> (step: Step)
    ensures
        step@ == StepView::Post(
            command_request(
                notification@,
                destination@,
                figures.value@,
                figures.threshold@,
                cookie@,
            ),
        ),
{
    let mut url = trim_trailing(destination.endpoint.as_str(), '/');
    url.append("/api/sessions/");
    url.append(percent_encode_path(destination.target.as_str()).as_str());
    url.append("/command");
    let mut message = "AkurAI Monitor ".to_owned();
    message.append(notification.event);
    message.append(" alert: ");
    message.append(notification.rule.as_str());
    message.append(" (");
    message.append(notification.metric.as_str());
    message.append(" = ");
    message.append(figures.value.as_str());
    message.append(", threshold ");
    message.append(figures.threshold.as_str());
    message.append("). Investigate with akurai-monitorctl.");
    let command = object2("type", text("prompt"), "message", text(message.as_str()));
    Step::Post(
        PostRequest {
            purpose: Purpose::Command,
            url,
            bearer: None,
            cookie: Some(until_mark(cookie, ';')),
            body: object1("command", command),
        },
    )
}

/// A status code that says that the request succeeded.
pub open spec fn success(code: u16) -> bool {
    200 <= code < 300
}

/// What is said of a reply that does not say so.
pub open spec fn refused(purpose: Purpose, status: Seq<char>) -> Seq<char> {
    match purpose {
        Purpose::Webhook => "webhook returned HTTP "@ + status,
        Purpose::Login => "pi-bun login returned HTTP "@ + status,
        Purpose::Command => "pi-bun command returned HTTP "@ + status,
    }
}

/// The step once a request was answered. A login is followed by the command that it was for;
/// any other request that succeeds ends the delivery.
pub open spec fn answered_step(
    notification: NotificationView,
    destination: DestinationView,
    value: Seq<char>,
    threshold: Seq<char>,
    purpose: Purpose,
    answer: Result<PostReplyView, Seq<char>>,
) -> StepView {
    match answer {
        Err(message) => failed(message),
        Ok(reply) => if !success(reply.code) {
            failed(refused(purpose, reply.status))
        } else if purpose == Purpose::Login {
            match reply.cookie {
                None => failed("pi-bun login returned no session cookie"@),
                Some(cookie) => StepView::Post(
                    command_request(notification, destination, value, threshold, cookie),
                ),
            }
        } else {
            StepView::Finish(Ok(()))
        },
    }
}

/// The step once a request was answered, with the figures as a prompt writes them; a message
/// in place of a reply where the request could not be sent.
pub fn answered(
    notification: &AlertNotification,
    destination: &Destination,
    figures: &Figures,
    purpose: Purpose,
    answer: Result<PostReply, String>,
) -> (step: Step)
    ensures
        step@ == answered_step(
            notification@,
            destination@,
            figures.value@,
            figures.threshold@,
            purpose,
            answer_view(answer),
        ),
        purpose == Purpose::Login && (answer matches Ok(reply) && 200 <= reply.code <= 299
            && reply.cookie is Some) ==> step@ is Post && under(
            under(step@->Post_0.body, "command"@)->0,
            "message"@,
        ) == Some(
            JsonView::Text(
                "AkurAI Monitor "@ + notification.event@ + " alert: "@ + notification.rule@ + " ("@
                    + notification.metric@ + " = "@ + figures.value@ + ", threshold "@
                    + figures.threshold@ + "). Investigate with akurai-monitorctl."@,
            ),
        ),
{
    proof {
        if answer_view(answer) is Ok {
            let reply = answer_view(answer)->Ok_0;
            if 200 <= reply.code <= 299 && reply.cookie is Some {
                let telling = Telling {
                    notification: notification@,
                    value: figures.value@,
                    threshold: figures.threshold@,
                };
                law_logins_are_followed_by_the_prompt(telling, destination@, reply);
            }
        }
    }
    match answer {
        Err(message) => Step::Finish(Err(message)),
        Ok(reply) => {
            if reply.code < 200 || reply.code >= 300 {
                let mut message = match purpose {
                    Purpose::Webhook => "webhook returned HTTP ".to_owned(),
                    Purpose::Login => "pi-bun login returned HTTP ".to_owned(),
                    Purpose::Command => "pi-bun command returned HTTP ".to_owned(),
                };
                message.append(reply.status.as_str());
                return Step::Finish(Err(message));
            }
            if purpose == Purpose::Login {
                match reply.cookie {
                    None => fail("pi-bun login returned no session cookie"),
                    Some(cookie) => post_command(
                        notification,
                        destination,
                        figures,
                        cookie.as_str(),
                    ),
                }
            } else {
                Step::Finish(Ok(()))
            }
        },
    }
}

/// What the steps of a delivery meet with: the addresses of the host, whether the client can
/// be built, the environment variables, and the replies to requests.
pub struct World {
    pub addresses: Option<Seq<IpAddress>>,
    pub client_built: bool,
    pub variable: spec_fn(Seq<char>) -> Option<Seq<char>>,
    pub answer: spec_fn(PostRequestView) -> Result<PostReplyView, Seq<char>>,
}

/// What is delivered, and how its figures are written.
pub struct Telling {
    pub notification: NotificationView,
    pub value: Seq<char>,
    pub threshold: Seq<char>,
}

/// The step that follows a step.
pub open spec fn next_step(
    telling: Telling,
    destination: DestinationView,
    world: World,
    step: StepView,
) -> StepView {
    match step {
        StepView::Resolve { .. } => resolved_step(world.addresses),
        StepView::Connect => connected_step(
            telling.notification,
            destination,
            world.client_built,
        ),
        StepView::ReadVariable(name) => token_step(
            telling.notification,
            destination,
            (world.variable)(name),
        ),
        StepView::Post(request) => answered_step(
            telling.notification,
            destination,
            telling.value,
            telling.threshold,
            request.purpose,
            (world.answer)(request),
        ),
        StepView::Finish(outcome) => StepView::Finish(outcome),
    }
}

/// The step that a delivery has come to after `n` steps.
pub open spec fn step_after(
    telling: Telling,
    destination: DestinationView,
    world: World,
    n: nat,
) -> StepView
    decreases n,
{
    if n == 0 {
        first_step(destination)
    } else {
        next_step(
            telling,
            destination,
            world,
            step_after(telling, destination, world, (n - 1) as nat),
        )
    }
}

/// The request is answered, and the reply says that it succeeded.
pub open spec fn accepted(world: World, request: PostRequestView) -> bool {
    (world.answer)(request) is Ok && success((world.answer)(request)->Ok_0.code)
}

/// The token that is sent along: none where the channel names no variable.
pub open spec fn bearer(destination: DestinationView, world: World) -> Option<Seq<char>> {
    match destination.token_env {
        Some(name) => (world.variable)(name),
        None => None,
    }
}

/// A webhook is told: its URL has a host and a port, there are addresses and all are public,
/// the client and the token are there, and the request is accepted.
pub open spec fn webhook_told(
    telling: Telling,
    destination: DestinationView,
    world: World,
) -> bool {
    let url = url_parts(destination.endpoint);
    &&& url is Some && url->0.host is Some && url->0.port is Some
    &&& world.addresses is Some && all_public(world.addresses->0)
    &&& world.client_built
    &&& destination.token_env is Some ==> bearer(destination, world) is Some
    &&& accepted(
        world,
        webhook_request(telling.notification, destination, bearer(destination, world)),
    )
}

/// A pi-bun session is told: its URL is on the mesh, the token is there, the login is accepted
/// with a cookie, and the command is accepted.
pub open spec fn pi_bun_told(telling: Telling, destination: DestinationView, world: World) -> bool {
    let url = url_parts(destination.endpoint);
    let token = bearer(destination, world);
    let login = login_request(destination, token->0);
    let cookie = (world.answer)(login)->Ok_0.cookie;
    &&& url is Some && on_mesh(url->0)
    &&& token is Some
    &&& accepted(world, login)
    &&& cookie is Some
    &&& accepted(
        world,
        command_request(
            telling.notification,
            destination,
            telling.value,
            telling.threshold,
            cookie->0,
        ),
    )
}

/// Every delivery ends within four steps. It succeeds exactly when everything that it needs
/// was there and each of its requests was accepted: whatever is missing or fails on the way
/// makes it fail.
pub proof fn law_deliveries_fail_closed(
    telling: Telling,
    destination: DestinationView,
    world: World,
)
    ensures
        step_after(telling, destination, world, 4) is Finish,
        step_after(telling, destination, world, 4) == StepView::Finish(Ok(())) <==> {
            ||| destination.kind == "webhook"@ && webhook_told(telling, destination, world)
            ||| destination.kind == "pi-bun"@ && pi_bun_told(telling, destination, world)
        },
{
    reveal_with_fuel(step_after, 5);
    reveal_strlit("webhook");
    reveal_strlit("pi-bun");
    assert("webhook"@.len() != "pi-bun"@.len());
    assert(!("webhook"@ == "pi-bun"@));
}

/// The request that a step posts keeps to the rules of its channel: a webhook is called at its
/// own URL, once all addresses of its host are known to be public; a pi-bun server is called
/// at a URL that begins with its own, which is on the mesh.
pub open spec fn confined(
    destination: DestinationView,
    world: World,
    request: PostRequestView,
) -> bool {
    ||| {
        &&& destination.kind == "webhook"@
        &&& request.purpose == Purpose::Webhook
        &&& request.url == destination.endpoint
        &&& world.addresses is Some && all_public(world.addresses->0)
    }
    ||| {
        &&& destination.kind == "pi-bun"@
        &&& request.purpose != Purpose::Webhook
        &&& pi_bun_base(destination).is_prefix_of(request.url)
        &&& url_parts(destination.endpoint) is Some
        &&& on_mesh(url_parts(destination.endpoint)->0)
    }
}

proof fn lemma_login_url(destination: DestinationView, token: Seq<char>)
    ensures
        pi_bun_base(destination).is_prefix_of(login_request(destination, token).url),
{
    let base = pi_bun_base(destination);
    assert(login_request(destination, token).url.take(base.len() as int) =~= base);
}

proof fn lemma_command_url(
    telling: Telling,
    destination: DestinationView,
    cookie: Seq<char>,
)
    ensures
        pi_bun_base(destination).is_prefix_of(
            command_request(
                telling.notification,
                destination,
                telling.value,
                telling.threshold,
                cookie,
            ).url,
        ),
{
    let base = pi_bun_base(destination);
    let url = command_request(
        telling.notification,
        destination,
        telling.value,
        telling.threshold,
        cookie,
    ).url;
    assert(url.take(base.len() as int) =~= base);
}

/// Whatever the steps meet with, no request leaves for anywhere that the rules of the channel
/// forbid.
pub proof fn law_requests_are_confined(
    telling: Telling,
    destination: DestinationView,
    world: World,
    n: nat,
)
    ensures
        step_after(telling, destination, world, n) matches StepView::Post(request) ==> confined(
            destination,
            world,
            request,
        ),
{
    reveal_strlit("webhook");
    reveal_strlit("pi-bun");
    assert("webhook"@.len() != "pi-bun"@.len());
    assert(!("webhook"@ == "pi-bun"@));
    reveal_with_fuel(step_after, 5);
    assert forall|token: Seq<char>|
        pi_bun_base(destination).is_prefix_of(#[trigger] login_request(destination, token).url) by {
        lemma_login_url(destination, token);
    }
    assert forall|cookie: Seq<char>|
        pi_bun_base(destination).is_prefix_of(
            (#[trigger] command_request(
                telling.notification,
                destination,
                telling.value,
                telling.threshold,
                cookie,
            )).url,
        ) by {
        lemma_command_url(telling, destination, cookie);
    }
    law_deliveries_fail_closed(telling, destination, world);
    if n > 4 {
        lemma_finished(telling, destination, world, n);
    } else if n == 4 {
    } else if n == 3 {
    } else if n == 2 {
    } else if n == 1 {
    }
}

proof fn lemma_finished(telling: Telling, destination: DestinationView, world: World, n: nat)
    requires
        n >= 4,
    ensures
        step_after(telling, destination, world, n) is Finish,
    decreases n,
{
    law_deliveries_fail_closed(telling, destination, world);
    if n > 4 {
        lemma_finished(telling, destination, world, (n - 1) as nat);
    }
}

/// The delivery once the outcomes at the first destinations are known, in order.
pub open spec fn after_outcomes(
    destinations: Seq<DestinationView>,
    outcomes: Seq<Result<(), Seq<char>>>,
) -> DeliveryView
    decreases outcomes.len(),
{
    if outcomes.len() == 0 {
        DeliveryView::begun(destinations)
    } else {
        after_outcomes(destinations, outcomes.drop_last()).with_outcome(outcomes.last())
    }
}

/// A delivery whose destinations have all been tried succeeds exactly when each of them was
/// told, and then the number of notifications sent is that of the destinations.
pub proof fn law_success_means_that_all_were_told(
    destinations: Seq<DestinationView>,
    outcomes: Seq<Result<(), Seq<char>>>,
)
    requires
        outcomes.len() <= destinations.len(),
    ensures
        after_outcomes(destinations, outcomes).valid(),
        after_outcomes(destinations, outcomes).destinations == destinations,
        after_outcomes(destinations, outcomes).next == outcomes.len(),
        after_outcomes(destinations, outcomes).result() is Ok <==> forall|i: int|
            0 <= i < outcomes.len() ==> (#[trigger] outcomes[i]) is Ok,
        after_outcomes(destinations, outcomes).result() is Ok ==> after_outcomes(
            destinations,
            outcomes,
        ).result() == Ok::<int, Seq<char>>(outcomes.len() as int),
    decreases outcomes.len(),
{
    if outcomes.len() > 0 {
        let before = outcomes.drop_last();
        law_success_means_that_all_were_told(destinations, before);
        assert(forall|i: int| 0 <= i < before.len() ==> before[i] == outcomes[i]);
        if forall|i: int| 0 <= i < outcomes.len() ==> (#[trigger] outcomes[i]) is Ok {
            assert forall|i: int| 0 <= i < before.len() implies (#[trigger] before[i]) is Ok by {
                assert(outcomes[i] is Ok);
            }
        }
        if after_outcomes(destinations, outcomes).result() is Ok {
            assert(outcomes.last() is Ok);
            assert forall|i: int| 0 <= i < outcomes.len() implies (#[trigger] outcomes[i]) is Ok by {
                if i < before.len() {
                    assert(before[i] is Ok);
                }
            }
        }
    }
}

/// A test of a channel that succeeds has sent at least one notification: a channel without
/// enabled recipients fails the test.
pub proof fn law_tested_channels_have_sent(
    channel_id: i64,
    found: Result<Seq<DestinationView>, LookupFailure>,
    outcomes: Seq<Result<(), Seq<char>>>,
)
    requires
        delivery_plan(Some(channel_id), found) is Ok,
        outcomes.len() == delivery_plan(Some(channel_id), found)->Ok_0.len(),
    ensures
        ({
            let destinations = delivery_plan(Some(channel_id), found)->Ok_0;
            let result = after_outcomes(destinations, outcomes).result();
            result is Ok ==> result->Ok_0 > 0
        }),
{
    law_success_means_that_all_were_told(
        delivery_plan(Some(channel_id), found)->Ok_0,
        outcomes,
    );
}

/// The destinations are asked for by the channel, where one is tested, and else for all channels.
pub proof fn law_destinations_are_asked_for_by_channel(channel_id: i64)
    ensures
        destinations_statement(Some(channel_id)).values == seq![SqlView::Integer(channel_id)],
        destinations_statement(None).values == seq![SqlView::Null],
        destinations_statement(Some(channel_id)).sql == destinations_statement(None).sql,
        destinations_statement(None).sql
            == "SELECT c.id, c.name, c.kind, c.endpoint, c.token_env, r.name, r.target FROM recipients r JOIN channels c ON c.id = r.channel_id WHERE c.enabled = 1 AND r.enabled = 1 AND (?1 IS NULL OR c.id = ?1) ORDER BY c.id, r.id"@,
{
}

/// What was found is delivered to, all of it and in its order. Nothing is delivered where the
/// lookup failed, by the point at which it did, or where a tested channel has no recipient.
pub proof fn law_all_that_was_found_is_delivered_to(
    channel_id: Option<i64>,
    found: Seq<DestinationView>,
)
    ensures
        found.len() > 0 || channel_id is None ==> delivery_plan(channel_id, Ok(found)) == Ok::<
            Seq<DestinationView>,
            Seq<char>,
        >(found),
        found.len() == 0 && channel_id is Some ==> delivery_plan(channel_id, Ok(found)) == Err::<
            Seq<DestinationView>,
            Seq<char>,
        >("channel has no enabled recipients"@),
        delivery_plan(channel_id, Err(LookupFailure::Prepare)) == Err::<
            Seq<DestinationView>,
            Seq<char>,
        >("failed to query channels"@),
        delivery_plan(channel_id, Err(LookupFailure::Run)) == Err::<
            Seq<DestinationView>,
            Seq<char>,
        >("failed to query recipients"@),
        delivery_plan(channel_id, Err(LookupFailure::Read)) == Err::<
            Seq<DestinationView>,
            Seq<char>,
        >("failed to read recipients"@),
{
}

/// A failure is reported with the channel's number and name and the recipient, before the
/// message itself.
pub proof fn law_failures_name_their_destination(destination: DestinationView, message: Seq<char>)
    ensures
        ({
            let text = failure_text(destination, message);
            let number = signed_decimal(destination.channel_id as int);
            let head = "channel "@ + number + " ("@ + destination.channel_name;
            let tail = ") recipient "@ + destination.recipient + ": "@ + message;
            &&& head.is_prefix_of(text)
            &&& tail.is_suffix_of(text)
            &&& text.len() == head.len() + tail.len()
        }),
{
    let text = failure_text(destination, message);
    let head = "channel "@ + signed_decimal(destination.channel_id as int) + " ("@
        + destination.channel_name;
    let tail = ") recipient "@ + destination.recipient + ": "@ + message;
    assert(text =~= head + tail);
    assert(text.take(head.len() as int) =~= head);
    assert(text.skip(head.len() as int) =~= tail);
}

/// An outcome counts at the destination that was tried: a success as sent, a failure as one more
/// report, with that destination's name and the message. Nothing else changes, and the next
/// destination is tried.
pub proof fn law_outcomes_count_where_they_fall(delivery: DeliveryView, message: Seq<char>)
    ensures
        ({
            let told = delivery.with_outcome(Ok(()));
            &&& told.sent == delivery.sent + 1
            &&& told.failures == delivery.failures
            &&& told.next == delivery.next + 1
            &&& told.destinations == delivery.destinations
        }),
        ({
            let missed = delivery.with_outcome(Err(message));
            &&& missed.sent == delivery.sent
            &&& missed.failures == delivery.failures.push(
                failure_text(delivery.destinations[delivery.next], message),
            )
            &&& missed.next == delivery.next + 1
            &&& missed.destinations == delivery.destinations
        }),
        DeliveryView::begun(delivery.destinations).next == 0,
        DeliveryView::begun(delivery.destinations).sent == 0,
        DeliveryView::begun(delivery.destinations).failures.len() == 0,
        DeliveryView::begun(delivery.destinations).destinations == delivery.destinations,
{
}

/// A delivery ends with the number that was sent where nothing failed, and else with every
/// report, the first first, a semicolon and a blank between each two.
pub proof fn law_a_delivery_ends_with_its_reports(
    delivery: DeliveryView,
    first: Seq<Seq<char>>,
    last: Seq<Seq<char>>,
)
    ensures
        delivery.failures.len() == 0 ==> delivery.result() == Ok::<int, Seq<char>>(delivery.sent),
        delivery.failures.len() == 1 ==> delivery.result() == Err::<int, Seq<char>>(
            delivery.failures[0],
        ),
        first.len() > 0 && last.len() > 0 && delivery.failures == first + last ==> {
            let before = DeliveryView { failures: first, ..delivery };
            let behind = DeliveryView { failures: last, ..delivery };
            delivery.result() == Err::<int, Seq<char>>(
                before.result()->Err_0 + "; "@ + behind.result()->Err_0,
            )
        },
{
    if first.len() > 0 && last.len() > 0 {
        law_joining_splits_anywhere(first, last, "; "@);
    }
}

/// Where a delivery to a webhook fails before anything is sent, it is for the first of these: the
/// URL, its host, its port; then the lookup, an address that is not public; then the client, the
/// token.
pub proof fn law_webhook_failures_say_why(
    telling: Telling,
    destination: DestinationView,
    world: World,
)
    requires
        destination.kind == "webhook"@,
    ensures
        ({
            let url = url_parts(destination.endpoint);
            let end = step_after(telling, destination, world, 4);
            let located = url is Some && url->0.host is Some && url->0.port is Some;
            let public = world.addresses is Some && world.addresses->0.len() > 0 && forall|i: int|
                0 <= i < world.addresses->0.len() ==> is_public(
                    #[trigger] world.addresses->0[i],
                );
            &&& url is None ==> end == StepView::Finish(Err("webhook endpoint is invalid"@))
            &&& url is Some && url->0.host is None ==> end == StepView::Finish(
                Err("webhook endpoint has no host"@),
            )
            &&& url is Some && url->0.host is Some && url->0.port is None ==> end
                == StepView::Finish(Err("webhook endpoint has no port"@))
            &&& located ==> step_after(telling, destination, world, 0) == (StepView::Resolve {
                host: url->0.host->0,
                port: url->0.port->0,
            })
            &&& located && world.addresses is None ==> end == StepView::Finish(
                Err("webhook endpoint could not be resolved"@),
            )
            &&& located && world.addresses is Some && !public ==> end == StepView::Finish(
                Err("webhook endpoint resolves to a non-public address"@),
            )
            &&& located && public && !world.client_built ==> end == StepView::Finish(
                Err("failed to create webhook HTTP client"@),
            )
            &&& located && public && world.client_built && destination.token_env is Some && (
            world.variable)(destination.token_env->0) is None ==> end == StepView::Finish(
                Err("channel token is unavailable"@),
            )
        }),
{
    reveal_with_fuel(step_after, 5);
}

/// Where a delivery to a pi-bun session fails before anything is sent, it is for the first of
/// these: the URL, the mesh, the name of the token's variable, the token. A channel of any other
/// kind is not delivered to.
pub proof fn law_pi_bun_failures_say_why(
    telling: Telling,
    destination: DestinationView,
    world: World,
)
    requires
        destination.kind != "webhook"@,
    ensures
        ({
            let url = url_parts(destination.endpoint);
            let end = step_after(telling, destination, world, 4);
            let session = destination.kind == "pi-bun"@;
            let mesh = url is Some && (url->0.scheme == "http"@ || url->0.scheme == "https"@)
                && url->0.host == Some("100.88.0.9"@);
            &&& !session ==> end == StepView::Finish(Err("unsupported channel kind"@))
            &&& session && url is None ==> end == StepView::Finish(
                Err("pi-bun endpoint is invalid"@),
            )
            &&& session && url is Some && !mesh ==> end == StepView::Finish(
                Err("pi-bun endpoint is outside the Titan mesh"@),
            )
            &&& session && mesh && destination.token_env is None ==> end == StepView::Finish(
                Err("pi-bun channel requires token_env"@),
            )
            &&& session && mesh && destination.token_env is Some && (world.variable)(
                destination.token_env->0,
            ) is None ==> end == StepView::Finish(Err("channel token is unavailable"@))
        }),
{
    reveal_with_fuel(step_after, 5);
}

/// A reply with a code from 200 to 299 says that its request succeeded, and no other does: that
/// of a webhook or a command ends the delivery well. Anything else ends it with what went wrong.
pub proof fn law_replies_are_held_to_their_code(
    telling: Telling,
    destination: DestinationView,
    purpose: Purpose,
    reply: PostReplyView,
    message: Seq<char>,
)
    ensures
        ({
            let step = answered_step(
                telling.notification,
                destination,
                telling.value,
                telling.threshold,
                purpose,
                Ok(reply),
            );
            let good = 199 < reply.code <= 299;
            let login = purpose == Purpose::Login;
            &&& step == StepView::Finish(Ok(())) <==> good && !login
            &&& good && login && reply.cookie is None ==> step == StepView::Finish(
                Err("pi-bun login returned no session cookie"@),
            )
            &&& good && login && reply.cookie is Some ==> step is Post
            &&& !good && purpose == Purpose::Webhook ==> step == StepView::Finish(
                Err("webhook returned HTTP "@ + reply.status),
            )
            &&& !good && login ==> step == StepView::Finish(
                Err("pi-bun login returned HTTP "@ + reply.status),
            )
            &&& !good && purpose == Purpose::Command ==> step == StepView::Finish(
                Err("pi-bun command returned HTTP "@ + reply.status),
            )
        }),
        answered_step(
            telling.notification,
            destination,
            telling.value,
            telling.threshold,
            purpose,
            Err(message),
        ) == StepView::Finish(Err(message)),
{
}

/// A webhook is told at its own URL, with the channel's token and nothing else to authorize by;
/// the body names the recipient and its target, and holds the alert.
pub proof fn law_webhooks_are_told_of_recipient_and_alert(
    notification: NotificationView,
    destination: DestinationView,
    token: Option<Seq<char>>,
)
    ensures
        ({
            let request = webhook_request(notification, destination, token);
            let recipient = under(request.body, "recipient"@);
            &&& request.purpose == Purpose::Webhook
            &&& request.url == destination.endpoint
            &&& request.bearer == token
            &&& request.cookie is None
            &&& recipient is Some
            &&& under(recipient->0, "name"@) == Some(JsonView::Text(destination.recipient))
            &&& under(recipient->0, "target"@) == Some(JsonView::Text(destination.target))
            &&& under(request.body, "alert"@) == Some(notification_tree(notification))
        }),
        connected_step(notification, destination, true) == match destination.token_env {
            Some(name) => StepView::ReadVariable(name),
            None => StepView::Post(webhook_request(notification, destination, None)),
        },
        destination.kind == "webhook"@ && token is Some ==> token_step(
            notification,
            destination,
            token,
        ) == StepView::Post(webhook_request(notification, destination, token)),
{
    reveal_strlit("recipient");
    reveal_strlit("alert");
    reveal_strlit("name");
    reveal_strlit("target");
    assert("recipient"@.len() == 9);
    assert("alert"@.len() == 5);
    assert("name"@.len() == 4);
    assert("target"@.len() == 6);
    let body = webhook_request(notification, destination, token).body->Object_0;
    assert(body[0].0 == "recipient"@ && body[1].0 == "alert"@);
    lemma_member(body, 0);
    lemma_member(body, 1);
    let recipient = body[0].1->Object_0;
    assert(recipient[0].0 == "name"@ && recipient[1].0 == "target"@);
    lemma_member(recipient, 0);
    lemma_member(recipient, 1);
}

/// The URL of a pi-bun server is the channel's endpoint up to the slashes at its end.
pub proof fn law_pi_bun_urls_begin_with_the_endpoint(destination: DestinationView)
    ensures
        ({
            let base = pi_bun_base(destination);
            &&& base.is_prefix_of(destination.endpoint)
            &&& base.len() > 0 ==> base.last() != '/'
            &&& forall|i: int|
                base.len() <= i < destination.endpoint.len() ==> #[trigger] destination.endpoint[i]
                    == '/'
        }),
{
    law_only_trailing_marks_are_removed(destination.endpoint, '/');
}

/// A login is posted to `/api/login` of the server, with the token in its body and nowhere else.
pub proof fn law_logins_bring_the_token(
    notification: NotificationView,
    destination: DestinationView,
    token: Seq<char>,
)
    ensures
        ({
            let request = login_request(destination, token);
            let base = pi_bun_base(destination);
            &&& request.purpose == Purpose::Login
            &&& base.is_prefix_of(request.url)
            &&& request.url.skip(base.len() as int) == "/api/login"@
            &&& request.bearer is None
            &&& request.cookie is None
            &&& under(request.body, "token"@) == Some(JsonView::Text(token))
            &&& request.body->Object_0.len() == 1
        }),
        destination.kind == "pi-bun"@ ==> token_step(notification, destination, Some(token))
            == StepView::Post(login_request(destination, token)),
{
    reveal_strlit("webhook");
    reveal_strlit("pi-bun");
    assert("webhook"@.len() == 7);
    assert("pi-bun"@.len() == 6);
    lemma_login_url(destination, token);
    let base = pi_bun_base(destination);
    assert(login_request(destination, token).url.skip(base.len() as int) =~= "/api/login"@);
    lemma_member(login_request(destination, token).body->Object_0, 0);
}

/// An accepted login is followed by a prompt, posted to the session that the target names, as one
/// segment of the path, with the cookie up to its first attribute.
pub proof fn law_logins_are_followed_by_the_prompt(
    telling: Telling,
    destination: DestinationView,
    reply: PostReplyView,
)
    requires
        200 <= reply.code <= 299,
        reply.cookie is Some,
    ensures
        ({
            let step = answered_step(
                telling.notification,
                destination,
                telling.value,
                telling.threshold,
                Purpose::Login,
                Ok(reply),
            );
            let request = step->Post_0;
            let base = pi_bun_base(destination);
            let cookie = request.cookie->0;
            let command = under(request.body, "command"@);
            let message = under(command->0, "message"@);
            &&& step is Post
            &&& request.purpose == Purpose::Command
            &&& base.is_prefix_of(request.url)
            &&& request.url.skip(base.len() as int) == "/api/sessions/"@ + percent_encoded(
                destination.target,
            ) + "/command"@
            &&& request.bearer is None
            &&& request.cookie is Some
            &&& cookie.is_prefix_of(reply.cookie->0)
            &&& !cookie.contains(';')
            &&& cookie != reply.cookie->0 ==> reply.cookie->0[cookie.len() as int] == ';'
            &&& command is Some
            &&& under(command->0, "type"@) == Some(JsonView::Text("prompt"@))
            &&& message == Some(
                JsonView::Text(prompt(telling.notification, telling.value, telling.threshold)),
            )
        }),
{
    reveal_strlit("type");
    reveal_strlit("message");
    assert("type"@.len() == 4);
    assert("message"@.len() == 7);
    let cookie = reply.cookie->0;
    let request = command_request(
        telling.notification,
        destination,
        telling.value,
        telling.threshold,
        cookie,
    );
    law_text_is_cut_at_the_first_mark(cookie, ';');
    lemma_command_url(telling, destination, cookie);
    let base = pi_bun_base(destination);
    assert(request.url.skip(base.len() as int) =~= "/api/sessions/"@ + percent_encoded(
        destination.target,
    ) + "/command"@);
    let body = request.body->Object_0;
    lemma_member(body, 0);
    let command = body[0].1->Object_0;
    assert(command[0].0 == "type"@ && command[1].0 == "message"@);
    lemma_member(command, 0);
    lemma_member(command, 1);
}

/// The prompt tells the event, the rule and the metric, then the figure of the value behind an
/// equals sign, and then that of the threshold behind its name.
pub proof fn law_prompts_tell_each_figure_in_its_place(
    notification: NotificationView,
    value: Seq<char>,
    threshold: Seq<char>,
)
    ensures
        ({
            let message = prompt(notification, value, threshold);
            let head = "AkurAI Monitor "@ + notification.event + " alert: "@ + notification.rule
                + " ("@ + notification.metric + " = "@;
            let between = ", threshold "@;
            let tail = "). Investigate with akurai-monitorctl."@;
            let mid = (head.len() + value.len()) as int;
            let at = mid + between.len();
            &&& head.is_prefix_of(message)
            &&& tail.is_suffix_of(message)
            &&& message.subrange(head.len() as int, mid) == value
            &&& message.subrange(mid, at) == between
            &&& message.subrange(at, at + threshold.len()) == threshold
            &&& message.len() == at + threshold.len() + tail.len()
        }),
{
    let message = prompt(notification, value, threshold);
    let head = "AkurAI Monitor "@ + notification.event + " alert: "@ + notification.rule + " ("@
        + notification.metric + " = "@;
    let between = ", threshold "@;
    let tail = "). Investigate with akurai-monitorctl."@;
    let mid = (head.len() + value.len()) as int;
    let at = mid + between.len();
    assert(message =~= head + value + between + threshold + tail);
    assert(message.take(head.len() as int) =~= head);
    assert(message.subrange(head.len() as int, mid) =~= value);
    assert(message.subrange(mid, at) =~= between);
    assert(message.subrange(at, at + threshold.len()) =~= threshold);
    assert(message.skip(at + threshold.len()) =~= tail);
}

/// A delivery begins, to all of its destinations, exactly when the client could be built.
pub proof fn law_deliveries_begin_with_a_client(destinations: Seq<DestinationView>)
    ensures
        beginning(destinations, true) is Ok,
        beginning(destinations, true)->Ok_0.destinations == destinations,
        beginning(destinations, true)->Ok_0.valid(),
        beginning(destinations, true)->Ok_0.next == 0,
        beginning(destinations, false) == Err::<DeliveryView, Seq<char>>(
            "failed to create alert HTTP client"@,
        ),
{
}

/// A delivery goes on until the last destination was tried, and then ends: each destination is
/// counted once, as sent or as failed.
pub proof fn law_every_destination_is_tried(delivery: DeliveryView)
    requires
        delivery.valid(),
    ensures
        !delivery.ongoing() <==> delivery.next == delivery.destinations.len(),
        delivery.sent + delivery.failures.len() == delivery.next,
        !delivery.ongoing() ==> delivery.sent + delivery.failures.len()
            == delivery.destinations.len(),
        delivery.ongoing() ==> delivery.with_outcome(Ok(())).valid() && delivery.with_outcome(
            Err(Seq::empty()),
        ).valid(),
{
}

} // verus!
