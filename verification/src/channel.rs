//! The rules that a channel's transport, endpoint and token have to meet.
use crate::endpoint::{
    is_on_mesh, on_mesh, optional_endpoint, parse_endpoint, url_parts, Endpoint, EndpointView,
};
use crate::fields::{entries_of, entry_views, fields, find, lemma_lookup_entry, lookup, Entries};
use crate::json::{Field, FieldView};
use crate::text::{begins_with, optional_text, same_text};
use crate::resource::channel_resource;
use crate::validation::{
    field_verdict, law_accepted_requests_keep_the_rules, refusal, type_complaint,
};
use vstd::prelude::*;

verus! {

/// What is stored of a channel.
pub struct StoredChannel {
    pub kind: String,
    pub endpoint: String,
    pub token_env: Option<String>,
}

/// The mathematical value of a [`StoredChannel`].
pub struct StoredChannelView {
    pub kind: Seq<char>,
    pub endpoint: Seq<char>,
    pub token_env: Option<Seq<char>>,
}

impl View for StoredChannel {
    type V = StoredChannelView;

    open spec fn view(&self) -> StoredChannelView {
        StoredChannelView {
            kind: self.kind@,
            endpoint: self.endpoint@,
            token_env: optional_text(self.token_env),
        }
    }
}

/// The outcome of reading the stored channel: none where there is no such record, an error
/// where it could not be read.
pub open spec fn stored_view(stored: Result<Option<StoredChannel>, ()>) -> Result<
    Option<StoredChannelView>,
    (),
> {
    match stored {
        Ok(Some(channel)) => Ok(Some(channel@)),
        Ok(None) => Ok(None),
        Err(_) => Err(()),
    }
}

/// The text under `name`, where a text stands there.
pub open spec fn given_text(entries: Entries, name: Seq<char>) -> Option<Seq<char>> {
    match lookup(entries, name) {
        Some(FieldView::Text(text)) => Some(text),
        _ => None,
    }
}

/// The kind that the channel will have: the one given, or else the one stored.
pub open spec fn chosen_kind(entries: Entries, stored: Option<StoredChannelView>) -> Option<
    Seq<char>,
> {
    if given_text(entries, "kind"@) is Some {
        given_text(entries, "kind"@)
    } else if stored is Some {
        Some(stored->0.kind)
    } else {
        None
    }
}

/// The endpoint that the channel will have: the one given, or else the one stored.
pub open spec fn chosen_endpoint(entries: Entries, stored: Option<StoredChannelView>) -> Option<
    Seq<char>,
> {
    if given_text(entries, "endpoint"@) is Some {
        given_text(entries, "endpoint"@)
    } else if stored is Some {
        Some(stored->0.endpoint)
    } else {
        None
    }
}

/// The name of the variable that will hold the channel's token: the one given, none where
/// null is given, or else the one stored. Anything else that is given is an error.
pub open spec fn chosen_token(entries: Entries, stored: Option<StoredChannelView>) -> Result<
    Option<Seq<char>>,
    (),
> {
    match lookup(entries, "token_env"@) {
        Some(FieldView::Null) => Ok(None),
        Some(FieldView::Text(name)) => Ok(Some(name)),
        Some(_) => Err(()),
        None => match stored {
            Some(channel) => Ok(channel.token_env),
            None => Ok(None),
        },
    }
}

/// Channel tokens stand in variables whose names begin so.
pub open spec fn token_prefix() -> Seq<char> {
    "MONITOR_CHANNEL_TOKEN_"@
}

/// Why a channel of that kind may not have that endpoint; nothing where it may.
pub open spec fn transport_verdict(
    kind: Seq<char>,
    has_token: bool,
    endpoint: Option<EndpointView>,
) -> Option<Seq<char>> {
    match endpoint {
        None => Some("channel endpoint is not a valid URL"@),
        Some(url) => if url.username.len() != 0 || url.password is Some {
            Some("channel endpoint cannot contain credentials"@)
        } else if kind == "webhook"@ {
            if url.scheme != "https"@ {
                Some("webhook endpoint must use HTTPS"@)
            } else {
                None
            }
        } else if kind == "pi-bun"@ {
            if !on_mesh(url) {
                Some("pi-bun endpoint must use Titan's 100.88.0.9 mesh address"@)
            } else if !has_token {
                Some("pi-bun channel requires token_env"@)
            } else {
                None
            }
        } else {
            Some("channel kind must be webhook or pi-bun"@)
        },
    }
}

/// Why a channel with these fields is refused; nothing where it is accepted. The first reason
/// in this order counts.
pub open spec fn channel_verdict(
    entries: Entries,
    stored: Result<Option<StoredChannelView>, ()>,
) -> Option<Seq<char>> {
    match stored {
        Err(_) => Some("failed to read channel"@),
        Ok(stored) => if chosen_kind(entries, stored) is None {
            Some("channel kind is required"@)
        } else if chosen_endpoint(entries, stored) is None {
            Some("channel endpoint is required"@)
        } else if chosen_token(entries, stored) is Err {
            Some("token_env must be a string or null"@)
        } else if chosen_token(entries, stored)->Ok_0 is Some && !token_prefix().is_prefix_of(
            chosen_token(entries, stored)->Ok_0->0,
        ) {
            Some("channel tokens must use a MONITOR_CHANNEL_TOKEN_ environment variable"@)
        } else {
            transport_verdict(
                chosen_kind(entries, stored)->0,
                chosen_token(entries, stored)->Ok_0 is Some,
                url_parts(chosen_endpoint(entries, stored)->0),
            )
        },
    }
}

/// Holds a channel's transport to the rules, given what its endpoint parses to.
pub fn check_transport(kind: &str, has_token: bool, endpoint: &Option<Endpoint>) -> (result: Result<
    (),
    &'static str,
>)
    ensures
        refusal(result) == transport_verdict(kind@, has_token, optional_endpoint(*endpoint)),
{
    match endpoint {
        None => Err("channel endpoint is not a valid URL"),
        Some(url) => {
            if !url.username.as_str().is_empty() || url.password.is_some() {
                return Err("channel endpoint cannot contain credentials");
            }
            if same_text(kind, "webhook") {
                if !same_text(url.scheme.as_str(), "https") {
                    return Err("webhook endpoint must use HTTPS");
                }
                Ok(())
            } else if same_text(kind, "pi-bun") {
                if !is_on_mesh(url) {
                    return Err("pi-bun endpoint must use Titan's 100.88.0.9 mesh address");
                }
                if !has_token {
                    return Err("pi-bun channel requires token_env");
                }
                Ok(())
            } else {
                Err("channel kind must be webhook or pi-bun")
            }
        },
    }
}

/// Holds a list of channel fields, together with what is stored of the channel, to the rules.
pub fn validate_channel_entries(
    entries: &Vec<(String, Field)>,
    stored: &Result<Option<StoredChannel>, ()>,
) -> (result: Result<(), &'static str>)
    ensures
        refusal(result) == channel_verdict(entry_views(entries@), stored_view(*stored)),
{
    let stored: &Option<StoredChannel> = match stored {
        Ok(channel) => channel,
        Err(_) => {
            return Err("failed to read channel");
        },
    };
    let kind: &str = match find(entries, "kind") {
        Some(Field::Text(kind)) => kind.as_str(),
        _ => match stored {
            Some(channel) => channel.kind.as_str(),
            None => {
                return Err("channel kind is required");
            },
        },
    };
    let endpoint: &str = match find(entries, "endpoint") {
        Some(Field::Text(endpoint)) => endpoint.as_str(),
        _ => match stored {
            Some(channel) => channel.endpoint.as_str(),
            None => {
                return Err("channel endpoint is required");
            },
        },
    };
    let token: Option<&str> = match find(entries, "token_env") {
        Some(Field::Null) => None,
        Some(Field::Text(name)) => Some(name.as_str()),
        Some(_) => {
            return Err("token_env must be a string or null");
        },
        None => match stored {
            Some(channel) => match &channel.token_env {
                Some(name) => Some(name.as_str()),
                None => None,
            },
            None => None,
        },
    };
    if let Some(name) = token {
        if !begins_with(name, "MONITOR_CHANNEL_TOKEN_") {
            return Err("channel tokens must use a MONITOR_CHANNEL_TOKEN_ environment variable");
        }
    }
    let url = parse_endpoint(endpoint);
    check_transport(kind, token.is_some(), &url)
}

/// Holds the fields of a channel request, together with what is stored of the channel, to
/// the rules.
pub fn validate_channel_config(
    request: &serde_json::Map<String, serde_json::Value>,
    stored: &Result<Option<StoredChannel>, ()>,
) -> (result: Result<(), &'static str>)
    ensures
        refusal(result) == channel_verdict(entries_of(*request), stored_view(*stored)),
{
    let entries = fields(request);
    validate_channel_entries(&entries, stored)
}

/// An accepted channel is a webhook on an HTTPS URL, or a pi-bun channel with a token on an
/// HTTP or HTTPS URL of the mesh address. Its URL holds no credentials, and the variable of
/// its token, where it has one, bears the prefix of channel tokens.
pub proof fn law_accepted_channels_are_confined(
    entries: Entries,
    stored: Option<StoredChannelView>,
)
    requires
        channel_verdict(entries, Ok(stored)) is None,
    ensures
        chosen_kind(entries, stored) is Some,
        chosen_endpoint(entries, stored) is Some,
        chosen_token(entries, stored) is Ok,
        url_parts(chosen_endpoint(entries, stored)->0) is Some,
        ({
            let kind = chosen_kind(entries, stored)->0;
            let url = url_parts(chosen_endpoint(entries, stored)->0)->0;
            let token = chosen_token(entries, stored)->Ok_0;
            &&& kind == "webhook"@ || kind == "pi-bun"@
            &&& kind == "webhook"@ ==> url.scheme == "https"@
            &&& kind == "pi-bun"@ ==> on_mesh(url) && token is Some
            &&& url.username.len() == 0 && url.password is None
            &&& token is Some ==> token_prefix().is_prefix_of(token->0)
        }),
{
    reveal_strlit("webhook");
    reveal_strlit("pi-bun");
    assert("webhook"@.len() != "pi-bun"@.len());
}

/// A channel that keeps to the rules on channels.
pub open spec fn confined(channel: StoredChannelView) -> bool {
    &&& transport_verdict(
        channel.kind,
        channel.token_env is Some,
        url_parts(channel.endpoint),
    ) is None
    &&& channel.token_env is Some ==> token_prefix().is_prefix_of(channel.token_env->0)
}

/// The text that a column holds once the fields are written: the one given, none where anything
/// else is given, or else what it held before.
pub open spec fn written_text(entries: Entries, name: Seq<char>, kept: Option<Seq<char>>) -> Option<
    Seq<char>,
> {
    match lookup(entries, name) {
        Some(FieldView::Text(text)) => Some(text),
        Some(_) => None,
        None => kept,
    }
}

/// What is stored of a channel once the fields are written over what was stored of it; none
/// where it would have no kind or no endpoint.
pub open spec fn written_channel(entries: Entries, stored: Option<StoredChannelView>) -> Option<
    StoredChannelView,
> {
    let kind = written_text(
        entries,
        "kind"@,
        if stored is Some {
            Some(stored->0.kind)
        } else {
            None
        },
    );
    let endpoint = written_text(
        entries,
        "endpoint"@,
        if stored is Some {
            Some(stored->0.endpoint)
        } else {
            None
        },
    );
    let token_env = written_text(
        entries,
        "token_env"@,
        if stored is Some {
            stored->0.token_env
        } else {
            None
        },
    );
    if kind is Some && endpoint is Some {
        Some(StoredChannelView { kind: kind->0, endpoint: endpoint->0, token_env })
    } else {
        None
    }
}

/// A field that is given and accepted for a column of texts holds a text or null.
proof fn lemma_accepted_text(entries: Entries, create: bool, name: Seq<char>)
    requires
        field_verdict(channel_resource(), entries, create) is None,
        lookup(entries, name) is Some,
        name == "kind"@ || name == "endpoint"@,
    ensures
        lookup(entries, name)->0 is Text,
{
    let resource = channel_resource();
    law_accepted_requests_keep_the_rules(resource, entries, create);
    lemma_lookup_entry(entries, name);
    let i = choose|i: int|
        0 <= i < entries.len() && (#[trigger] entries[i]) == (name, lookup(entries, name)->0);
    assert(type_complaint(entries[i].0, entries[i].1) is None);
    assert(resource.required[1] == "kind"@ && resource.required[2] == "endpoint"@);
    assert(lookup(entries, name) != Some(FieldView::Null));
    reveal_strlit("kind");
    reveal_strlit("endpoint");
    reveal_strlit("enabled");
    reveal_strlit("host_id");
    reveal_strlit("application_id");
    reveal_strlit("channel_id");
    reveal_strlit("duration_secs");
    reveal_strlit("created_at");
    reveal_strlit("updated_at");
    reveal_strlit("ts");
    reveal_strlit("value");
    reveal_strlit("threshold");
    assert("kind"@.len() == 4 && "endpoint"@.len() == 8 && "enabled"@.len() == 7);
    assert("host_id"@.len() == 7 && "application_id"@.len() == 14 && "channel_id"@.len() == 10);
    assert("duration_secs"@.len() == 13 && "created_at"@.len() == 10 && "updated_at"@.len() == 10);
    assert("ts"@.len() == 2 && "value"@.len() == 5 && "threshold"@.len() == 9);
}

/// Every channel keeps to the rules: what is stored of a channel once an accepted request is
/// written, be it a new channel or a change of one, does.
pub proof fn law_written_channels_are_confined(
    entries: Entries,
    stored: Option<StoredChannelView>,
    create: bool,
)
    requires
        field_verdict(channel_resource(), entries, create) is None,
        channel_verdict(entries, Ok(stored)) is None,
    ensures
        written_channel(entries, stored) is Some,
        confined(written_channel(entries, stored)->0),
{
    if lookup(entries, "kind"@) is Some {
        lemma_accepted_text(entries, create, "kind"@);
    }
    if lookup(entries, "endpoint"@) is Some {
        lemma_accepted_text(entries, create, "endpoint"@);
    }
}

/// A channel is accepted exactly when, by what is given and else by what is stored, it has a kind
/// and an endpoint, its token is a text or null and, where there is one, bears the prefix of
/// channel tokens, its endpoint is a URL without credentials, and it is either a webhook on HTTPS
/// or a pi-bun channel with a token on the mesh address.
pub proof fn law_channel_acceptance_is_complete(
    entries: Entries,
    stored: Option<StoredChannelView>,
)
    ensures
        ({
            let kind = match lookup(entries, "kind"@) {
                Some(FieldView::Text(given)) => Some(given),
                _ => match stored {
                    Some(channel) => Some(channel.kind),
                    None => None,
                },
            };
            let endpoint = match lookup(entries, "endpoint"@) {
                Some(FieldView::Text(given)) => Some(given),
                _ => match stored {
                    Some(channel) => Some(channel.endpoint),
                    None => None,
                },
            };
            let token = match lookup(entries, "token_env"@) {
                Some(FieldView::Text(given)) => Some(given),
                Some(_) => None,
                None => match stored {
                    Some(channel) => channel.token_env,
                    None => None,
                },
            };
            let token_given = lookup(entries, "token_env"@);
            let url = url_parts(endpoint->0);
            channel_verdict(entries, Ok(stored)) is None <==> {
                &&& kind is Some && endpoint is Some
                &&& token_given is None || token_given == Some(FieldView::Null) || token_given->0
                    is Text
                &&& token matches Some(name) ==> "MONITOR_CHANNEL_TOKEN_"@.is_prefix_of(name)
                &&& url is Some && url->0.username.len() == 0 && url->0.password is None
                &&& {
                    ||| kind->0 == "webhook"@ && url->0.scheme == "https"@
                    ||| {
                        &&& kind->0 == "pi-bun"@
                        &&& url->0.scheme == "http"@ || url->0.scheme == "https"@
                        &&& url->0.host == Some("100.88.0.9"@)
                        &&& token is Some
                    }
                }
            }
        }),
        channel_verdict(entries, Err(())) is Some,
{
    reveal_strlit("webhook");
    reveal_strlit("pi-bun");
    assert("webhook"@.len() != "pi-bun"@.len());
}

/// A channel that is refused is refused for the first of these that is wrong: the reading of what
/// is stored, the kind, the endpoint, the token's type, the token's name, the URL, credentials in
/// it, and then what the kind asks for.
pub proof fn law_channel_refusals_say_why(entries: Entries, stored: Option<StoredChannelView>)
    ensures
        channel_verdict(entries, Err(())) == Some("failed to read channel"@),
        ({
            let verdict = channel_verdict(entries, Ok(stored));
            let kind = match lookup(entries, "kind"@) {
                Some(FieldView::Text(given)) => Some(given),
                _ => match stored {
                    Some(channel) => Some(channel.kind),
                    None => None,
                },
            };
            let endpoint = match lookup(entries, "endpoint"@) {
                Some(FieldView::Text(given)) => Some(given),
                _ => match stored {
                    Some(channel) => Some(channel.endpoint),
                    None => None,
                },
            };
            let token = match lookup(entries, "token_env"@) {
                Some(FieldView::Text(given)) => Some(given),
                Some(_) => None,
                None => match stored {
                    Some(channel) => channel.token_env,
                    None => None,
                },
            };
            let token_given = lookup(entries, "token_env"@);
            let token_typed = token_given is None || token_given == Some(FieldView::Null)
                || token_given->0 is Text;
            let token_named = token matches Some(name) ==> "MONITOR_CHANNEL_TOKEN_"@.is_prefix_of(
                name,
            );
            let chosen = kind is Some && endpoint is Some && token_typed && token_named;
            let url = url_parts(endpoint->0);
            let bare = url is Some && url->0.username.len() == 0 && url->0.password is None;
            let mesh = (url->0.scheme == "http"@ || url->0.scheme == "https"@) && url->0.host
                == Some("100.88.0.9"@);
            &&& kind is None ==> verdict == Some("channel kind is required"@)
            &&& kind is Some && endpoint is None ==> verdict == Some(
                "channel endpoint is required"@,
            )
            &&& kind is Some && endpoint is Some && !token_typed ==> verdict == Some(
                "token_env must be a string or null"@,
            )
            &&& kind is Some && endpoint is Some && token_typed && !token_named ==> verdict == Some(
                "channel tokens must use a MONITOR_CHANNEL_TOKEN_ environment variable"@,
            )
            &&& chosen && url is None ==> verdict == Some("channel endpoint is not a valid URL"@)
            &&& chosen && url is Some && !bare ==> verdict == Some(
                "channel endpoint cannot contain credentials"@,
            )
            &&& chosen && bare && kind->0 == "webhook"@ && url->0.scheme != "https"@ ==> verdict
                == Some("webhook endpoint must use HTTPS"@)
            &&& chosen && bare && kind->0 == "pi-bun"@ && !mesh ==> verdict == Some(
                "pi-bun endpoint must use Titan's 100.88.0.9 mesh address"@,
            )
            &&& chosen && bare && kind->0 == "pi-bun"@ && mesh && token is None ==> verdict == Some(
                "pi-bun channel requires token_env"@,
            )
            &&& chosen && bare && kind->0 != "webhook"@ && kind->0 != "pi-bun"@ ==> verdict == Some(
                "channel kind must be webhook or pi-bun"@,
            )
        }),
{
    reveal_strlit("webhook");
    reveal_strlit("pi-bun");
    assert("webhook"@.len() != "pi-bun"@.len());
}

} // verus!
