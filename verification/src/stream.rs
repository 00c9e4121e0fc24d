//! Live events.
use vstd::prelude::*;

verus! {

/// A live event for the connected subscribers.
#[derive(Debug, PartialEq)]
pub struct Msg {
    pub event: &'static str,
    pub data: String,
}

impl Clone for Msg {
    fn clone(&self) -> (copy: Self)
        ensures
            copy.event@ == self.event@,
            copy.data@ == self.data@,
    {
        Msg { event: self.event, data: self.data.clone() }
    }
}

/// What is broadcast: the event and its data, once the channel is set up.
pub open spec fn broadcasted(channel_ready: bool, event: Seq<char>, data: Seq<char>) -> Option<
    (Seq<char>, Seq<char>),
> {
    if channel_ready {
        Some((event, data))
    } else {
        None
    }
}

/// Publishes a live event: the message to broadcast, once the broadcast channel is set up.
/// Nothing is published before.
pub fn publish(channel_ready: bool, event: &'static str, data: String) -> (published: Option<Msg>)
    ensures
        published is Some <==> channel_ready,
        published matches Some(msg) ==> msg.event@ == event@ && msg.data@ == data@,
        broadcasted(channel_ready, event@, data@) == match published {
            Some(msg) => Some((msg.event@, msg.data@)),
            None => None,
        },
{
    if channel_ready {
        Some(Msg { event, data })
    } else {
        None
    }
}

/// Every event is broadcast as it is once the channel is set up, whatever it is and holds, and
/// none before.
pub proof fn law_every_event_is_broadcast_as_it_is(event: Seq<char>, data: Seq<char>)
    ensures
        broadcasted(true, event, data) == Some((event, data)),
        broadcasted(false, event, data) is None,
{
}

} // verus!
