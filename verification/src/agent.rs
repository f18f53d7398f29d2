//! The agent-side multiplexer core.
//!
//! After registration the agent loops reading messages from the gateway.
//! [`next_step`] decides what each message does: payloads go to the backend
//! connection of their stream — opening one lazily where none exists — and
//! closes drop the entry. The per-stream [`Backends`] table owns whatever
//! the runtime stores for each backend connection (its write half and the
//! handle of the pump that copies backend bytes upstream).
use vstd::prelude::*;

use crate::wire::{ControlModel, Message, MessageModel, Stream};
use std::collections::HashMap;

verus! {

broadcast use vstd::std_specs::hash::group_hash_axioms;

/// The per-stream table of backend connections of one agent session.
pub struct Backends<V> {
    map: HashMap<u32, V>,
}

impl<V> Backends<V> {
    /// The entries, keyed by the raw stream identifier.
    pub closed spec fn entries(&self) -> Map<u32, V> {
        self.map@
    }

    /// An empty table.
    pub fn new() -> (r: Backends<V>)
        ensures
            r.entries() == Map::<u32, V>::empty(),
    {
        let r = Backends { map: HashMap::new() };
        proof {
            assert(r.entries() =~= Map::<u32, V>::empty());
        }
        r
    }

    /// Whether a backend connection exists for this stream.
    pub fn contains(&self, id: Stream) -> (r: bool)
        ensures
            r == self.entries().contains_key(id.0),
    {
        self.map.contains_key(&id.value())
    }

    /// Installs the backend connection of a stream, fresh from a connect.
    pub fn insert(&mut self, id: Stream, v: V)
        ensures
            final(self).entries() == old(self).entries().insert(id.0, v),
    {
        self.map.insert(id.0, v);
    }

    /// Takes the entry of a stream out, if present: for writing to it, or to
    /// drop it on a close, a write failure or the pump's exit.
    pub fn take(&mut self, id: Stream) -> (r: Option<V>)
        ensures
            final(self).entries() == old(self).entries().remove(id.0),
            r is Some <==> old(self).entries().contains_key(id.0),
            r matches Some(v) ==> v == old(self).entries()[id.0],
    {
        let r = self.map.remove(&id.value());
        proof {
            if !old(self).entries().contains_key(id.0) {
                assert(final(self).entries() =~= old(self).entries().remove(id.0));
            }
        }
        r
    }

    /// Puts the entry of a stream back after a successful write.
    pub fn put_back(&mut self, id: Stream, v: V)
        ensures
            final(self).entries() == old(self).entries().insert(id.0, v),
    {
        self.map.insert(id.0, v);
    }
}

/// What one message read from the gateway does on the agent.
#[derive(Debug)]
pub enum AgentStep {
    /// Write these bytes to the existing backend connection of this stream;
    /// on a write failure, drop the entry and send a close upstream.
    Forward { id: Stream, data: Vec<u8> },
    /// No backend yet for this stream: connect to the configured backend,
    /// install the connection and its pump, then write these bytes. Should
    /// the connect fail, send a close upstream instead.
    Connect { id: Stream, data: Vec<u8> },
    /// Drop the entry of this stream; dropping it stops its pump and closes
    /// the backend write half.
    Remove { id: Stream },
    /// Log the message and ignore it.
    Ignore,
}

/// Decides how a message read from the gateway acts on the Backends table:
/// payloads go to their stream's backend — to be opened where none exists —
/// closes drop the entry, anything else is ignored.
pub fn next_step<V>(backends: &Backends<V>, msg: Message) -> (r: AgentStep)
    ensures
        msg@ matches MessageModel::Payload { id, data } ==> {
            &&& (backends.entries().contains_key(id.0) ==> (r matches AgentStep::Forward {
                id: i,
                data: d,
            } && i == id && d@ == data))
            &&& (!backends.entries().contains_key(id.0) ==> (r matches AgentStep::Connect {
                id: i,
                data: d,
            } && i == id && d@ == data))
        },
        msg@ matches MessageModel::Control(ControlModel::Close { id }) ==> (r
            matches AgentStep::Remove { id: i } && i == id),
        (!(msg@ is Payload) && !(msg@ matches MessageModel::Control(ControlModel::Close { .. })))
            ==> r is Ignore,
{
    match msg {
        Message::Payload { id, data } => {
            if backends.contains(id) {
                AgentStep::Forward { id, data }
            } else {
                AgentStep::Connect { id, data }
            }
        },
        Message::Control(crate::wire::Control::Close { id }) => AgentStep::Remove { id },
        _ => AgentStep::Ignore,
    }
}

} // verus!
