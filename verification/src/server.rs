//! The gateway session core.
//!
//! Each accepted agent connection runs one [`Session`]: a state machine that
//! sequences handshake, login, registration and serving, and decides — for
//! every message and every hook outcome — what to send and whether the
//! session goes on. The surrounding runtime performs the I/O the machine
//! asks for and feeds the outcomes back in.
//!
//! While serving, the per-session [`Clients`] table maps each stream to the
//! writing end of one accepted public connection; the [`demux`] function
//! decides how each message read from the agent acts on that table.
use vstd::prelude::*;

pub mod auth;
pub mod register;

use crate::wire::{ControlModel, Message, MessageModel, Registration, Stream};
use crate::Error;
use std::collections::HashMap;

verus! {

broadcast use vstd::std_specs::hash::group_hash_axioms;

/// Where a session stands.
#[derive(Debug, PartialEq, Eq, Clone, Copy, Structural)]
pub enum Phase {
    /// Waiting for the agent's login message.
    AwaitLogin,
    /// The token is with the authentication hook.
    AwaitAuth,
    /// Logged in; waiting for registrations or their end.
    Registering,
    /// A name is with the authorization hook.
    AwaitAuthorize,
    /// Registration finished; the session serves public clients.
    Serving,
    /// Ended cleanly after declining the agent.
    Done,
    /// Ended as a failure to be reported.
    Failed,
}

/// What the session asks its runtime to do next.
#[derive(Debug)]
pub enum SessionAction {
    /// Hand this token to the authentication hook, then report the outcome.
    Authenticate { token: String },
    /// Send an acknowledgement frame to the agent.
    SendOk,
    /// Hand this name to the authorization hook, then report the outcome.
    Authorize { name: String },
    /// Send an error frame with this text; the session failed.
    Fail { msg: String },
    /// Send an error frame describing this error; the session failed.
    FailWith { err: Error },
    /// Send an error frame with this text; the session ends cleanly.
    Decline { msg: String },
    /// Send an error frame describing this error; the session ends cleanly.
    DeclineWith { err: Error },
    /// Registration is complete: bind the public listener and register this
    /// name under this registration slot.
    Serve { id: Registration, name: String },
}

/// The login-and-registration state machine of one agent session.
pub struct Session {
    phase: Phase,
    registration: Option<(Registration, String)>,
    pending: Option<(Registration, String)>,
}

impl Session {
    /// Where the session stands.
    pub closed spec fn phase(&self) -> Phase {
        self.phase
    }

    /// The one recorded registration, if any.
    pub closed spec fn registration_model(&self) -> Option<(Registration, Seq<char>)> {
        match self.registration {
            Some((id, name)) => Some((id, name@)),
            None => None,
        }
    }

    /// The registration awaiting authorization, if any.
    pub closed spec fn pending_model(&self) -> Option<(Registration, Seq<char>)> {
        match self.pending {
            Some((id, name)) => Some((id, name@)),
            None => None,
        }
    }

    /// A fresh session, waiting for the agent's login.
    pub fn new() -> (r: Session)
        ensures
            r.phase() is AwaitLogin,
            r.registration_model() is None,
            r.pending_model() is None,
    {
        Session { phase: Phase::AwaitLogin, registration: None, pending: None }
    }

    /// The first message must be a login: its token goes to the
    /// authentication hook; anything else is answered with an error and
    /// fails the session.
    pub fn on_login(&mut self, msg: Message) -> (r: SessionAction)
        requires
            old(self).phase() is AwaitLogin,
        ensures
            final(self).registration_model() == old(self).registration_model(),
            msg@ matches MessageModel::Control(ControlModel::Login(t)) ==> {
                &&& r matches SessionAction::Authenticate { token } && token@ == t
                &&& final(self).phase() is AwaitAuth
            },
            !(msg@ matches MessageModel::Control(ControlModel::Login(_))) ==> {
                &&& r matches SessionAction::Fail { msg: m } && m@
                    == "received unexpected message"@
                &&& final(self).phase() is Failed
            },
    {
        match msg {
            Message::Control(crate::wire::Control::Login(token)) => {
                self.phase = Phase::AwaitAuth;
                SessionAction::Authenticate { token }
            },
            _ => {
                self.phase = Phase::Failed;
                SessionAction::Fail { msg: "received unexpected message".to_owned() }
            },
        }
    }

    /// The authentication hook answered: success is acknowledged and opens
    /// registration; failure is reported to the agent and fails the session.
    pub fn on_auth(&mut self, outcome: Result<(), Error>) -> (r: SessionAction)
        requires
            old(self).phase() is AwaitAuth,
        ensures
            final(self).registration_model() == old(self).registration_model(),
            outcome is Ok ==> r is SendOk && final(self).phase() is Registering,
            outcome matches Err(e) ==> {
                &&& r matches SessionAction::FailWith { err } && err == e
                &&& final(self).phase() is Failed
            },
    {
        match outcome {
            Ok(()) => {
                self.phase = Phase::Registering;
                SessionAction::SendOk
            },
            Err(e) => {
                self.phase = Phase::Failed;
                SessionAction::FailWith { err: e }
            },
        }
    }

    /// A message during registration. A first `Register` goes to the
    /// authorization hook; a second is declined, since only one name
    /// registration is allowed. `FinishRegister` starts serving the recorded
    /// name, or declines when none was recorded. Anything else fails the
    /// session.
    pub fn on_register(&mut self, msg: Message) -> (r: SessionAction)
        requires
            old(self).phase() is Registering,
        ensures
            msg@ matches MessageModel::Control(ControlModel::Register { id, name }) ==> {
                &&& (old(self).registration_model() is Some ==> {
                    &&& r matches SessionAction::Decline { msg: m } && m@
                        == "only one name registration is allowed"@
                    &&& final(self).phase() is Done
                    &&& final(self).registration_model() == old(self).registration_model()
                })
                &&& (old(self).registration_model() is None ==> {
                    &&& r matches SessionAction::Authorize { name: n } && n@ == name
                    &&& final(self).phase() is AwaitAuthorize
                    &&& final(self).pending_model() == Some((id, name))
                    &&& final(self).registration_model() is None
                })
            },
            msg@ matches MessageModel::Control(ControlModel::FinishRegister) ==> {
                &&& (old(self).registration_model() matches Some((rid, nm)) ==> {
                    &&& r matches SessionAction::Serve { id, name } && id == rid && name@ == nm
                    &&& final(self).phase() is Serving
                    &&& final(self).registration_model() == old(self).registration_model()
                })
                &&& (old(self).registration_model() is None ==> {
                    &&& r matches SessionAction::Decline { msg: m } && m@
                        == "missing name registration"@
                    &&& final(self).phase() is Done
                })
            },
            (!(msg@ matches MessageModel::Control(ControlModel::Register { .. })) && !(
            msg@ matches MessageModel::Control(ControlModel::FinishRegister))) ==> {
                &&& r matches SessionAction::Fail { msg: m } && m@
                    == "received unexpected message"@
                &&& final(self).phase() is Failed
            },
    {
        match msg {
            Message::Control(crate::wire::Control::Register { id, name }) => {
                if self.registration.is_some() {
                    self.phase = Phase::Done;
                    SessionAction::Decline {
                        msg: "only one name registration is allowed".to_owned(),
                    }
                } else {
                    self.phase = Phase::AwaitAuthorize;
                    let action = SessionAction::Authorize { name: name.clone() };
                    self.pending = Some((id, name));
                    action
                }
            },
            Message::Control(crate::wire::Control::FinishRegister) => {
                match &self.registration {
                    Some((rid, nm)) => {
                        self.phase = Phase::Serving;
                        SessionAction::Serve { id: *rid, name: nm.clone() }
                    },
                    None => {
                        self.phase = Phase::Done;
                        SessionAction::Decline { msg: "missing name registration".to_owned() }
                    },
                }
            },
            _ => {
                self.phase = Phase::Failed;
                SessionAction::Fail { msg: "received unexpected message".to_owned() }
            },
        }
    }

    /// The authorization hook answered for the pending name: `true` records
    /// the registration and acknowledges it; `false` and errors are reported
    /// to the agent and end the session cleanly.
    pub fn on_authorize(&mut self, outcome: Result<bool, Error>) -> (r: SessionAction)
        requires
            old(self).phase() is AwaitAuthorize,
            old(self).pending_model() is Some,
        ensures
            outcome matches Ok(true) ==> {
                &&& r is SendOk
                &&& final(self).phase() is Registering
                &&& final(self).registration_model() == old(self).pending_model()
                &&& final(self).pending_model() is None
            },
            outcome matches Ok(false) ==> {
                &&& r matches SessionAction::Decline { msg: m } && m@
                    == "not authorized to use this domain"@
                &&& final(self).phase() is Done
            },
            outcome matches Err(e) ==> {
                &&& r matches SessionAction::DeclineWith { err } && err == e
                &&& final(self).phase() is Done
            },
    {
        match outcome {
            Ok(true) => {
                self.phase = Phase::Registering;
                self.registration = self.pending.take();
                SessionAction::SendOk
            },
            Ok(false) => {
                self.phase = Phase::Done;
                SessionAction::Decline { msg: "not authorized to use this domain".to_owned() }
            },
            Err(e) => {
                self.phase = Phase::Done;
                SessionAction::DeclineWith { err: e }
            },
        }
    }
}

/// The per-session table of public clients: one entry per stream, owning
/// whatever the runtime stores for the accepted connection (its write half
/// and task handle). The ghost set of currently open public connections
/// bounds it: an entry exists only for an open connection, so the table can
/// never hold more entries than connections are open.
pub struct Clients<V> {
    map: HashMap<u32, V>,
    open: Ghost<Set<u32>>,
}

impl<V> Clients<V> {
    /// The entries, keyed by the raw stream identifier.
    pub closed spec fn entries(&self) -> Map<u32, V> {
        self.map@
    }

    /// The streams of the public connections currently open.
    pub closed spec fn open_streams(&self) -> Set<u32> {
        self.open@
    }

    /// Every entry belongs to an open connection.
    pub open spec fn wf(&self) -> bool {
        &&& self.entries().dom() <= self.open_streams()
        &&& self.open_streams().finite()
    }

    /// An empty table: no entries, no open connections.
    pub fn new() -> (r: Clients<V>)
        ensures
            r.wf(),
            r.entries() == Map::<u32, V>::empty(),
            r.open_streams() == Set::<u32>::empty(),
    {
        let r = Clients { map: HashMap::new(), open: Ghost(Set::empty()) };
        proof {
            assert(r.entries() =~= Map::<u32, V>::empty());
        }
        r
    }

    /// A public connection was accepted on this stream and its entry
    /// installed. The operating system guarantees the accepted source port —
    /// and with it the stream — differs from every connection still open.
    pub fn insert(&mut self, id: Stream, v: V)
        requires
            old(self).wf(),
            !old(self).open_streams().contains(id.0),
        ensures
            final(self).wf(),
            final(self).entries() == old(self).entries().insert(id.0, v),
            final(self).open_streams() == old(self).open_streams().insert(id.0),
    {
        self.map.insert(id.0, v);
        self.open = Ghost(self.open@.insert(id.0));
    }

    /// Takes the entry of a stream out, if present: for forwarding to its
    /// writer, or to drop it on a close, a write failure or the pump's exit.
    pub fn take(&mut self, id: Stream) -> (r: Option<V>)
        requires
            old(self).wf(),
        ensures
            final(self).wf(),
            final(self).entries() == old(self).entries().remove(id.0),
            final(self).open_streams() == old(self).open_streams(),
            r is Some <==> old(self).entries().contains_key(id.0),
            r matches Some(v) ==> v == old(self).entries()[id.0],
    {
        let r = self.map.remove(&id.value());
        proof {
            if !old(self).entries().contains_key(id.0) {
                assert(final(self).entries() =~= old(self).entries().remove(id.0));
            }
        }
        r
    }

    /// Puts the entry of a stream back after a successful forward.
    pub fn put_back(&mut self, id: Stream, v: V)
        requires
            old(self).wf(),
            old(self).open_streams().contains(id.0),
        ensures
            final(self).wf(),
            final(self).entries() == old(self).entries().insert(id.0, v),
            final(self).open_streams() == old(self).open_streams(),
    {
        self.map.insert(id.0, v);
    }

    /// The public connection of this stream has closed, after its entry was
    /// dropped.
    pub fn connection_closed(&mut self, id: Stream)
        requires
            old(self).wf(),
            !old(self).entries().contains_key(id.0),
        ensures
            final(self).wf(),
            final(self).entries() == old(self).entries(),
            final(self).open_streams() == old(self).open_streams().remove(id.0),
    {
        self.open = Ghost(self.open@.remove(id.0));
    }

    /// Drops every entry at once: the agent channel ended, all per-stream
    /// pumps are cancelled.
    pub fn clear(&mut self)
        requires
            old(self).wf(),
        ensures
            final(self).wf(),
            final(self).entries() == Map::<u32, V>::empty(),
            final(self).open_streams() == old(self).open_streams(),
    {
        self.map.clear();
        proof {
            assert(final(self).entries() =~= Map::<u32, V>::empty());
        }
    }

    /// The table never outgrows the open connections: its entries are a
    /// subset of the open streams, so their count is bounded by the count of
    /// public connections currently open.
    pub proof fn lemma_bounded(&self)
        requires
            self.wf(),
        ensures
            self.entries().dom().len() <= self.open_streams().len(),
            self.entries().dom().finite(),
    {
        vstd::set_lib::lemma_len_subset(self.entries().dom(), self.open_streams());
    }
}

/// What one message read from the agent does to the serving session.
#[derive(Debug)]
pub enum Demux {
    /// Write these bytes to the public client of this stream, if its entry
    /// is present; a missing entry drops the payload silently.
    Forward { id: Stream, data: Vec<u8> },
    /// Drop the entry of this stream.
    Remove { id: Stream },
    /// The agent ended the session.
    End,
    /// Log the message and ignore it.
    Ignore,
}

/// Decides how a message read from the agent acts on the Clients table:
/// payloads are forwarded to their stream, closes drop the entry, terminate
/// ends the session, anything else is ignored.
pub fn demux(msg: Message) -> (r: Demux)
    ensures
        msg@ matches MessageModel::Payload { id, data } ==> (r matches Demux::Forward {
            id: i,
            data: d,
        } && i == id && d@ == data),
        msg@ matches MessageModel::Control(ControlModel::Close { id }) ==> (r
            matches Demux::Remove { id: i } && i == id),
        msg@ is Terminate ==> r is End,
        (!(msg@ is Payload) && !(msg@ matches MessageModel::Control(ControlModel::Close { .. }))
            && !(msg@ is Terminate)) ==> r is Ignore,
{
    match msg {
        Message::Payload { id, data } => Demux::Forward { id, data },
        Message::Control(crate::wire::Control::Close { id }) => Demux::Remove { id },
        Message::Terminate => Demux::End,
        _ => Demux::Ignore,
    }
}

} // verus!
