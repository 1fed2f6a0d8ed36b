//! The connection session: one state machine for the whole remote.
//!
//! The session owns the connection lifecycle, the single live
//! subscription, the latest snapshot, and the identity of the controlled
//! agent. The transport (broker connection, callbacks, timers) lives
//! outside: the session is driven by events — `activate`,
//! `on_connected`, `on_disconnected`, `handle_message` — and answers
//! with the wire actions the transport must perform. Commands fail fast
//! with `NotConnected` while the transport is down and then put nothing
//! on the wire.

use vstd::prelude::*;

use crate::commands::{cmd_prefix, command_json, item_suffix, valid_command, Command};
use crate::player::{
    ConnectionState, Player, PubSubClient, PubSubError, SubscribeRequest, WireAction, WireMessage,
};
use crate::snapshot::{is_default_model, is_first_with_id, snapshot_of_text, PlayerModel};
use crate::topics::{command_topic_text, state_topic_text, RemoteSession};

verus! {

/// A remote player session: the connection state machine together with
/// the snapshot store and the command publisher.
pub struct RemotePlayer {
    /// The identity of the controlled agent.
    pub remote: RemoteSession,
    /// Where the session stands in the connection lifecycle.
    pub conn: ConnectionState,
    /// The topic of the live subscription, when one is held.
    pub subscription: Option<String>,
    /// The latest decoded snapshot; the default one until a valid
    /// broadcast arrives.
    pub snapshot: PlayerModel,
}

impl RemotePlayer {
    /// The stored snapshot is well formed.
    pub open spec fn wf(&self) -> bool {
        self.snapshot.wf()
    }

    /// The state topic of this session.
    pub open spec fn state_topic_view(&self) -> Seq<char> {
        state_topic_text(self.remote.remote_id@, self.remote.access_code as int)
    }

    /// Creates a disconnected session for the given agent, showing the
    /// default snapshot.
    pub fn new(remote_id: String, access_code: i64) -> (r: Self)
        ensures
            r.remote.remote_id == remote_id,
            r.remote.access_code == access_code,
            r.conn is Disconnected,
            r.subscription is None,
            is_default_model(r.snapshot),
            r.wf(),
    {
        RemotePlayer {
            remote: RemoteSession::new(remote_id, access_code),
            conn: ConnectionState::Disconnected,
            subscription: None,
            snapshot: PlayerModel::default(),
        }
    }

    /// The latest snapshot, read-only.
    pub fn snapshot(&self) -> (r: &PlayerModel)
        ensures
            r == &self.snapshot,
    {
        &self.snapshot
    }

    /// The transport reports an established connection. The session
    /// becomes connected and answers with the bootstrap actions, in
    /// order: one subscription to the state topic — always replacing
    /// whatever subscription was held before, also after a reconnect —
    /// and one empty-body publish to the state topic, the poke that asks
    /// the agent to rebroadcast the current snapshot. Nothing else is
    /// sent before these two actions.
    pub fn on_connected(&mut self) -> (acts: Vec<WireAction>)
        ensures
            final(self).conn is Connected,
            final(self).subscription matches Some(t) && t@ == old(self).state_topic_view(),
            final(self).remote == old(self).remote,
            final(self).snapshot == old(self).snapshot,
            acts@.len() == 2,
            acts@[0] matches WireAction::Subscribe(s) && s.topic@ == old(self).state_topic_view(),
            acts@[1] matches WireAction::Publish(w) && w.topic@ == old(self).state_topic_view()
                && w.body@ == Seq::<char>::empty(),
    {
        self.conn = ConnectionState::Connected;
        let topic = self.remote.state_topic();
        self.subscription = Some(topic.clone());
        let mut acts: Vec<WireAction> = Vec::new();
        acts.push(WireAction::Subscribe(SubscribeRequest { topic: topic.clone() }));
        acts.push(WireAction::Publish(WireMessage { topic, body: String::new() }));
        acts
    }

    /// The transport reports a lost connection. The subscription dies
    /// with it; the snapshot stays, so the presentation layer keeps
    /// showing the last known state.
    pub fn on_disconnected(&mut self)
        ensures
            final(self).conn is Disconnected,
            final(self).subscription is None,
            final(self).remote == old(self).remote,
            final(self).snapshot == old(self).snapshot,
    {
        self.conn = ConnectionState::Disconnected;
        self.subscription = None;
    }

    /// Stores a decoded broadcast: a present snapshot replaces the
    /// stored one in full — no field carries over — and an absent one
    /// (a malformed broadcast) leaves the stored snapshot untouched.
    pub fn apply_snapshot(&mut self, decoded: Option<PlayerModel>) -> (replaced: bool)
        ensures
            replaced == (decoded is Some),
            match decoded {
                Some(m) => final(self).snapshot == m,
                None => final(self).snapshot == old(self).snapshot,
            },
            final(self).conn == old(self).conn,
            final(self).subscription == old(self).subscription,
            final(self).remote == old(self).remote,
    {
        match decoded {
            Some(m) => {
                self.snapshot = m;
                true
            },
            None => false,
        }
    }

    /// An inbound message body arrives on the state topic: decode it
    /// and store the result. A body that decodes to a snapshot replaces
    /// the stored one with exactly that snapshot; a malformed body
    /// never corrupts or blanks the visible state.
    pub fn handle_message(&mut self, body: &str) -> (replaced: bool)
        requires
            old(self).wf(),
        ensures
            final(self).wf(),
            replaced == (snapshot_of_text(body@) is Some),
            replaced ==> Some(final(self).snapshot@) == snapshot_of_text(body@),
            !replaced ==> final(self).snapshot == old(self).snapshot,
            final(self).conn == old(self).conn,
            final(self).subscription == old(self).subscription,
            final(self).remote == old(self).remote,
    {
        let decoded = PlayerModel::decode(body);
        self.apply_snapshot(decoded)
    }

    /// Tears the session down. The transport must be told to disconnect
    /// exactly when the session still held a connection; after this, no
    /// further event may be fed to the session, so a callback of a torn
    /// down transport must be dropped by the driver, not delivered.
    pub fn deactivate(&mut self) -> (disconnect: bool)
        ensures
            disconnect == (old(self).conn is Connected),
            final(self).conn is Disconnected,
            final(self).subscription is None,
            final(self).remote == old(self).remote,
            final(self).snapshot == old(self).snapshot,
    {
        let was_connected = match self.conn {
            ConnectionState::Connected => true,
            _ => false,
        };
        self.conn = ConnectionState::Disconnected;
        self.subscription = None;
        was_connected
    }

    /// Builds one command under this session's access code and hands
    /// back the message for the command topic, or fails fast with
    /// `NotConnected` while the transport is down.
    pub fn send_command(&self, cmd: Command) -> (r: Result<WireMessage, PubSubError>)
        requires
            valid_command(cmd),
        ensures
            r is Ok <==> self.conn is Connected,
            r matches Ok(w) ==> w.topic@ == command_topic_text(self.remote.remote_id@) && w.body@
                == command_json(cmd, self.remote.access_code as int),
            r matches Err(e) ==> e == PubSubError::NotConnected,
    {
        match self.conn {
            ConnectionState::Connected => Ok(
                WireMessage {
                    topic: self.remote.command_topic(),
                    body: cmd.to_json(self.remote.access_code),
                },
            ),
            _ => Err(PubSubError::NotConnected),
        }
    }

    /// Move to the entry carrying this identifier. The offset is
    /// resolved from the current snapshot at call time — never from an
    /// index captured when a control was rendered, since the queue may
    /// have been reordered since. Nothing is produced when no entry
    /// carries the identifier.
    pub fn move_track(&self, id: &str) -> (r: Option<Result<WireMessage, PubSubError>>)
        ensures
            match r {
                None => forall|j: int|
                    0 <= j < self.snapshot.queue@.len() ==> self.snapshot.queue@[j].id@ != id@,
                Some(Err(e)) => e == PubSubError::NotConnected && !(self.conn is Connected),
                Some(Ok(w)) => self.conn is Connected && w.topic@ == command_topic_text(
                    self.remote.remote_id@,
                ) && (exists|i: int|
                    is_first_with_id(self.snapshot.queue@, id@, i) && w.body@ == cmd_prefix(
                        "move"@,
                        self.remote.access_code as int,
                    ) + item_suffix(i, id@)),
            },
    {
        match self.snapshot.resolve_offset(id) {
            Some(offset) => {
                let r = self.send_command(Command::Move { offset, id: String::from_str(id) });
                proof {
                    assert(is_first_with_id(self.snapshot.queue@, id@, offset as int));
                }
                Some(r)
            },
            None => None,
        }
    }

    /// Remove the entry carrying this identifier, with the offset
    /// resolved from the current snapshot at call time, exactly as in
    /// [`Self::move_track`].
    pub fn remove_track(&self, id: &str) -> (r: Option<Result<WireMessage, PubSubError>>)
        ensures
            match r {
                None => forall|j: int|
                    0 <= j < self.snapshot.queue@.len() ==> self.snapshot.queue@[j].id@ != id@,
                Some(Err(e)) => e == PubSubError::NotConnected && !(self.conn is Connected),
                Some(Ok(w)) => self.conn is Connected && w.topic@ == command_topic_text(
                    self.remote.remote_id@,
                ) && (exists|i: int|
                    is_first_with_id(self.snapshot.queue@, id@, i) && w.body@ == cmd_prefix(
                        "remove"@,
                        self.remote.access_code as int,
                    ) + item_suffix(i, id@)),
            },
    {
        match self.snapshot.resolve_offset(id) {
            Some(offset) => {
                let r = self.send_command(Command::Remove { offset, id: String::from_str(id) });
                proof {
                    assert(is_first_with_id(self.snapshot.queue@, id@, offset as int));
                }
                Some(r)
            },
            None => None,
        }
    }

    /// Stop the player. (The one command kind the `Player` surface of
    /// the on-screen controls does not expose.)
    pub fn stop(&self) -> (r: Result<WireMessage, PubSubError>)
        ensures
            r is Ok <==> self.conn is Connected,
            r matches Ok(w) ==> w.topic@ == command_topic_text(self.remote.remote_id@) && w.body@
                == command_json(Command::Stop, self.remote.access_code as int),
            r matches Err(e) ==> e == PubSubError::NotConnected,
    {
        self.send_command(Command::Stop)
    }
}

impl PubSubClient for RemotePlayer {
    open spec fn conn_view(&self) -> ConnectionState {
        self.conn
    }

    open spec fn sub_view(&self) -> Option<Seq<char>> {
        match self.subscription {
            Some(t) => Some(t@),
            None => None,
        }
    }

    fn activate(&mut self) -> (started: bool) {
        match self.conn {
            ConnectionState::Disconnected => {
                self.conn = ConnectionState::Connecting;
                true
            },
            _ => false,
        }
    }

    fn connected(&self) -> (r: bool) {
        match self.conn {
            ConnectionState::Connected => true,
            _ => false,
        }
    }

    fn subscribed(&self) -> (r: bool) {
        match &self.subscription {
            Some(_) => true,
            None => false,
        }
    }

    fn publish(&self, msg: &str, dest: &str) -> (r: Result<WireMessage, PubSubError>) {
        match self.conn {
            ConnectionState::Connected => Ok(
                WireMessage { topic: String::from_str(dest), body: String::from_str(msg) },
            ),
            _ => Err(PubSubError::NotConnected),
        }
    }

    fn subscribe(&mut self, dest: &str) -> (r: Result<SubscribeRequest, PubSubError>) {
        match self.conn {
            ConnectionState::Connected => {
                let topic = String::from_str(dest);
                self.subscription = Some(topic.clone());
                Ok(SubscribeRequest { topic })
            },
            _ => Err(PubSubError::NotConnected),
        }
    }
}

impl Player for RemotePlayer {
    open spec fn ready(&self) -> bool {
        self.conn is Connected
    }

    open spec fn code_view(&self) -> int {
        self.remote.access_code as int
    }

    open spec fn command_topic_view(&self) -> Seq<char> {
        command_topic_text(self.remote.remote_id@)
    }

    fn clear(&self) -> (r: Result<WireMessage, PubSubError>) {
        self.send_command(Command::Clear)
    }

    fn move_to(&self, offset: usize, id: &str) -> (r: Result<WireMessage, PubSubError>) {
        self.send_command(Command::Move { offset, id: String::from_str(id) })
    }

    fn pause(&self) -> (r: Result<WireMessage, PubSubError>) {
        self.send_command(Command::Pause)
    }

    fn prev(&self) -> (r: Result<WireMessage, PubSubError>) {
        self.send_command(Command::Prev)
    }

    fn remove(&self, offset: usize, id: &str) -> (r: Result<WireMessage, PubSubError>) {
        self.send_command(Command::Remove { offset, id: String::from_str(id) })
    }

    fn resume(&self) -> (r: Result<WireMessage, PubSubError>) {
        self.send_command(Command::Resume)
    }

    fn set_loop(&self, enabled: bool) -> (r: Result<WireMessage, PubSubError>) {
        self.send_command(Command::Loop { enabled })
    }

    fn set_volume(&self, value: u8) -> (r: Result<WireMessage, PubSubError>) {
        self.send_command(Command::Volume { value })
    }

    fn skip(&self) -> (r: Result<WireMessage, PubSubError>) {
        self.send_command(Command::Skip)
    }
}

} // verus!
