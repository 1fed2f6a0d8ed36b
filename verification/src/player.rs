//! The client-facing contract of a player session.
//!
//! `PubSubClient` is the publish/subscribe surface: connect, test the
//! connection, publish to a topic, subscribe to a topic. `Player` is the
//! command surface the controls call. Both are event-driven: nothing here
//! blocks on the network. A method that sends returns the message to put
//! on the wire; callers hand it to the transport. Publishing and
//! subscribing fail fast with `NotConnected` while the transport is
//! down, and then nothing reaches the wire.

use vstd::prelude::*;

use crate::commands::{cmd_prefix, command_json, item_suffix, Command};

verus! {

/// Why a publish or subscribe was refused.
#[derive(Debug, PartialEq, Eq, Structural, Clone, Copy)]
pub enum PubSubError {
    /// The client is not connected to the message broker.
    NotConnected,
}

/// The connection lifecycle of a session.
#[derive(Debug, PartialEq, Eq, Structural, Clone, Copy)]
pub enum ConnectionState {
    Disconnected,
    Connecting,
    Connected,
}

/// A message to put on the wire: a body published to a topic.
pub struct WireMessage {
    pub topic: String,
    pub body: String,
}

/// A subscription to open on the wire.
pub struct SubscribeRequest {
    pub topic: String,
}

/// One step the transport is asked to perform.
pub enum WireAction {
    Subscribe(SubscribeRequest),
    Publish(WireMessage),
}

/// The publish/subscribe client surface.
pub trait PubSubClient {
    /// Where the session stands in the connection lifecycle.
    spec fn conn_view(&self) -> ConnectionState;

    /// The topic of the live subscription, when one is held.
    spec fn sub_view(&self) -> Option<Seq<char>>;

    /// Start connecting to the message broker. Idempotent: only a
    /// disconnected session starts connecting; calling it while already
    /// connecting or connected has no additional effect.
    fn activate(&mut self) -> (started: bool)
        ensures
            started == (old(self).conn_view() is Disconnected),
            final(self).conn_view() == (if old(self).conn_view() is Disconnected {
                ConnectionState::Connecting
            } else {
                old(self).conn_view()
            }),
            final(self).sub_view() == old(self).sub_view(),
    ;

    /// Check if the client is connected to the message broker.
    fn connected(&self) -> (r: bool)
        ensures
            r == (self.conn_view() is Connected),
    ;

    /// Check if the client is subscribed to a destination.
    fn subscribed(&self) -> (r: bool)
        ensures
            r == (self.sub_view() is Some),
    ;

    /// Publish a message to the given destination: hands back exactly
    /// the message to put on the wire, or fails with `NotConnected`
    /// while the transport is down — and then nothing is sent.
    fn publish(&self, msg: &str, dest: &str) -> (r: Result<WireMessage, PubSubError>)
        ensures
            r is Ok <==> self.conn_view() is Connected,
            r matches Ok(w) ==> w.topic@ == dest@ && w.body@ == msg@,
            r matches Err(e) ==> e == PubSubError::NotConnected,
    ;

    /// Subscribe to the given destination, replacing any subscription
    /// this session held before: at most one subscription is live at a
    /// time. Fails with `NotConnected` while the transport is down, and
    /// then nothing changes.
    fn subscribe(&mut self, dest: &str) -> (r: Result<SubscribeRequest, PubSubError>)
        ensures
            r is Ok <==> old(self).conn_view() is Connected,
            final(self).conn_view() == old(self).conn_view(),
            r matches Ok(s) ==> s.topic@ == dest@ && (final(self).sub_view() matches Some(t) && t
                == dest@),
            r matches Err(e) ==> e == PubSubError::NotConnected && final(self).sub_view() == old(
                self,
            ).sub_view(),
    ;
}

/// The command surface of a player session. Every command carries the
/// session's access code and goes to the session's command topic; each
/// returns the message to put on the wire, or `NotConnected`.
pub trait Player {
    /// Whether a command can be sent right now.
    spec fn ready(&self) -> bool;

    /// The access code embedded in every command payload.
    spec fn code_view(&self) -> int;

    /// The topic commands are published on.
    spec fn command_topic_view(&self) -> Seq<char>;

    /// Empty the player's queue.
    fn clear(&self) -> (r: Result<WireMessage, PubSubError>)
        ensures
            r is Ok <==> self.ready(),
            r matches Ok(w) ==> w.topic@ == self.command_topic_view() && w.body@ == command_json(
                Command::Clear,
                self.code_view(),
            ),
            r matches Err(e) ==> e == PubSubError::NotConnected,
    ;

    /// Move to the given track in the queue. The offset must be the
    /// entry's current index in the queue snapshot, resolved by
    /// identifier at call time.
    fn move_to(&self, offset: usize, id: &str) -> (r: Result<WireMessage, PubSubError>)
        ensures
            r is Ok <==> self.ready(),
            r matches Ok(w) ==> w.topic@ == self.command_topic_view() && w.body@ == cmd_prefix(
                "move"@,
                self.code_view(),
            ) + item_suffix(offset as int, id@),
            r matches Err(e) ==> e == PubSubError::NotConnected,
    ;

    /// Pause the player.
    fn pause(&self) -> (r: Result<WireMessage, PubSubError>)
        ensures
            r is Ok <==> self.ready(),
            r matches Ok(w) ==> w.topic@ == self.command_topic_view() && w.body@ == command_json(
                Command::Pause,
                self.code_view(),
            ),
            r matches Err(e) ==> e == PubSubError::NotConnected,
    ;

    /// Play the previous track.
    fn prev(&self) -> (r: Result<WireMessage, PubSubError>)
        ensures
            r is Ok <==> self.ready(),
            r matches Ok(w) ==> w.topic@ == self.command_topic_view() && w.body@ == command_json(
                Command::Prev,
                self.code_view(),
            ),
            r matches Err(e) ==> e == PubSubError::NotConnected,
    ;

    /// Remove the given track from the queue. The offset must be the
    /// entry's current index in the queue snapshot, resolved by
    /// identifier at call time.
    fn remove(&self, offset: usize, id: &str) -> (r: Result<WireMessage, PubSubError>)
        ensures
            r is Ok <==> self.ready(),
            r matches Ok(w) ==> w.topic@ == self.command_topic_view() && w.body@ == cmd_prefix(
                "remove"@,
                self.code_view(),
            ) + item_suffix(offset as int, id@),
            r matches Err(e) ==> e == PubSubError::NotConnected,
    ;

    /// Resume the player.
    fn resume(&self) -> (r: Result<WireMessage, PubSubError>)
        ensures
            r is Ok <==> self.ready(),
            r matches Ok(w) ==> w.topic@ == self.command_topic_view() && w.body@ == command_json(
                Command::Resume,
                self.code_view(),
            ),
            r matches Err(e) ==> e == PubSubError::NotConnected,
    ;

    /// Set the loop parameter of the player.
    fn set_loop(&self, enabled: bool) -> (r: Result<WireMessage, PubSubError>)
        ensures
            r is Ok <==> self.ready(),
            r matches Ok(w) ==> w.topic@ == self.command_topic_view() && w.body@ == command_json(
                Command::Loop { enabled },
                self.code_view(),
            ),
            r matches Err(e) ==> e == PubSubError::NotConnected,
    ;

    /// Set the volume level of the player, from 0 to 100.
    fn set_volume(&self, value: u8) -> (r: Result<WireMessage, PubSubError>)
        requires
            value <= 100,
        ensures
            r is Ok <==> self.ready(),
            r matches Ok(w) ==> w.topic@ == self.command_topic_view() && w.body@ == command_json(
                Command::Volume { value },
                self.code_view(),
            ),
            r matches Err(e) ==> e == PubSubError::NotConnected,
    ;

    /// Play the next track.
    fn skip(&self) -> (r: Result<WireMessage, PubSubError>)
        ensures
            r is Ok <==> self.ready(),
            r matches Ok(w) ==> w.topic@ == self.command_topic_view() && w.body@ == command_json(
                Command::Skip,
                self.code_view(),
            ),
            r matches Err(e) ==> e == PubSubError::NotConnected,
    ;
}

} // verus!
