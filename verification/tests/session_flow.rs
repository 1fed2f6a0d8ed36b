use acme_bot_remote::player::{Player, PubSubClient, PubSubError, WireAction};
use acme_bot_remote::session::RemotePlayer;
use acme_bot_remote::snapshot::MusicPlayerState;

fn fresh_session() -> RemotePlayer {
    RemotePlayer::new("living-room".to_string(), 482913)
}

#[test]
fn commands_fail_fast_while_disconnected() {
    let mut session = fresh_session();
    assert!(!session.connected());
    assert_eq!(session.pause().err().unwrap(), PubSubError::NotConnected);
    assert_eq!(session.resume().err().unwrap(), PubSubError::NotConnected);
    assert_eq!(
        session.publish("x", "some/topic").err().unwrap(),
        PubSubError::NotConnected
    );
    assert_eq!(
        session.subscribe("some/topic").err().unwrap(),
        PubSubError::NotConnected
    );
    // Still disconnected, still unsubscribed: nothing reached the wire.
    assert!(!session.connected());
    assert!(!session.subscribed());
}

#[test]
fn activate_is_idempotent() {
    let mut session = fresh_session();
    assert!(session.activate());
    assert!(!session.activate());
    let _ = session.on_connected();
    assert!(!session.activate());
    assert!(session.connected());
}

#[test]
fn connecting_is_not_connected() {
    let mut session = fresh_session();
    session.activate();
    assert!(!session.connected());
    assert_eq!(session.skip().err().unwrap(), PubSubError::NotConnected);
}

#[test]
fn on_connected_subscribes_and_pokes_the_state_topic() {
    let mut session = fresh_session();
    session.activate();
    let acts = session.on_connected();
    assert_eq!(acts.len(), 2);
    match &acts[0] {
        WireAction::Subscribe(s) => {
            assert_eq!(s.topic, "acme_bot_remote_update/living-room.482913")
        }
        WireAction::Publish(_) => panic!("the subscription must come first"),
    }
    match &acts[1] {
        WireAction::Publish(w) => {
            assert_eq!(w.topic, "acme_bot_remote_update/living-room.482913");
            assert_eq!(w.body, "");
        }
        WireAction::Subscribe(_) => panic!("the poke must come second"),
    }
    assert!(session.connected());
    assert!(session.subscribed());
}

#[test]
fn reconnect_replaces_the_subscription_and_pokes_again() {
    let mut session = fresh_session();
    session.activate();
    let first = session.on_connected();
    session.on_disconnected();
    assert!(!session.connected());
    assert!(!session.subscribed());
    let second = session.on_connected();
    assert_eq!(first.len(), 2);
    assert_eq!(second.len(), 2);
    assert!(session.subscribed());
}

#[test]
fn commands_carry_topic_code_and_op() {
    let mut session = fresh_session();
    session.on_connected();
    let msg = session.pause().unwrap();
    assert_eq!(msg.topic, "acme_bot_remote/living-room");
    assert_eq!(msg.body, "{\"op\":\"pause\",\"code\":482913}");
    let msg = session.set_volume(57).unwrap();
    assert_eq!(msg.body, "{\"op\":\"volume\",\"code\":482913,\"value\":57}");
    let msg = session.set_loop(true).unwrap();
    assert_eq!(msg.body, "{\"op\":\"loop\",\"code\":482913,\"enabled\":true}");
    let msg = session.stop().unwrap();
    assert_eq!(msg.body, "{\"op\":\"stop\",\"code\":482913}");
    let msg = session.clear().unwrap();
    assert_eq!(msg.body, "{\"op\":\"clear\",\"code\":482913}");
    let msg = session.prev().unwrap();
    assert_eq!(msg.body, "{\"op\":\"prev\",\"code\":482913}");
    let msg = session.skip().unwrap();
    assert_eq!(msg.body, "{\"op\":\"skip\",\"code\":482913}");
    let msg = session.move_to(2, "abc").unwrap();
    assert_eq!(
        msg.body,
        "{\"op\":\"move\",\"code\":482913,\"offset\":2,\"id\":\"abc\"}"
    );
    let msg = session.remove(0, "abc").unwrap();
    assert_eq!(
        msg.body,
        "{\"op\":\"remove\",\"code\":482913,\"offset\":0,\"id\":\"abc\"}"
    );
}

#[test]
fn publish_passes_body_and_topic_through() {
    let mut session = fresh_session();
    session.on_connected();
    let msg = session.publish("hello", "some/topic").unwrap();
    assert_eq!(msg.topic, "some/topic");
    assert_eq!(msg.body, "hello");
}

const BROADCAST: &str = "{\"loop\":false,\"volume\":55,\"position\":1,\"state\":\"playing\",\
    \"queue\":[{\"id\":\"a\",\"title\":\"First\",\"uploader\":\"u1\",\"duration\":61,\
    \"webpage_url\":\"https://example.com/a\"},\
    {\"id\":\"b\",\"title\":\"Second\",\"uploader\":\"u2\",\"duration\":252.75,\
    \"webpage_url\":\"https://example.com/b\",\"uploader_url\":null,\
    \"thumbnail\":\"https://example.com/b.jpg\"}],\
    \"current\":{\"id\":\"a\",\"title\":\"First\",\"uploader\":\"u1\",\"duration\":61,\
    \"webpage_url\":\"https://example.com/a\"}}";

#[test]
fn default_snapshot_shows_idle_full_volume_loop_on() {
    let session = fresh_session();
    let snap = session.snapshot();
    assert!(snap.loop_enabled());
    assert_eq!(snap.volume(), 100);
    assert!(snap.state() == MusicPlayerState::Idle);
    assert!(snap.queue().is_empty());
    assert!(snap.current.is_none());
}

#[test]
fn valid_broadcast_replaces_the_snapshot_in_full() {
    let mut session = fresh_session();
    session.on_connected();
    assert!(session.handle_message(BROADCAST));
    let snap = session.snapshot();
    assert!(!snap.loop_enabled());
    assert_eq!(snap.volume(), 55);
    assert!(snap.state() == MusicPlayerState::Playing);
    assert_eq!(snap.queue().len(), 2);
    assert_eq!(snap.queue()[0].id(), "a");
    assert_eq!(snap.queue()[0].title(), "First");
    assert_eq!(snap.queue()[0].duration(), 61);
    assert_eq!(snap.queue()[1].id(), "b");
    // A fractional duration is truncated to whole seconds.
    assert_eq!(snap.queue()[1].duration(), 252);
    assert_eq!(snap.queue()[1].uploader_url(), None);
    assert_eq!(snap.queue()[1].thumbnail(), Some("https://example.com/b.jpg"));
    assert_eq!(snap.current.as_ref().unwrap().id(), "a");
}

#[test]
fn malformed_broadcast_retains_the_previous_snapshot() {
    let mut session = fresh_session();
    session.on_connected();
    assert!(session.handle_message(BROADCAST));
    for bad in [
        "",
        "not json",
        "{\"volume\":55}",
        "{\"loop\":false,\"volume\":101,\"position\":0,\"state\":\"idle\",\"queue\":[],\"current\":null}",
        "{\"loop\":false,\"volume\":55,\"position\":0,\"state\":\"warming_up\",\"queue\":[],\"current\":null}",
        "{\"loop\":false,\"volume\":55,\"position\":0,\"state\":\"idle\",\"queue\":[{\"id\":\"x\"}],\"current\":null}",
        "{\"loop\":false,\"volume\":55,\"position\":0,\"state\":\"idle\",\"queue\":[],\"current\":{\"id\":\"x\"}}",
    ] {
        assert!(!session.handle_message(bad));
        // The previously stored snapshot is unchanged.
        let snap = session.snapshot();
        assert_eq!(snap.volume(), 55);
        assert_eq!(snap.queue().len(), 2);
        assert!(snap.state() == MusicPlayerState::Playing);
    }
}

#[test]
fn duplicate_queue_ids_are_malformed() {
    let mut session = fresh_session();
    session.on_connected();
    assert!(session.handle_message(BROADCAST));
    // Two entries carrying the same identifier: identifiers must stay
    // unique within a queue, so the broadcast is rejected as a whole.
    let dup = "{\"loop\":true,\"volume\":10,\"position\":0,\"state\":\"playing\",\"queue\":[\
        {\"id\":\"a\",\"title\":\"A\",\"uploader\":\"u\",\"duration\":1,\"webpage_url\":\"w\"},\
        {\"id\":\"b\",\"title\":\"B\",\"uploader\":\"u\",\"duration\":2,\"webpage_url\":\"w\"},\
        {\"id\":\"a\",\"title\":\"A again\",\"uploader\":\"u\",\"duration\":3,\"webpage_url\":\"w\"}],\
        \"current\":null}";
    assert!(!session.handle_message(dup));
    // The previously stored snapshot is unchanged.
    assert_eq!(session.snapshot().volume(), 55);
    assert_eq!(session.snapshot().queue().len(), 2);
}

#[test]
fn empty_queue_broadcast_blanks_the_queue() {
    let mut session = fresh_session();
    session.on_connected();
    assert!(session.handle_message(BROADCAST));
    let cleared =
        "{\"loop\":true,\"volume\":100,\"position\":0,\"state\":\"idle\",\"queue\":[],\"current\":null}";
    assert!(session.handle_message(cleared));
    let snap = session.snapshot();
    // Nothing carries over from the prior snapshot.
    assert!(snap.queue().is_empty());
    assert!(snap.current.is_none());
    assert_eq!(snap.volume(), 100);
    assert!(snap.state() == MusicPlayerState::Idle);
}

#[test]
fn move_resolves_offset_from_the_current_snapshot() {
    let mut session = fresh_session();
    session.on_connected();
    // Queue [a, b, c] as rendered.
    let abc = "{\"loop\":true,\"volume\":100,\"position\":0,\"state\":\"playing\",\"queue\":[\
        {\"id\":\"a\",\"title\":\"A\",\"uploader\":\"u\",\"duration\":1,\"webpage_url\":\"w\"},\
        {\"id\":\"b\",\"title\":\"B\",\"uploader\":\"u\",\"duration\":2,\"webpage_url\":\"w\"},\
        {\"id\":\"c\",\"title\":\"C\",\"uploader\":\"u\",\"duration\":3,\"webpage_url\":\"w\"}],\
        \"current\":null}";
    assert!(session.handle_message(abc));
    assert_eq!(session.snapshot().resolve_offset("a"), Some(0));
    // A concurrent reorder to [b, a, c] arrives before the click lands.
    let bac = "{\"loop\":true,\"volume\":100,\"position\":0,\"state\":\"playing\",\"queue\":[\
        {\"id\":\"b\",\"title\":\"B\",\"uploader\":\"u\",\"duration\":2,\"webpage_url\":\"w\"},\
        {\"id\":\"a\",\"title\":\"A\",\"uploader\":\"u\",\"duration\":1,\"webpage_url\":\"w\"},\
        {\"id\":\"c\",\"title\":\"C\",\"uploader\":\"u\",\"duration\":3,\"webpage_url\":\"w\"}],\
        \"current\":null}";
    assert!(session.handle_message(bac));
    // Playing "a" now resolves offset 1, not the stale 0.
    let msg = session.move_track("a").unwrap().unwrap();
    assert_eq!(
        msg.body,
        "{\"op\":\"move\",\"code\":482913,\"offset\":1,\"id\":\"a\"}"
    );
    let msg = session.remove_track("c").unwrap().unwrap();
    assert_eq!(
        msg.body,
        "{\"op\":\"remove\",\"code\":482913,\"offset\":2,\"id\":\"c\"}"
    );
    // An identifier no entry carries produces nothing.
    assert!(session.move_track("zzz").is_none());
}

#[test]
fn disconnect_keeps_the_snapshot_for_display() {
    let mut session = fresh_session();
    session.on_connected();
    assert!(session.handle_message(BROADCAST));
    session.on_disconnected();
    assert!(!session.connected());
    assert_eq!(session.snapshot().volume(), 55);
    assert_eq!(session.pause().err().unwrap(), PubSubError::NotConnected);
}

#[test]
fn deactivate_disconnects_only_a_live_connection() {
    let mut session = fresh_session();
    assert!(!session.deactivate());
    session.activate();
    assert!(!session.deactivate());
    session.activate();
    session.on_connected();
    assert!(session.deactivate());
    assert!(!session.connected());
    assert!(!session.subscribed());
}

#[test]
fn duration_texts_parse_strictly() {
    let mut session = fresh_session();
    session.on_connected();
    let with_duration = |d: &str| {
        format!(
            "{{\"loop\":true,\"volume\":1,\"position\":0,\"state\":\"idle\",\"queue\":[\
            {{\"id\":\"a\",\"title\":\"A\",\"uploader\":\"u\",\"duration\":{},\"webpage_url\":\"w\"}}],\
            \"current\":null}}",
            d
        )
    };
    assert!(session.handle_message(&with_duration("0")));
    assert_eq!(session.snapshot().queue()[0].duration(), 0);
    assert!(session.handle_message(&with_duration("17.0")));
    assert_eq!(session.snapshot().queue()[0].duration(), 17);
    assert!(session.handle_message(&with_duration("3.99")));
    assert_eq!(session.snapshot().queue()[0].duration(), 3);
    // A negative duration is malformed; the snapshot stays.
    assert!(!session.handle_message(&with_duration("-4")));
    assert_eq!(session.snapshot().queue()[0].duration(), 3);
    // So is a non-numeric one.
    assert!(!session.handle_message(&with_duration("\"199\"")));
}
