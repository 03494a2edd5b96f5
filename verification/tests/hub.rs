use catport::connection::{hub_event, Connection, ConnectionAction, ConnectionEvent, ConnectionState};
use catport::message::{encode, MessageKind};
use catport::session::{Refresh, Session, HUB_CAPACITY};
use tokio::sync::broadcast::error::{RecvError, TryRecvError};

const STAMP: &str = "2024-05-01T12:00:00+00:00";

fn session_with(content: &str) -> Session {
    Session::new("abc12345".to_string(), "notes.txt".to_string(), content.to_string())
}

fn attach(session: &mut Session) -> (Connection, String) {
    let (mut conn, greeting) = session.accept("abc12345", STAMP).unwrap();
    session.advance(&mut conn, ConnectionEvent::InitialDelivered, STAMP);
    (conn, greeting)
}

#[test]
fn publishing_without_subscribers_stores_the_content() {
    let mut session = session_with("a");
    for round in 0..1000u64 {
        session.publish(format!("version {}", round));
        assert_eq!(session.version(), round + 1);
    }
    assert_eq!(session.snapshot(), "version 999");
    assert_eq!(session.viewer_count(), 0);
    assert_eq!(session.identifier(), "abc12345");
    assert_eq!(session.watched_path(), "notes.txt");
}

#[test]
fn new_session_has_no_viewer_and_no_publication() {
    let session = session_with("hello");
    assert_eq!(session.viewer_count(), 0);
    assert_eq!(session.version(), 0);
    assert_eq!(session.snapshot(), "hello");
    assert_eq!(HUB_CAPACITY, 100);
}

#[test]
fn late_viewer_gets_current_snapshot_and_nothing_older() {
    let mut session = session_with("v0");
    for round in 1..=7 {
        session.publish(format!("v{}", round));
    }
    let (mut conn, greeting) = attach(&mut session);
    assert_eq!(greeting, encode(MessageKind::FileContent, "v7", STAMP));
    assert_eq!(conn.feed().unwrap().try_recv(), Err(TryRecvError::Empty));

    session.publish("v8".to_string());
    session.publish("v9".to_string());
    let feed = conn.feed().unwrap();
    assert_eq!(feed.try_recv(), Ok("v8".to_string()));
    assert_eq!(feed.try_recv(), Ok("v9".to_string()));
    assert_eq!(feed.try_recv(), Err(TryRecvError::Empty));
}

#[test]
fn nothing_published_between_snapshot_and_streaming_is_lost() {
    let mut session = session_with("v0");
    let (mut conn, greeting) = session.accept("abc12345", STAMP).unwrap();
    assert_eq!(greeting, encode(MessageKind::FileContent, "v0", STAMP));
    session.publish("v1".to_string());
    session.advance(&mut conn, ConnectionEvent::InitialDelivered, STAMP);
    assert_eq!(conn.feed().unwrap().try_recv(), Ok("v1".to_string()));
}

#[test]
fn paused_viewer_is_told_of_the_lag_and_ends_on_the_latest_content() {
    let mut session = session_with("v0");
    let (mut conn, _) = attach(&mut session);
    let published = 300u64;
    for round in 1..=published {
        session.publish(format!("v{}", round));
    }

    let skipped = match conn.feed().unwrap().try_recv() {
        Err(TryRecvError::Lagged(skipped)) => skipped,
        other => panic!("expected a lag report, got {:?}", other),
    };
    assert!(skipped >= 1);
    assert_eq!(
        session.advance(&mut conn, ConnectionEvent::Lagged(skipped), STAMP),
        ConnectionAction::Wait
    );
    assert_eq!(conn.state(), ConnectionState::Streaming);
    assert_eq!(session.viewer_count(), 1);

    let mut forwarded = Vec::new();
    loop {
        match conn.feed().unwrap().try_recv() {
            Ok(content) => match session.advance(&mut conn, ConnectionEvent::Published(content), STAMP) {
                ConnectionAction::Forward(text) => forwarded.push(text),
                other => panic!("unexpected action {:?}", other),
            },
            Err(TryRecvError::Empty) => break,
            Err(other) => panic!("unexpected {:?}", other),
        }
    }
    assert_eq!(forwarded.len() as u64 + skipped, published);
    let expected: Vec<String> = ((skipped + 1)..=published)
        .map(|round| encode(MessageKind::FileUpdate, &format!("v{}", round), STAMP))
        .collect();
    assert_eq!(forwarded, expected);
    assert_eq!(forwarded.last().unwrap(), &encode(MessageKind::FileUpdate, &session.snapshot(), STAMP));
    assert_eq!(session.snapshot(), "v300");
}

#[test]
fn slow_viewer_does_not_hold_back_the_others() {
    let mut session = session_with("v0");
    let (mut slow, _) = attach(&mut session);
    let (mut quick, _) = attach(&mut session);
    for round in 1..=250u64 {
        session.publish(format!("v{}", round));
        assert_eq!(quick.feed().unwrap().try_recv(), Ok(format!("v{}", round)));
    }
    assert_eq!(quick.feed().unwrap().try_recv(), Err(TryRecvError::Empty));
    assert!(matches!(slow.feed().unwrap().try_recv(), Err(TryRecvError::Lagged(_))));
    assert_eq!(session.viewer_count(), 2);
}

#[test]
fn hub_outlives_its_viewers() {
    let mut session = session_with("v0");
    let (mut conn, _) = attach(&mut session);
    session.advance(&mut conn, ConnectionEvent::ViewerGone, STAMP);
    assert_eq!(session.viewer_count(), 0);
    session.publish("v1".to_string());
    assert_eq!(session.snapshot(), "v1");
    let (mut again, greeting) = attach(&mut session);
    assert_eq!(greeting, encode(MessageKind::FileContent, "v1", STAMP));
    session.publish("v2".to_string());
    assert_eq!(again.feed().unwrap().try_recv(), Ok("v2".to_string()));
}

#[test]
fn dropping_the_session_closes_the_feed() {
    let mut session = session_with("v0");
    let (mut conn, _) = attach(&mut session);
    drop(session);
    assert_eq!(conn.feed().unwrap().try_recv(), Err(TryRecvError::Closed));
}

#[test]
fn refresh_publishes_what_was_read() {
    let mut session = session_with("old");
    let (mut conn, _) = attach(&mut session);
    assert_eq!(session.refresh(Some("new".to_string())), Refresh::Published);
    assert_eq!(session.snapshot(), "new");
    assert_eq!(session.version(), 1);
    assert_eq!(conn.feed().unwrap().try_recv(), Ok("new".to_string()));
}

#[test]
fn refresh_after_failed_read_changes_nothing() {
    let mut session = session_with("old");
    let (mut conn, _) = attach(&mut session);
    assert_eq!(session.refresh(None), Refresh::Unreadable);
    assert_eq!(session.snapshot(), "old");
    assert_eq!(session.version(), 0);
    assert_eq!(session.viewer_count(), 1);
    assert_eq!(conn.feed().unwrap().try_recv(), Err(TryRecvError::Empty));
}

#[test]
fn same_content_twice_is_published_twice() {
    let mut session = session_with("a");
    let (mut conn, _) = attach(&mut session);
    session.publish("b".to_string());
    session.publish("b".to_string());
    assert_eq!(session.version(), 2);
    let feed = conn.feed().unwrap();
    assert_eq!(feed.try_recv(), Ok("b".to_string()));
    assert_eq!(feed.try_recv(), Ok("b".to_string()));
}

#[test]
fn started_session_has_an_issued_identifier() {
    let session = Session::start("notes.txt".to_string(), "a".to_string());
    let identifier = session.identifier().to_string();
    assert_eq!(identifier.len(), 8);
    assert!(identifier.chars().all(|c| c.is_ascii_digit() || ('a'..='f').contains(&c)));
    assert!(session.knows(&identifier));
    assert_eq!(session.snapshot(), "a");
    assert_eq!(session.watched_path(), "notes.txt");
    assert_eq!(session.viewer_count(), 0);
    assert_eq!(session.version(), 0);
}

#[test]
fn hub_outcomes_become_events() {
    assert_eq!(hub_event(Ok("b".to_string())), ConnectionEvent::Published("b".to_string()));
    assert_eq!(hub_event(Ok(String::new())), ConnectionEvent::Published(String::new()));
    assert_eq!(hub_event(Err(RecvError::Lagged(1))), ConnectionEvent::Lagged(1));
    assert_eq!(hub_event(Err(RecvError::Lagged(u64::MAX))), ConnectionEvent::Lagged(u64::MAX));
    assert_eq!(hub_event(Err(RecvError::Closed)), ConnectionEvent::HubClosed);
}

#[test]
fn blocking_receive_feeds_the_connection() {
    let mut session = session_with("v0");
    let (mut conn, _) = attach(&mut session);
    session.publish("v1".to_string());
    let event = hub_event(conn.feed().unwrap().blocking_recv());
    assert_eq!(event, ConnectionEvent::Published("v1".to_string()));
    assert_eq!(
        session.advance(&mut conn, event, STAMP),
        ConnectionAction::Forward(encode(MessageKind::FileUpdate, "v1", STAMP))
    );
    for round in 0..200 {
        session.publish(format!("w{}", round));
    }
    let event = hub_event(conn.feed().unwrap().blocking_recv());
    assert!(matches!(event, ConnectionEvent::Lagged(skipped) if skipped >= 1));
    assert_eq!(session.advance(&mut conn, event, STAMP), ConnectionAction::Wait);
    assert_eq!(conn.state(), ConnectionState::Streaming);
    drop(session);
    let mut last = None;
    loop {
        match hub_event(conn.feed().unwrap().blocking_recv()) {
            ConnectionEvent::Published(content) => last = Some(content),
            ConnectionEvent::HubClosed => break,
            other => panic!("unexpected {:?}", other),
        }
    }
    assert_eq!(last, Some("w199".to_string()));
}
