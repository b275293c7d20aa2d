use echo_reactor::connection::Connection;
use echo_reactor::connection::ReadOutcome;
use echo_reactor::connection::WriteOutcome;
use echo_reactor::reactor::Dispatch;
use echo_reactor::reactor::Reactor;
use echo_reactor::reactor::SERVER_TOKEN;
use echo_reactor::reactor::dispatch;
use echo_reactor::registry::Registry;

#[test]
fn dispatch_hangup_wins_over_everything() {
    assert_eq!(dispatch(3, true, true, true), Dispatch::RemoveConn);
    assert_eq!(dispatch(SERVER_TOKEN, true, false, true), Dispatch::RemoveConn);
    assert_eq!(dispatch(0, false, false, true), Dispatch::RemoveConn);
}

#[test]
fn dispatch_readable_listener_accepts() {
    assert_eq!(dispatch(SERVER_TOKEN, true, false, false), Dispatch::Accept);
    assert_eq!(dispatch(SERVER_TOKEN, true, true, false), Dispatch::Accept);
}

#[test]
fn dispatch_readable_connection_reads() {
    assert_eq!(dispatch(5, true, false, false), Dispatch::ConnReadable);
    assert_eq!(dispatch(5, true, true, false), Dispatch::ConnReadable);
}

#[test]
fn dispatch_writable_connection_writes() {
    assert_eq!(dispatch(5, false, true, false), Dispatch::ConnWritable);
}

#[test]
fn dispatch_writable_listener_is_fatal() {
    assert_eq!(dispatch(SERVER_TOKEN, false, true, false), Dispatch::FatalListenerWritable);
}

#[test]
fn dispatch_empty_notification_is_nothing() {
    assert_eq!(dispatch(5, false, false, false), Dispatch::Nothing);
}

#[test]
fn accept_assigns_fresh_distinct_tokens() {
    // two near-simultaneous connections coalesced into one listener
    // notification: the accept loop must register both
    let mut r = Reactor::new();
    let t0 = r.accept_one().unwrap();
    let t1 = r.accept_one().unwrap();
    assert_ne!(t0, t1);
    assert_ne!(t0, SERVER_TOKEN);
    assert_ne!(t1, SERVER_TOKEN);
    assert!(r.contains(t0));
    assert!(r.contains(t1));
    let c = r.get_conn(t0).unwrap();
    assert_eq!(c.token, t0);
    assert_eq!(c.pending_len(), 0);
    assert!(c.interest.readable);
    assert!(!c.interest.writable);
    assert!(!c.closed);
}

#[test]
fn token_is_reused_after_removal() {
    let mut r = Reactor::new();
    let t0 = r.accept_one().unwrap();
    let t1 = r.accept_one().unwrap();
    r.on_hangup(t0);
    assert!(!r.contains(t0));
    let t2 = r.accept_one().unwrap();
    assert_eq!(t2, t0);
    assert!(r.contains(t1));
    assert!(r.contains(t2));
}

#[test]
fn hangup_removes_despite_pending_data() {
    let mut r = Reactor::new();
    let tok = r.accept_one().unwrap();
    r.conn_read_event(tok, ReadOutcome::Data(vec![1, 2, 3]));
    assert_eq!(r.get_conn(tok).unwrap().pending_len(), 3);
    r.on_hangup(tok);
    assert!(!r.contains(tok));
}

#[test]
fn hangup_of_unknown_token_is_harmless() {
    let mut r = Reactor::new();
    let tok = r.accept_one().unwrap();
    r.on_hangup(9999);
    assert!(r.contains(tok));
}

#[test]
fn reap_removes_only_closed_connections() {
    let mut r = Reactor::new();
    let tok = r.accept_one().unwrap();
    assert!(!r.reap_if_closed(tok));
    assert!(r.contains(tok));
    r.conn_read_event(tok, ReadOutcome::Closed);
    assert!(r.reap_if_closed(tok));
    assert!(!r.contains(tok));
    assert!(!r.reap_if_closed(tok));
}

#[test]
fn zero_bytes_then_close_echoes_nothing_and_removes() {
    let mut r = Reactor::new();
    let tok = r.accept_one().unwrap();
    let again = r.conn_read_event(tok, ReadOutcome::Closed);
    assert!(!again);
    assert_eq!(r.get_conn(tok).unwrap().pending_len(), 0);
    assert!(r.reap_if_closed(tok));
    assert!(!r.contains(tok));
}

#[test]
fn ping_is_echoed_and_token_becomes_invalid() {
    let mut r = Reactor::new();
    let tok = r.accept_one().unwrap();

    // the peer sends "ping" in one write
    let again = r.conn_read_event(tok, ReadOutcome::Data(b"ping".to_vec()));
    assert!(again);
    let pending = r.get_conn(tok).unwrap().send_buffer.clone();
    assert_eq!(pending, b"ping".to_vec());

    // the transport takes all four bytes: exactly "ping" went back
    let retry = r.conn_write_event(tok, WriteOutcome::Wrote(4));
    assert!(!retry);
    assert_eq!(r.get_conn(tok).unwrap().pending_len(), 0);

    // the peer closes; the connection is reaped and its token no
    // longer resolves
    r.conn_read_event(tok, ReadOutcome::WouldBlock);
    r.conn_read_event(tok, ReadOutcome::Closed);
    assert!(r.reap_if_closed(tok));
    assert!(!r.contains(tok));
    assert!(r.get_conn(tok).is_none());
}

#[test]
fn registry_insert_lookup_remove() {
    let mut reg = Registry::new(10);
    let t0 = reg.insert(Connection::new(0)).unwrap();
    let t1 = reg.insert(Connection::new(0)).unwrap();
    assert_ne!(t0, t1);
    assert!(reg.contains(t0));
    assert!(reg.get(t1).is_some());
    let gone = reg.remove(t0).unwrap();
    assert_eq!(gone.pending_len(), 0);
    assert!(!reg.contains(t0));
    assert!(reg.get(t0).is_none());
    assert!(reg.remove(t0).is_none());
    assert!(reg.contains(t1));
}

#[test]
fn registry_full_refuses_then_accepts_after_removal() {
    let mut reg = Registry::new(1);
    let t0 = reg.insert(Connection::new(0)).unwrap();
    assert!(reg.insert(Connection::new(0)).is_none());
    assert!(reg.remove(t0).is_some());
    let t1 = reg.insert(Connection::new(0)).unwrap();
    assert_eq!(t1, t0);
}

#[test]
fn registry_get_mut_updates_in_place() {
    let mut reg = Registry::new(4);
    let tok = reg.insert(Connection::new(3)).unwrap();
    let c = reg.get_mut(tok);
    c.on_read(ReadOutcome::Data(vec![7, 8]));
    assert_eq!(reg.get(tok).unwrap().send_buffer, vec![7, 8]);
    assert!(reg.get(tok).unwrap().interest.writable);
}
