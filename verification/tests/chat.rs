use simple_chat::client::Client;
use simple_chat::medium::{Medium, RecvOutcome};
use simple_chat::msg::Message;
use simple_chat::receive::{receive_step, ReadEvent, ReceiveOutcome};
use simple_chat::send::{send_step, SendAction};
use simple_chat::server::IdCounter;
use simple_chat::supervisor::{welcome_banner, FlowKind, FlowPair};

fn line(s: &str) -> ReadEvent {
    ReadEvent::Line(s.as_bytes().to_vec())
}

fn expect_publish(r: ReceiveOutcome) -> Message {
    match r {
        ReceiveOutcome::Publish(m) => m,
        ReceiveOutcome::Renamed => panic!("expected a publication, got a rename"),
        ReceiveOutcome::Close => panic!("expected a publication, got a close"),
    }
}

fn expect_msg(r: RecvOutcome) -> Message {
    match r {
        RecvOutcome::Msg(m) => m,
        RecvOutcome::Empty => panic!("expected a message, subscription was empty"),
        RecvOutcome::Lagged => panic!("expected a message, subscription lagged"),
    }
}

#[test]
fn default_nick_and_id() {
    let c = Client::new(0);
    assert_eq!(c.id, 0);
    assert_eq!(c.nick, b"User 0".to_vec());
    let c = Client::new(42);
    assert_eq!(c.nick, b"User 42".to_vec());
    let c = Client::new(4294967295);
    assert_eq!(c.nick, b"User 4294967295".to_vec());
}

#[test]
fn welcome_banner_text() {
    assert_eq!(
        welcome_banner(),
        b"Welcome to Simple Chat! Use /nick <nick> to set your nick.\n".to_vec()
    );
}

#[test]
fn rename_then_chat_framing() {
    let mut c = Client::new(1);
    let r = receive_step(&mut c, line("/nick Bob\n"));
    assert!(matches!(r, ReceiveOutcome::Renamed));
    assert_eq!(c.nick, b"Bob".to_vec());
    assert_eq!(c.id, 1);
    let m = expect_publish(receive_step(&mut c, line("hello\n")));
    assert_eq!(m.sender_id, 1);
    assert_eq!(m.text, b"Bob > hello".to_vec());
}

#[test]
fn nick_strips_carriage_return() {
    let mut c = Client::new(3);
    receive_step(&mut c, line("/nick Bob\r\n"));
    assert_eq!(c.nick, b"Bob".to_vec());
}

#[test]
fn empty_nick_is_permitted() {
    let mut c = Client::new(3);
    receive_step(&mut c, line("/nick \n"));
    assert_eq!(c.nick, b"".to_vec());
    let m = expect_publish(receive_step(&mut c, line("hi\n")));
    assert_eq!(m.text, b" > hi".to_vec());
}

#[test]
fn buffer_reset_between_lines() {
    let mut c = Client::new(0);
    let m1 = expect_publish(receive_step(&mut c, line("hello\n")));
    let m2 = expect_publish(receive_step(&mut c, line("world\n")));
    assert_eq!(m1.text, b"User 0 > hello".to_vec());
    assert_eq!(m2.text, b"User 0 > world".to_vec());
    assert_ne!(m2.text, b"User 0 > helloworld".to_vec());
}

#[test]
fn eof_and_error_close_receive_flow() {
    let mut c = Client::new(7);
    let before = c.nick.clone();
    assert!(matches!(receive_step(&mut c, ReadEvent::Eof), ReceiveOutcome::Close));
    assert!(matches!(receive_step(&mut c, ReadEvent::ReadError), ReceiveOutcome::Close));
    assert_eq!(c.nick, before);
}

#[test]
fn isolation_and_self_filter() {
    let mut medium = Medium::new(16);
    let c0 = Client::new(0);
    let c1 = Client::new(1);
    let k0 = medium.subscribe();
    let k1 = medium.subscribe();
    let mut sender = Client::new(0);
    let m = expect_publish(receive_step(&mut sender, line("hey\n")));
    assert!(medium.publish(m));
    // The other client receives the line, delimiter restored.
    let got = expect_msg(medium.recv(k1));
    match send_step(&c1, RecvOutcome::Msg(got)) {
        SendAction::Write(out) => assert_eq!(out, b"User 0 > hey\n".to_vec()),
        _ => panic!("the other client should have been handed the line"),
    }
    // The sender's own Send Flow discards the echo.
    let got = expect_msg(medium.recv(k0));
    assert!(matches!(send_step(&c0, RecvOutcome::Msg(got)), SendAction::Skip));
}

#[test]
fn new_subscriber_excluded() {
    let mut medium = Medium::new(16);
    let k0 = medium.subscribe();
    let mut sender = Client::new(0);
    let m = expect_publish(receive_step(&mut sender, line("before\n")));
    assert!(medium.publish(m));
    // A client connecting after the publication never sees the message.
    let k1 = medium.subscribe();
    assert!(matches!(medium.recv(k1), RecvOutcome::Empty));
    // The earlier subscriber still gets it.
    let got = expect_msg(medium.recv(k0));
    assert_eq!(got.text, b"User 0 > before".to_vec());
}

#[test]
fn publish_without_subscribers_fails() {
    let mut medium = Medium::new(16);
    let m = Message { sender_id: 0, text: b"lost".to_vec() };
    assert!(!medium.publish(m));
}

#[test]
fn publish_after_unsubscribe_fails() {
    let mut medium = Medium::new(16);
    let k = medium.subscribe();
    medium.unsubscribe(k);
    let m = Message { sender_id: 0, text: b"lost".to_vec() };
    assert!(!medium.publish(m));
}

#[test]
fn lagged_subscriber_is_dropped() {
    let mut medium = Medium::new(2);
    let k = medium.subscribe();
    for i in 0..3u32 {
        let m = Message { sender_id: 9, text: vec![48 + i as u8] };
        assert!(medium.publish(m));
    }
    // Three messages were published but only two are retained: the
    // subscriber lagged, which is fatal for its Send Flow.
    let r = medium.recv(k);
    assert!(matches!(r, RecvOutcome::Lagged));
    let c = Client::new(1);
    assert!(matches!(send_step(&c, r), SendAction::Close));
}

#[test]
fn caught_up_subscriber_waits() {
    let mut medium = Medium::new(4);
    let k = medium.subscribe();
    let r = medium.recv(k);
    assert!(matches!(r, RecvOutcome::Empty));
    let c = Client::new(1);
    assert!(matches!(send_step(&c, r), SendAction::Wait));
}

#[test]
fn flow_coupling() {
    // The inbound half failed: the Send Flow must be cancelled.
    let mut pair = FlowPair::new();
    assert!(pair.on_flow_exit(FlowKind::Receive));
    assert!(!pair.receive_running);
    assert!(!pair.send_running);
    // And the other way round.
    let mut pair = FlowPair::new();
    assert!(pair.on_flow_exit(FlowKind::Send));
    assert!(!pair.receive_running);
    assert!(!pair.send_running);
}

#[test]
fn rename_delivers_whole_name() {
    // A broadcast formatted after a rename carries the complete new name;
    // one formatted before carries the complete old name — never a mixture.
    let mut c = Client::new(5);
    let m_before = expect_publish(receive_step(&mut c, line("one\n")));
    receive_step(&mut c, line("/nick Charlie\n"));
    let m_after = expect_publish(receive_step(&mut c, line("two\n")));
    assert_eq!(m_before.text, b"User 5 > one".to_vec());
    assert_eq!(m_after.text, b"Charlie > two".to_vec());
}

#[test]
fn id_allocation_is_monotonic() {
    let mut ids = IdCounter::new();
    assert_eq!(ids.take_next(), 0);
    assert_eq!(ids.take_next(), 1);
    assert_eq!(ids.take_next(), 2);
    assert_eq!(ids.next, 3);
}

#[test]
fn three_clients_scenario() {
    let mut medium = Medium::new(16);
    let mut ids = IdCounter::new();
    let mut clients = Vec::new();
    let mut keys = Vec::new();
    for _ in 0..3 {
        let id = ids.take_next();
        clients.push(Client::new(id));
        keys.push(medium.subscribe());
    }
    assert_eq!(clients[0].nick, b"User 0".to_vec());
    assert_eq!(clients[1].nick, b"User 1".to_vec());
    assert_eq!(clients[2].nick, b"User 2".to_vec());

    // Client 1 renames itself, then greets.
    let r = receive_step(&mut clients[1], line("/nick Alice\n"));
    assert!(matches!(r, ReceiveOutcome::Renamed));
    let m = expect_publish(receive_step(&mut clients[1], line("hi all\n")));
    assert_eq!(m.sender_id, 1);
    assert!(medium.publish(m));

    // Clients 0 and 2 each receive `Alice > hi all\n`.
    for &k in [keys[0], keys[2]].iter() {
        let who = if k == keys[0] { &clients[0] } else { &clients[2] };
        let got = expect_msg(medium.recv(k));
        match send_step(who, RecvOutcome::Msg(got)) {
            SendAction::Write(out) => assert_eq!(out, b"Alice > hi all\n".to_vec()),
            _ => panic!("clients 0 and 2 should receive the line"),
        }
    }

    // Client 1 receives nothing for this message: its own echo is skipped.
    let got = expect_msg(medium.recv(keys[1]));
    assert!(matches!(
        send_step(&clients[1], RecvOutcome::Msg(got)),
        SendAction::Skip
    ));
    assert!(matches!(medium.recv(keys[1]), RecvOutcome::Empty));
}
