use udpclient::client::{handshake, HangmanClient, JoinError, Lifecycle, SyncError};
use udpclient::connect::{Config, ConnectScene, MenuAction, MenuKey};
use udpclient::game::{Guess, HangmanEvent, Outcome};
use udpclient::joingame::JoinGameScene;
use udpclient::scene::Scenes;
use udpclient::transport::{next_seq, ConnectError, Pending, Reply, Request, TransportError, MAX_SENDS};
use udpclient::wire::{decode_frame, encode_frame, Frame};

fn joined() -> HangmanClient {
    HangmanClient::connect("127.0.0.1:2000".to_string(), Ok(Reply::HandshakeAck)).ok().unwrap()
}

fn in_game() -> HangmanClient {
    let mut c = joined();
    c.join_request(1).unwrap();
    c.join_game(Ok(Reply::JoinAccepted("CAT".to_string(), 6, vec![1]))).unwrap();
    c
}

fn sync(id: u64, token: &str) -> HangmanEvent {
    HangmanEvent::Sync(1, Guess { id, player: 1, guess: token.to_string() })
}

#[test]
fn connect_needs_acknowledgment() {
    let c = joined();
    assert_eq!(c.state(), Lifecycle::Joined);
    assert_eq!(c.address(), "127.0.0.1:2000");
    assert!(c.game().is_none());
    let r = HangmanClient::connect("x".to_string(), Err(TransportError::NoResponse));
    assert!(matches!(r, Err(ConnectError::Unreachable)));
    let r = HangmanClient::connect("x".to_string(), Ok(Reply::JoinRejected));
    assert!(matches!(r, Err(ConnectError::Unreachable)));
    let h = handshake();
    assert_eq!(h.seq, 0);
    assert!(matches!(h.request, Request::Handshake));
}

#[test]
fn join_unknown_game_stays_joined() {
    let mut c = joined();
    let out = c.join_request(999).unwrap();
    assert!(matches!(out.request, Request::Join(999)));
    assert_eq!(c.join_game(Ok(Reply::JoinRejected)), Err(JoinError::UnknownGame));
    assert_eq!(c.state(), Lifecycle::Joined);
    assert!(c.game().is_none());
}

#[test]
fn join_accepted_populates_game() {
    let mut c = joined();
    let out = c.join_request(4).unwrap();
    assert_eq!(out.seq, 1);
    assert_eq!(c.join_game(Ok(Reply::JoinAccepted("CAT".to_string(), 6, vec![1, 2]))), Ok(()));
    assert_eq!(c.state(), Lifecycle::InGame);
    let g = c.game().as_ref().unwrap();
    assert_eq!(g.word(), "CAT");
    assert_eq!(g.max_guesses(), 6);
    assert_eq!(g.attempts_remaining(), 6);
    assert_eq!(g.players(), &vec![1, 2]);
    assert!(matches!(c.join_request(5), Err(JoinError::NotJoined)));
    assert_eq!(c.join_game(Ok(Reply::JoinRejected)), Err(JoinError::NotJoined));
}

#[test]
fn join_with_odd_reply_or_silence() {
    let mut c = joined();
    assert_eq!(c.join_game(Ok(Reply::HandshakeAck)), Err(JoinError::Unexpected));
    assert_eq!(c.state(), Lifecycle::Joined);
    assert_eq!(c.join_game(Err(TransportError::NoResponse)), Err(JoinError::NoResponse));
    assert_eq!(c.state(), Lifecycle::Joined);
}

#[test]
fn failed_guess_leaves_state_untouched() {
    let mut c = in_game();
    c.sync(Ok(Reply::Guessed(sync(1, "Z")))).unwrap();
    let before_len = c.game().as_ref().unwrap().guess_count();
    let before_attempts = c.game().as_ref().unwrap().attempts_remaining();
    c.poll_events();
    c.sync_request("Q".to_string()).unwrap();
    assert_eq!(c.sync(Err(TransportError::NoResponse)).err(), Some(SyncError::NoResponse));
    let g = c.game().as_ref().unwrap();
    assert_eq!(g.guess_count(), before_len);
    assert_eq!(g.attempts_remaining(), before_attempts);
    assert!(c.poll_events().is_empty());
    assert_eq!(c.state(), Lifecycle::InGame);
}

#[test]
fn guess_result_is_applied_queued_and_returned() {
    let mut c = in_game();
    let out = c.sync_request("Z".to_string()).unwrap();
    assert!(matches!(out.request, Request::Guess(ref t) if t == "Z"));
    let e = c.sync(Ok(Reply::Guessed(sync(3, "Z")))).unwrap();
    assert!(matches!(e, HangmanEvent::Sync(1, ref g) if g.id == 3));
    assert_eq!(c.game().as_ref().unwrap().attempts_remaining(), 5);
    let queued = c.poll_events();
    assert_eq!(queued.len(), 1);
    for e in queued {
        c.handle_event(e);
    }
    assert_eq!(c.game().as_ref().unwrap().attempts_remaining(), 5);
    assert_eq!(c.game().as_ref().unwrap().guess_count(), 1);
}

#[test]
fn guess_errors() {
    let mut c = joined();
    assert!(matches!(c.sync_request("A".to_string()), Err(SyncError::NotInGame)));
    assert_eq!(c.sync(Ok(Reply::Guessed(sync(1, "A")))).err(), Some(SyncError::NotInGame));
    let mut c = in_game();
    assert_eq!(c.sync(Ok(Reply::Guessed(HangmanEvent::GameDraw))).err(), Some(SyncError::Unexpected));
    assert_eq!(c.sync(Ok(Reply::JoinRejected)).err(), Some(SyncError::Unexpected));
    assert_eq!(c.game().as_ref().unwrap().guess_count(), 0);
}

#[test]
fn repeated_silence_loses_the_session() {
    let mut c = in_game();
    assert_eq!(c.sync(Err(TransportError::NoResponse)).err(), Some(SyncError::NoResponse));
    assert_eq!(c.sync(Err(TransportError::NoResponse)).err(), Some(SyncError::NoResponse));
    assert_eq!(c.state(), Lifecycle::InGame);
    assert_eq!(c.sync(Err(TransportError::NoResponse)).err(), Some(SyncError::NoResponse));
    assert_eq!(c.state(), Lifecycle::Terminated);
    assert_eq!(c.sync(Ok(Reply::Guessed(sync(1, "A")))).err(), Some(SyncError::NotInGame));
}

#[test]
fn answered_request_resets_the_loss_count() {
    let mut c = in_game();
    c.sync(Err(TransportError::NoResponse)).unwrap_err();
    c.sync(Err(TransportError::NoResponse)).unwrap_err();
    c.sync(Ok(Reply::Guessed(sync(1, "A")))).unwrap();
    c.sync(Err(TransportError::NoResponse)).unwrap_err();
    c.sync(Err(TransportError::NoResponse)).unwrap_err();
    assert_eq!(c.state(), Lifecycle::InGame);
}

#[test]
fn terminal_events_end_the_game() {
    let mut c = in_game();
    c.deliver(HangmanEvent::GameWon(2));
    c.deliver(HangmanEvent::GameDraw);
    for e in c.poll_events() {
        c.handle_event(e);
    }
    assert_eq!(c.state(), Lifecycle::Won(2));
    assert_eq!(c.game().as_ref().unwrap().outcome(), Outcome::Won(2));

    let mut d = in_game();
    d.handle_event(HangmanEvent::GameDraw);
    assert_eq!(d.state(), Lifecycle::Draw);
    d.disconnect();
    assert_eq!(d.state(), Lifecycle::Terminated);
}

#[test]
fn events_before_a_game_are_ignored() {
    let mut c = joined();
    c.handle_event(HangmanEvent::GameWon(1));
    assert_eq!(c.state(), Lifecycle::Joined);
    assert!(c.game().is_none());
}

#[test]
fn sequence_numbers_advance_and_wrap() {
    let mut c = in_game();
    let a = c.sync_request("A".to_string()).unwrap();
    let b = c.sync_request("B".to_string()).unwrap();
    assert_eq!(a.seq, 2);
    assert_eq!(b.seq, 3);
    assert_eq!(next_seq(7), 8);
    assert_eq!(next_seq(u64::MAX), 0);
}

#[test]
fn retransmission_is_bounded() {
    let mut p = Pending::new(42);
    assert!(p.accepts(42));
    assert!(!p.accepts(41));
    let mut resends = 0;
    while p.on_timeout() {
        resends += 1;
    }
    assert_eq!(resends, MAX_SENDS - 1);
    assert_eq!(p.sends, MAX_SENDS);
    assert_eq!(p.seq, 42);
}

#[test]
fn frames_round_trip() {
    let f = Frame::Request(0x0102030405060708, vec![9, 8]);
    let b = encode_frame(&f);
    assert_eq!(b, vec![0, 8, 7, 6, 5, 4, 3, 2, 1, 9, 8]);
    assert!(matches!(decode_frame(&b), Some(Frame::Request(0x0102030405060708, ref p)) if p == &vec![9, 8]));
    let r = encode_frame(&Frame::Reply(1, vec![]));
    assert_eq!(r, vec![1, 1, 0, 0, 0, 0, 0, 0, 0]);
    assert!(matches!(decode_frame(&r), Some(Frame::Reply(1, ref p)) if p.is_empty()));
    let p = encode_frame(&Frame::Push(vec![5]));
    assert_eq!(p, vec![2, 5]);
    assert!(matches!(decode_frame(&p), Some(Frame::Push(ref q)) if q == &vec![5]));
}

#[test]
fn malformed_frames_are_refused() {
    assert!(decode_frame(&[]).is_none());
    assert!(decode_frame(&[3, 1, 2]).is_none());
    assert!(decode_frame(&[0, 1, 2, 3]).is_none());
    assert!(decode_frame(&[1, 0, 0, 0, 0, 0, 0, 0]).is_none());
    assert!(decode_frame(&[2]).is_some());
}

#[test]
fn config_add_appends() {
    let mut c = Config::new(vec!["a".to_string()], "f.toml".to_string());
    c.add("10.0.0.1:5");
    assert_eq!(c.recent_ips(), &vec!["a".to_string(), "10.0.0.1:5".to_string()]);
    assert_eq!(c.file_name(), "f.toml");
    c.set_file_name("g.toml".to_string());
    assert_eq!(c.file_name(), "g.toml");
}

#[test]
fn connect_menu_flow() {
    let mut s = ConnectScene::new(Config::new(vec![], "f.toml".to_string()));
    assert!(matches!(s.handle_key(MenuKey::Enter), MenuAction::Nothing));
    assert!(s.is_adding());
    s.set_address_input("1.2.3.4:9".to_string());
    assert!(matches!(s.handle_key(MenuKey::Enter), MenuAction::Save));
    assert!(!s.is_adding());
    assert_eq!(s.config().recent_ips(), &vec!["1.2.3.4:9".to_string()]);
    assert!(matches!(s.handle_key(MenuKey::Up), MenuAction::Nothing));
    assert_eq!(s.selected_ip(), 0);
    assert!(matches!(s.handle_key(MenuKey::Enter), MenuAction::Connect(ref a) if a == "1.2.3.4:9"));
    s.handle_key(MenuKey::Down);
    s.handle_key(MenuKey::Down);
    assert_eq!(s.selected_ip(), 1);
    assert!(matches!(s.handle_key(MenuKey::Enter), MenuAction::Nothing));
    assert!(s.is_adding());
    s.connect_result(false);
    assert!(s.failed_connect());
    s.clear_failure();
    assert!(!s.failed_connect());
    assert!(!s.has_next_scene());
    s.connect_result(true);
    assert!(s.has_next_scene());
    assert_eq!(s.address_input(), "1.2.3.4:9");
}

#[test]
fn join_screen_flow() {
    let mut s = JoinGameScene::new();
    s.set_game_id(12);
    assert_eq!(s.game_id(), 12);
    s.join_result(&Err(JoinError::UnknownGame));
    assert_eq!(s.game_id(), 0);
    assert!(!s.has_next_scene());
    s.set_game_id(3);
    s.join_result(&Ok(()));
    assert_eq!(s.next_scene(), Scenes::GameScene);
    s.reset_next_scene();
    assert_eq!(s.next_scene(), Scenes::Stay);
    assert_eq!(s.game_id(), 0);
    s.back();
    assert_eq!(s.next_scene(), Scenes::OpeningScene);
}
