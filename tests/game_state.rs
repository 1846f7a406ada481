use std::sync::{Arc, Mutex};

use udpclient::board::{board, covers_position, GameScene};
use udpclient::game::{chars_of, contains_token, matches_at, GameState, Guess, HangmanEvent, Outcome};
use udpclient::queue::{apply_all, EventQueue};
use udpclient::scene::Scenes;

fn guess(id: u64, player: u64, token: &str) -> Guess {
    Guess { id, player, guess: token.to_string() }
}

fn sync(id: u64, player: u64, token: &str) -> HangmanEvent {
    HangmanEvent::Sync(player, guess(id, player, token))
}

fn cat_game() -> GameState {
    GameState::new("CAT".to_string(), 6, vec![1, 2])
}

#[test]
fn attempts_accounting_cat() {
    let mut g = cat_game();
    assert_eq!(g.attempts_remaining(), 6);
    g.apply(&sync(1, 1, "Z"));
    g.apply(&sync(2, 1, "X"));
    g.apply(&sync(3, 1, "Q"));
    assert_eq!(g.attempts_remaining(), 3);
    g.apply(&sync(4, 1, "A"));
    assert_eq!(g.attempts_remaining(), 3);
    assert_eq!(g.guess_count(), 4);
    assert_eq!(g.wrong_count(), 3);
    let b = board(&g);
    assert_eq!(b.attempts, 3);
    assert_eq!(b.revealed, vec![false, true, false]);
    let wrong: Vec<&str> = b.wrong.iter().map(|g| g.guess.as_str()).collect();
    assert_eq!(wrong, vec!["Z", "X", "Q"]);
}

#[test]
fn attempts_never_below_zero() {
    let mut g = GameState::new("CAT".to_string(), 2, vec![]);
    g.apply(&sync(1, 1, "Z"));
    g.apply(&sync(2, 1, "X"));
    g.apply(&sync(3, 1, "Q"));
    assert_eq!(g.attempts_remaining(), 0);
    assert_eq!(g.wrong_count(), 3);
}

#[test]
fn same_sync_twice_counts_once() {
    let mut once = cat_game();
    once.apply(&sync(7, 1, "Z"));
    let mut twice = cat_game();
    twice.apply(&sync(7, 1, "Z"));
    twice.apply(&sync(7, 1, "Z"));
    assert_eq!(twice.attempts_remaining(), once.attempts_remaining());
    assert_eq!(twice.guess_count(), once.guess_count());
    assert_eq!(twice.attempts_remaining(), 5);
    assert_eq!(twice.guess_count(), 1);
}

#[test]
fn repeated_token_with_new_id_is_recorded() {
    let mut g = cat_game();
    g.apply(&sync(1, 1, "Z"));
    g.apply(&sync(2, 2, "Z"));
    assert_eq!(g.guess_count(), 2);
    assert_eq!(g.attempts_remaining(), 4);
}

#[test]
fn win_then_draw_stays_won() {
    let mut g = cat_game();
    g.apply(&HangmanEvent::GameWon(2));
    g.apply(&HangmanEvent::GameDraw);
    assert_eq!(g.outcome(), Outcome::Won(2));
    g.apply(&sync(9, 1, "Z"));
    assert_eq!(g.guess_count(), 0);
    assert_eq!(g.attempts_remaining(), 6);
}

#[test]
fn draw_then_win_stays_draw() {
    let mut g = cat_game();
    g.apply(&HangmanEvent::GameDraw);
    g.apply(&HangmanEvent::GameWon(1));
    assert_eq!(g.outcome(), Outcome::Draw);
}

#[test]
fn unknown_event_changes_nothing() {
    let mut g = cat_game();
    g.apply(&HangmanEvent::Other);
    assert_eq!(g.outcome(), Outcome::InProgress);
    assert_eq!(g.guess_count(), 0);
    assert_eq!(g.players(), &vec![1, 2]);
}

#[test]
fn player_joined_extends_roster_once() {
    let mut g = cat_game();
    g.apply(&HangmanEvent::PlayerJoined(3));
    g.apply(&HangmanEvent::PlayerJoined(3));
    g.apply(&HangmanEvent::PlayerJoined(1));
    assert_eq!(g.players(), &vec![1, 2, 3]);
}

#[test]
fn substring_guess_reveals_its_span() {
    let mut g = GameState::new("BANANA".to_string(), 6, vec![]);
    g.apply(&sync(1, 1, "NA"));
    assert_eq!(g.attempts_remaining(), 6);
    let b = board(&g);
    assert_eq!(b.revealed, vec![false, false, true, true, true, true]);
    g.apply(&sync(2, 1, "NAB"));
    assert_eq!(g.attempts_remaining(), 5);
}

#[test]
fn token_search() {
    let w = chars_of("hello");
    assert_eq!(w, vec!['h', 'e', 'l', 'l', 'o']);
    assert!(contains_token(&w, &chars_of("ll")));
    assert!(contains_token(&w, &chars_of("o")));
    assert!(contains_token(&w, &chars_of("")));
    assert!(!contains_token(&w, &chars_of("lo!")));
    assert!(!contains_token(&w, &chars_of("hellos")));
    assert!(matches_at(&w, &chars_of("lo"), 3));
    assert!(!matches_at(&w, &chars_of("lo"), 2));
    assert!(!matches_at(&w, &chars_of("lo"), 9));
    assert!(covers_position(&w, &chars_of("ll"), 3));
    assert!(!covers_position(&w, &chars_of("ll"), 4));
}

#[test]
fn queue_drains_oldest_first() {
    let mut q = EventQueue::new();
    assert!(q.is_empty());
    q.push(HangmanEvent::GameWon(1));
    q.push(HangmanEvent::GameDraw);
    assert_eq!(q.len(), 2);
    let drained = q.drain_all();
    assert!(matches!(drained[0], HangmanEvent::GameWon(1)));
    assert!(matches!(drained[1], HangmanEvent::GameDraw));
    assert!(q.is_empty());
    assert!(q.drain_all().is_empty());
}

#[test]
fn arrival_order_is_kept_and_reverse_differs() {
    let mut q = EventQueue::new();
    q.push(sync(1, 1, "C"));
    q.push(sync(2, 2, "Z"));
    let drained = q.drain_all();
    let mut in_order = cat_game();
    apply_all(&mut in_order, &drained);
    let order: Vec<u64> = in_order.guesses().iter().map(|g| g.id).collect();
    assert_eq!(order, vec![1, 2]);

    let reversed: Vec<HangmanEvent> = drained.iter().rev().map(|e| e.duplicate()).collect();
    let mut other = cat_game();
    apply_all(&mut other, &reversed);
    let order: Vec<u64> = other.guesses().iter().map(|g| g.id).collect();
    assert_eq!(order, vec![2, 1]);
}

#[test]
fn two_producers_keep_their_own_order() {
    let q = Arc::new(Mutex::new(EventQueue::new()));
    let first = Arc::clone(&q);
    let second = Arc::clone(&q);
    for k in 0..50u64 {
        first.lock().unwrap().push(sync(1000 + k, 1, "Z"));
        if k % 3 == 0 {
            second.lock().unwrap().push(sync(2000 + k, 2, "Z"));
        }
    }
    let drained = q.lock().unwrap().drain_all();
    assert_eq!(drained.len(), 67);
    for player in [1u64, 2u64] {
        let ids: Vec<u64> = drained
            .iter()
            .filter_map(|e| match e {
                HangmanEvent::Sync(p, g) if *p == player => Some(g.id),
                _ => None,
            })
            .collect();
        let expected: Vec<u64> =
            (0..50u64).filter(|k| player == 1 || k % 3 == 0).map(|k| player * 1000 + k).collect();
        assert_eq!(ids, expected);
    }
    let mut a = cat_game();
    apply_all(&mut a, &drained);
    let mut b = cat_game();
    apply_all(&mut b, &drained);
    assert_eq!(a.guess_count(), b.guess_count());
    assert_eq!(a.guess_count(), 67);
    assert_eq!(a.attempts_remaining(), 0);
    assert!(q.lock().unwrap().is_empty());
}

#[test]
fn input_letters_become_guesses() {
    assert_eq!(GameScene::guess_for_input('a'), Some("a".to_string()));
    assert_eq!(GameScene::guess_for_input('Q'), Some("Q".to_string()));
    assert_eq!(GameScene::guess_for_input('é'), Some("é".to_string()));
    assert_eq!(GameScene::guess_for_input('1'), None);
    assert_eq!(GameScene::guess_for_input(' '), None);
}

#[test]
fn game_scene_reacts_to_events() {
    let g = cat_game();
    let mut s = GameScene::new();
    assert_eq!(s.next_scene(), Scenes::Stay);
    assert!(s.handle_hangman_event(&sync(1, 1, "Z"), &g));
    assert!(!s.handle_hangman_event(&sync(2, 1, "A"), &g));
    assert_eq!(s.next_scene(), Scenes::Stay);
    assert!(!s.handle_hangman_event(&HangmanEvent::GameWon(1), &g));
    assert_eq!(s.next_scene(), Scenes::OpeningScene);
    s.reset_next_scene();
    assert!(!s.handle_hangman_event(&HangmanEvent::GameDraw, &g));
    assert_eq!(s.next_scene(), Scenes::OpeningScene);
    assert_eq!(GameScene::flash_millis(true), 1000);
    assert_eq!(GameScene::flash_millis(false), 100);
}
