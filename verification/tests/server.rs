use esp_playground::replies::{random_from_nanos, secret_of};
use esp_playground::server::{Frame, GuessServer, MAX_LEN};

fn text(s: &str) -> Frame {
    Frame::Text(s.to_string())
}

#[test]
fn secret_comes_from_random_number() {
    assert_eq!(secret_of(41), 42);
    assert_eq!(secret_of(0), 1);
    assert_eq!(secret_of(99), 100);
    assert_eq!(secret_of(100), 1);
    assert_eq!(secret_of(u32::MAX), 96);
}

#[test]
fn new_session_is_welcomed() {
    let mut server = GuessServer::new();
    assert_eq!(server.session_count(), 0);
    let frames = server.open_session(1, 41);
    assert_eq!(frames, vec![text("Welcome to the guessing game! Enter a number between 1 and 100")]);
    assert_eq!(server.session_count(), 1);
    let g = server.game(1).unwrap();
    assert_eq!((g.secret, g.guesses, g.done), (42, 0, false));
}

#[test]
fn full_game_over_websocket() {
    let mut server = GuessServer::new();
    server.open_session(1, 41);
    assert_eq!(server.handle_message(1, b"50"), vec![text("Your first guess was too high")]);
    assert_eq!(server.handle_message(1, b"10"), vec![text("Your second guess was too low")]);
    assert_eq!(
        server.handle_message(1, b"42"),
        vec![text("You guessed 42 on your third try! Refresh to play again"), Frame::Close]
    );
    assert!(server.game(1).unwrap().done);
}

#[test]
fn guess_after_win_repeats_the_win() {
    let mut server = GuessServer::new();
    server.open_session(3, 6);
    assert_eq!(
        server.handle_message(3, b"7"),
        vec![text("You guessed 7 on your first try! Refresh to play again"), Frame::Close]
    );
    assert_eq!(
        server.handle_message(3, b"99"),
        vec![text("You guessed 7 on your first try! Refresh to play again"), Frame::Close]
    );
    assert_eq!(server.game(3).unwrap().guesses, 1);
}

#[test]
fn text_that_is_no_guess_gets_a_hint() {
    let mut server = GuessServer::new();
    server.open_session(1, 41);
    let hint = vec![text("Please enter a number between 1 and 100")];
    assert_eq!(server.handle_message(1, b"abc"), hint);
    assert_eq!(server.handle_message(1, b"0"), hint);
    assert_eq!(server.handle_message(1, b"101"), hint);
    assert_eq!(server.handle_message(1, b""), hint);
    assert_eq!(server.game(1).unwrap().guesses, 0);
}

#[test]
fn bytes_that_are_not_utf8_are_refused() {
    let mut server = GuessServer::new();
    server.open_session(1, 41);
    assert_eq!(server.handle_message(1, &[0xff, 0x34]), vec![text("[UTF-8 Error]")]);
    assert_eq!(server.handle_message(1, &[0xc3]), vec![text("[UTF-8 Error]")]);
    assert_eq!(server.game(1).unwrap().guesses, 0);
}

#[test]
fn padded_message_is_read() {
    let mut server = GuessServer::new();
    server.open_session(1, 41);
    assert_eq!(server.handle_message(1, b" 60\n"), vec![text("Your first guess was too high")]);
}

#[test]
fn oversized_message_is_refused_and_closed() {
    assert_eq!(MAX_LEN, 8);
    assert_eq!(GuessServer::oversize_reply(8), None);
    assert_eq!(GuessServer::oversize_reply(0), None);
    assert_eq!(GuessServer::oversize_reply(9), Some(vec![text("Request too big"), Frame::Close]));
}

#[test]
fn sessions_are_independent() {
    let mut server = GuessServer::new();
    server.open_session(1, 41);
    server.open_session(2, 9);
    assert_eq!(server.handle_message(2, b"5"), vec![text("Your first guess was too low")]);
    assert_eq!(server.game(1).unwrap().guesses, 0);
    assert_eq!(server.game(2).unwrap().guesses, 1);
    server.close_session(2);
    assert_eq!(server.session_count(), 1);
    assert!(server.game(2).is_none());
    assert_eq!(server.game(1).unwrap().secret, 42);
}

#[test]
fn reopening_a_session_starts_a_new_game() {
    let mut server = GuessServer::new();
    server.open_session(1, 41);
    server.handle_message(1, b"50");
    server.open_session(1, 4);
    let g = server.game(1).unwrap();
    assert_eq!((g.secret, g.guesses), (5, 0));
    assert_eq!(server.session_count(), 1);
}

#[test]
fn late_guess_count_uses_long_ordinals() {
    let mut server = GuessServer::new();
    server.open_session(1, 99);
    for _ in 0..20 {
        server.handle_message(1, b"1");
    }
    assert_eq!(server.handle_message(1, b"2"), vec![text("Your 21st guess was too low")]);
    assert_eq!(
        server.handle_message(1, b"100"),
        vec![text("You guessed 100 on your 22nd try! Refresh to play again"), Frame::Close]
    );
}

#[test]
fn random_number_from_clock_nanos() {
    assert_eq!(random_from_nanos(0), 0);
    assert_eq!(random_from_nanos(65536), 0);
    assert_eq!(random_from_nanos(65537), 1);
    assert_eq!(random_from_nanos(999_999_999), 15258);
}

