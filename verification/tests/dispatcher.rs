use session_core::session::{Effect, Message, Session};

#[test]
fn new_session_defaults() {
    let s = Session::new();
    assert_eq!(s.elapsed_seconds, 0);
    assert!(!s.timer_active);
    assert_eq!(s.counter, 0);
    assert_eq!(s.password, "");
    assert!(1 <= s.secret_number && s.secret_number <= 100);
    assert_eq!(s.guess_input, "");
    assert_eq!(s.feedback, "A number from 1 to 100 is hidden. Guess it!");
    assert_eq!(s.attempts, 0);
}

#[test]
fn check_guess_correct() {
    let mut s = Session::new();
    s.secret_number = 42;
    s.guess_input = String::from("42");
    let eff = s.update(Message::CheckNumber);
    assert_eq!(eff, None);
    assert_eq!(s.feedback, "correct: 42");
    assert_eq!(s.attempts, 1);
}

#[test]
fn check_guess_low_asks_higher() {
    let mut s = Session::new();
    s.secret_number = 42;
    s.guess_input = String::from("10");
    let _ = s.update(Message::CheckNumber);
    assert_eq!(s.feedback, "go higher");
    assert_eq!(s.attempts, 1);
}

#[test]
fn check_guess_high_asks_lower() {
    let mut s = Session::new();
    s.secret_number = 42;
    s.guess_input = String::from("90");
    let _ = s.update(Message::CheckNumber);
    assert_eq!(s.feedback, "go lower");
    assert_eq!(s.attempts, 1);
}

#[test]
fn check_guess_invalid_keeps_attempts() {
    let mut s = Session::new();
    s.secret_number = 42;
    s.guess_input = String::from("10");
    let _ = s.update(Message::CheckNumber);
    assert_eq!(s.attempts, 1);
    s.guess_input = String::from("forty");
    let _ = s.update(Message::CheckNumber);
    assert_eq!(s.feedback, "invalid input");
    assert_eq!(s.attempts, 1);
}

#[test]
fn scenario_two_hundred_against_fifty() {
    let mut s = Session::new();
    s.secret_number = 50;
    let _ = s.update(Message::InputNumber(String::from("200")));
    assert_eq!(s.guess_input, "200");
    let _ = s.update(Message::CheckNumber);
    assert_eq!(s.feedback, "go lower");
    assert_eq!(s.attempts, 1);
}

#[test]
fn generate_password_shape() {
    let mut s = Session::new();
    let _ = s.update(Message::GeneratePassword);
    assert_eq!(s.password.chars().count(), 16);
    assert!(s.password.chars().all(|c| c.is_ascii_lowercase() || c.is_ascii_digit()));
}

#[test]
fn generate_password_not_constant() {
    let mut s = Session::new();
    let _ = s.update(Message::GeneratePassword);
    let first = s.password.clone();
    let _ = s.update(Message::GeneratePassword);
    // 36 ^ 16 possibilities: two equal draws would be astronomically unlikely
    assert_ne!(first, s.password);
}

#[test]
fn clear_password_after_generate() {
    let mut s = Session::new();
    let _ = s.update(Message::GeneratePassword);
    let _ = s.update(Message::ClearPassword);
    assert_eq!(s.password, "");
}

#[test]
fn input_fields_are_verbatim() {
    let mut s = Session::new();
    let _ = s.update(Message::InputPassword(String::from("not from the alphabet!")));
    assert_eq!(s.password, "not from the alphabet!");
    let _ = s.update(Message::InputNumber(String::from(" 12")));
    assert_eq!(s.guess_input, " 12");
    let _ = s.update(Message::ClearNumber);
    assert_eq!(s.guess_input, "");
}

#[test]
fn counter_increment_decrement_cancel() {
    let mut s = Session::new();
    s.counter = 5;
    for _ in 0..7 {
        let _ = s.update(Message::Increment);
    }
    assert_eq!(s.counter, 12);
    for _ in 0..7 {
        let _ = s.update(Message::Decrement);
    }
    assert_eq!(s.counter, 5);
}

#[test]
fn toggle_watch_twice_keeps_elapsed() {
    let mut s = Session::new();
    let _ = s.update(Message::ToggleWatch);
    assert!(s.timer_active);
    let _ = s.update(Message::WatchTick(7));
    assert_eq!(s.elapsed_seconds, 7);
    let _ = s.update(Message::ToggleWatch);
    assert!(!s.timer_active);
    assert_eq!(s.elapsed_seconds, 7);
    let _ = s.update(Message::ToggleWatch);
    assert!(s.timer_active);
    assert_eq!(s.elapsed_seconds, 7);
    // a restarted watch reports from 1 again
    let _ = s.update(Message::WatchTick(1));
    assert_eq!(s.elapsed_seconds, 1);
}

#[test]
fn new_game_resets_and_covers_range() {
    let mut s = Session::new();
    s.guess_input = String::from("5");
    let _ = s.update(Message::CheckNumber);
    assert_eq!(s.attempts, 1);
    let mut seen = [false; 100];
    for _ in 0..10_000 {
        let _ = s.update(Message::NewGame);
        assert!(1 <= s.secret_number && s.secret_number <= 100);
        assert_eq!(s.attempts, 0);
        assert_eq!(s.guess_input, "");
        assert_eq!(s.feedback, "A number from 1 to 100 is hidden. Guess it!");
        seen[(s.secret_number - 1) as usize] = true;
    }
    assert!(seen.iter().all(|&hit| hit));
}

#[test]
fn launch_url_is_effect_only() {
    let mut s = Session::new();
    let secret = s.secret_number;
    let eff = s.update(Message::LaunchUrl(String::from("https://example.com")));
    assert_eq!(
        eff,
        Some(Effect::OpenUrl(String::from("https://example.com")))
    );
    assert_eq!(s.counter, 0);
    assert_eq!(s.attempts, 0);
    assert_eq!(s.elapsed_seconds, 0);
    assert_eq!(s.secret_number, secret);
    assert_eq!(s.password, "");
    assert_eq!(s.guess_input, "");
}

#[test]
fn timer_should_run_follows_flag() {
    let mut s = Session::new();
    assert!(!s.timer_should_run());
    let _ = s.update(Message::ToggleWatch);
    assert!(s.timer_should_run());
}
