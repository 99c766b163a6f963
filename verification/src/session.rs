//! The session state and the message dispatcher that is its single writer.

use vstd::prelude::*;
use rand::Rng;
use crate::digits::{dec_seq, parse_i64, parsed_i64, push_char, u64_to_string};

verus! {

/// All mutable state of one application session.
#[derive(Debug, Clone)]
pub struct Session {
    /// Seconds shown by the watch; set by timer ticks.
    pub elapsed_seconds: u32,
    /// Whether the periodic watch subscription should run.
    pub timer_active: bool,
    /// The plus/minus counter.
    pub counter: i64,
    /// The last generated or manually edited password.
    pub password: String,
    /// The hidden number of the guessing game, always within 1..=100.
    pub secret_number: i64,
    /// The raw text of the guess field.
    pub guess_input: String,
    /// What the last guess or validation said.
    pub feedback: String,
    /// Guesses taken since the secret number was last chosen.
    pub attempts: u64,
}

/// Messages emitted by the interface and the timer, consumed one at a time by
/// the dispatcher.
#[derive(Debug, Clone)]
pub enum Message {
    Increment,
    Decrement,
    InputPassword(String),
    ClearPassword,
    GeneratePassword,
    InputNumber(String),
    ClearNumber,
    CheckNumber,
    NewGame,
    LaunchUrl(String),
    ToggleWatch,
    WatchTick(u32),
}

/// A side effect requested by a transition but not part of the session state.
#[derive(Debug, Clone, PartialEq, Eq)]
pub enum Effect {
    /// Hand the given URL to the system's opener.
    OpenUrl(String),
}

/// The prompt shown while a fresh secret waits to be guessed.
pub open spec fn prompt_feedback() -> Seq<char> {
    "A number from 1 to 100 is hidden. Guess it!"@
}

/// The feedback on text that is no number.
pub open spec fn invalid_feedback() -> Seq<char> {
    "invalid input"@
}

/// The feedback on a guess below the secret.
pub open spec fn higher_feedback() -> Seq<char> {
    "go higher"@
}

/// The feedback on a guess above the secret.
pub open spec fn lower_feedback() -> Seq<char> {
    "go lower"@
}

/// The winning feedback, naming the secret.
pub open spec fn correct_feedback(secret: int) -> Seq<char> {
    "correct: "@ + dec_seq(secret)
}

/// What a checked guess says, by its place relative to the secret.
pub open spec fn guess_feedback(guess: int, secret: int) -> Seq<char> {
    if guess == secret {
        correct_feedback(secret)
    } else if guess < secret {
        higher_feedback()
    } else {
        lower_feedback()
    }
}

/// A symbol the password generator may draw: a lower-case letter or a digit.
pub open spec fn is_password_char(c: char) -> bool {
    (97 <= c as int && c as int <= 122) || (48 <= c as int && c as int <= 57)
}

/// The shape of every generated password: 16 symbols of the alphabet.
pub open spec fn generated_password(s: Seq<char>) -> bool {
    s.len() == 16 && (forall|i: int| 0 <= i < s.len() ==> is_password_char(#[trigger] s[i]))
}

pub open spec fn eq_watch(a: Session, b: Session) -> bool {
    b.elapsed_seconds == a.elapsed_seconds && b.timer_active == a.timer_active
}

pub open spec fn eq_counter(a: Session, b: Session) -> bool {
    b.counter == a.counter
}

pub open spec fn eq_password(a: Session, b: Session) -> bool {
    b.password@ == a.password@
}

pub open spec fn eq_secret(a: Session, b: Session) -> bool {
    b.secret_number == a.secret_number
}

pub open spec fn eq_guess_input(a: Session, b: Session) -> bool {
    b.guess_input@ == a.guess_input@
}

pub open spec fn eq_feedback(a: Session, b: Session) -> bool {
    b.feedback@ == a.feedback@
}

pub open spec fn eq_attempts(a: Session, b: Session) -> bool {
    b.attempts == a.attempts
}

/// The two sessions hold the same values everywhere.
pub open spec fn same_session(a: Session, b: Session) -> bool {
    eq_watch(a, b) && eq_counter(a, b) && eq_password(a, b) && eq_secret(a, b) && eq_guess_input(
        a,
        b,
    ) && eq_feedback(a, b) && eq_attempts(a, b)
}

/// How one message takes the session from `pre` to `post`, with `eff` the side
/// effect the caller of the dispatcher must perform.
pub open spec fn transition(pre: Session, msg: Message, post: Session, eff: Option<Effect>) -> bool {
    match msg {
        Message::Increment => post.counter == pre.counter + 1 && eq_watch(pre, post) && eq_password(
            pre,
            post,
        ) && eq_secret(pre, post) && eq_guess_input(pre, post) && eq_feedback(pre, post)
            && eq_attempts(pre, post) && eff is None,
        Message::Decrement => post.counter == pre.counter - 1 && eq_watch(pre, post) && eq_password(
            pre,
            post,
        ) && eq_secret(pre, post) && eq_guess_input(pre, post) && eq_feedback(pre, post)
            && eq_attempts(pre, post) && eff is None,
        Message::InputPassword(text) => post.password@ == text@ && eq_watch(pre, post) && eq_counter(
            pre,
            post,
        ) && eq_secret(pre, post) && eq_guess_input(pre, post) && eq_feedback(pre, post)
            && eq_attempts(pre, post) && eff is None,
        Message::ClearPassword => post.password@ == Seq::<char>::empty() && eq_watch(pre, post)
            && eq_counter(pre, post) && eq_secret(pre, post) && eq_guess_input(pre, post)
            && eq_feedback(pre, post) && eq_attempts(pre, post) && eff is None,
        Message::GeneratePassword => generated_password(post.password@) && eq_watch(pre, post)
            && eq_counter(pre, post) && eq_secret(pre, post) && eq_guess_input(pre, post)
            && eq_feedback(pre, post) && eq_attempts(pre, post) && eff is None,
        Message::InputNumber(text) => post.guess_input@ == text@ && eq_watch(pre, post)
            && eq_counter(pre, post) && eq_password(pre, post) && eq_secret(pre, post)
            && eq_feedback(pre, post) && eq_attempts(pre, post) && eff is None,
        Message::ClearNumber => post.guess_input@ == Seq::<char>::empty() && eq_watch(pre, post)
            && eq_counter(pre, post) && eq_password(pre, post) && eq_secret(pre, post)
            && eq_feedback(pre, post) && eq_attempts(pre, post) && eff is None,
        Message::CheckNumber => eq_watch(pre, post) && eq_counter(pre, post) && eq_password(
            pre,
            post,
        ) && eq_secret(pre, post) && eq_guess_input(pre, post) && (match parsed_i64(
            pre.guess_input@,
        ) {
            Some(guess) => post.attempts == pre.attempts + 1 && post.feedback@ == guess_feedback(
                guess,
                pre.secret_number as int,
            ),
            None => eq_attempts(pre, post) && post.feedback@ == invalid_feedback(),
        }) && eff is None,
        Message::NewGame => 1 <= post.secret_number <= 100 && post.guess_input@
            == Seq::<char>::empty() && post.attempts == 0 && post.feedback@ == prompt_feedback()
            && eq_watch(pre, post) && eq_counter(pre, post) && eq_password(pre, post)
            && eff is None,
        Message::LaunchUrl(url) => same_session(pre, post) && (eff matches Some(Effect::OpenUrl(u))
            && u@ == url@),
        Message::ToggleWatch => post.timer_active == !pre.timer_active && post.elapsed_seconds
            == pre.elapsed_seconds && eq_counter(pre, post) && eq_password(pre, post) && eq_secret(
            pre,
            post,
        ) && eq_guess_input(pre, post) && eq_feedback(pre, post) && eq_attempts(pre, post)
            && eff is None,
        Message::WatchTick(t) => post.elapsed_seconds == t && post.timer_active == pre.timer_active
            && eq_counter(pre, post) && eq_password(pre, post) && eq_secret(pre, post)
            && eq_guess_input(pre, post) && eq_feedback(pre, post) && eq_attempts(pre, post)
            && eff is None,
    }
}

/// Relies on rand's thread-local generator and Rng::gen_range, which returns a
/// uniform sample of the given range and panics only when the range is empty.
#[verifier::external_body]
fn random_below(n: u64) -> (r: u64)
    requires
        1 <= n,
    ensures
        r < n,
{
    rand::thread_rng().gen_range(0..n)
}

/// A fresh secret for the guessing game.
fn fresh_secret() -> (n: i64)
    ensures
        1 <= n <= 100,
{
    (random_below(100) + 1) as i64
}

/// One symbol of the password alphabet: the 26 lower-case letters followed by
/// the 10 digits.
fn alphabet_char(i: u64) -> (c: char)
    requires
        i < 36,
    ensures
        is_password_char(c),
        i < 26 ==> c as int == 97 + i as int,
        i >= 26 ==> c as int == 48 + (i - 26) as int,
{
    let code: u8 = if i < 26 {
        97 + i as u8
    } else {
        48 + (i as u8 - 26)
    };
    code as char
}

/// Draws 16 independent uniform samples from the password alphabet.
fn generate_password() -> (r: String)
    ensures
        generated_password(r@),
{
    let mut pw = String::new();
    let mut i: usize = 0;
    while i < 16
        invariant
            i <= 16,
            pw@.len() == i,
            forall|j: int| 0 <= j < i ==> is_password_char(#[trigger] pw@[j]),
        decreases 16 - i,
    {
        let idx = random_below(36);
        let c = alphabet_char(idx);
        push_char(&mut pw, c);
        i += 1;
    }
    pw
}

/// The winning feedback as text, naming the secret.
fn correct_string(secret: i64) -> (r: String)
    requires
        1 <= secret,
    ensures
        r@ == correct_feedback(secret as int),
{
    let mut r = String::from_str("correct: ");
    let digits_text = u64_to_string(secret as u64);
    r.append(digits_text.as_str());
    r
}

impl Session {
    /// The session invariant: the secret number stays within the game's range.
    pub open spec fn wf(self) -> bool {
        1 <= self.secret_number <= 100
    }

    /// Starts a session: everything zeroed, a fresh secret, the opening prompt.
    pub fn new() -> (s: Session)
        ensures
            s.wf(),
            s.elapsed_seconds == 0,
            !s.timer_active,
            s.counter == 0,
            s.password@ == Seq::<char>::empty(),
            1 <= s.secret_number <= 100,
            s.guess_input@ == Seq::<char>::empty(),
            s.feedback@ == prompt_feedback(),
            s.attempts == 0,
    {
        Session {
            elapsed_seconds: 0,
            timer_active: false,
            counter: 0,
            password: String::new(),
            secret_number: fresh_secret(),
            guess_input: String::new(),
            feedback: String::from_str("A number from 1 to 100 is hidden. Guess it!"),
            attempts: 0,
        }
    }

    /// The dispatcher: applies one message to the session and reports the side
    /// effect, if any, that the caller must perform.
    pub fn update(&mut self, message: Message) -> (eff: Option<Effect>)
        requires
            old(self).wf(),
            message is Increment ==> old(self).counter < i64::MAX,
            message is Decrement ==> old(self).counter > i64::MIN,
            message is CheckNumber && parsed_i64(old(self).guess_input@) is Some ==> old(
                self,
            ).attempts < u64::MAX,
        ensures
            final(self).wf(),
            transition(*old(self), message, *final(self), eff),
    {
        match message {
            Message::Increment => {
                self.counter = self.counter + 1;
                None
            },
            Message::Decrement => {
                self.counter = self.counter - 1;
                None
            },
            Message::InputPassword(text) => {
                self.password = text;
                None
            },
            Message::ClearPassword => {
                self.password = String::new();
                None
            },
            Message::GeneratePassword => {
                self.password = generate_password();
                None
            },
            Message::InputNumber(text) => {
                self.guess_input = text;
                None
            },
            Message::ClearNumber => {
                self.guess_input = String::new();
                None
            },
            Message::CheckNumber => {
                match parse_i64(self.guess_input.as_str()) {
                    Some(guess) => {
                        if guess == self.secret_number {
                            self.feedback = correct_string(self.secret_number);
                        } else if guess < self.secret_number {
                            self.feedback = String::from_str("go higher");
                        } else {
                            self.feedback = String::from_str("go lower");
                        }
                        self.attempts = self.attempts + 1;
                    },
                    None => {
                        self.feedback = String::from_str("invalid input");
                    },
                }
                None
            },
            Message::NewGame => {
                self.secret_number = fresh_secret();
                self.guess_input = String::new();
                self.attempts = 0;
                self.feedback = String::from_str("A number from 1 to 100 is hidden. Guess it!");
                None
            },
            Message::LaunchUrl(url) => Some(Effect::OpenUrl(url)),
            Message::ToggleWatch => {
                self.timer_active = !self.timer_active;
                None
            },
            Message::WatchTick(t) => {
                self.elapsed_seconds = t;
                None
            },
        }
    }

    /// Whether the periodic watch subscription should be running.
    pub fn timer_should_run(&self) -> (r: bool)
        ensures
            r == self.timer_active,
    {
        self.timer_active
    }
}

/// The tick producer's step: the count it emits grows by exactly one each
/// second, so the sequence is strictly increasing from wherever it started.
pub fn next_tick(t: u32) -> (r: u32)
    requires
        t < u32::MAX,
    ensures
        r == t + 1,
{
    t + 1
}

} // verus!
