//! Laws of the dispatcher, stated over the transition relation and proved once
//! for all sessions.

use vstd::prelude::*;
use crate::digits::parsed_i64;
use crate::session::{
    correct_feedback, eq_attempts, eq_counter, eq_feedback, eq_guess_input, eq_password, eq_secret,
    eq_watch, higher_feedback, invalid_feedback, lower_feedback, same_session, transition, Effect,
    Message, Session,
};

verus! {

/// `pre` reaches `post` by applying the given messages in order.
pub open spec fn runs_to(pre: Session, msgs: Seq<Message>, post: Session) -> bool
    decreases msgs.len(),
{
    if msgs.len() == 0 {
        same_session(pre, post)
    } else {
        exists|mid: Session, eff: Option<Effect>|
            transition(pre, msgs[0], mid, eff) && runs_to(mid, msgs.skip(1), post)
    }
}

/// A guess equal to the secret draws the winning feedback and counts exactly
/// one more attempt.
pub proof fn lemma_check_guess_correct(pre: Session, post: Session, eff: Option<Effect>)
    requires
        transition(pre, Message::CheckNumber, post, eff),
        parsed_i64(pre.guess_input@) == Some(pre.secret_number as int),
    ensures
        post.feedback@ == correct_feedback(pre.secret_number as int),
        post.attempts == pre.attempts + 1,
{
}

/// A guess below the secret asks to go higher, one above asks to go lower, and
/// either way one more attempt is counted.
pub proof fn lemma_check_guess_off(pre: Session, post: Session, eff: Option<Effect>, guess: int)
    requires
        transition(pre, Message::CheckNumber, post, eff),
        parsed_i64(pre.guess_input@) == Some(guess),
        guess != pre.secret_number as int,
    ensures
        guess < pre.secret_number as int ==> post.feedback@ == higher_feedback(),
        guess > pre.secret_number as int ==> post.feedback@ == lower_feedback(),
        post.attempts == pre.attempts + 1,
{
}

/// Text that is no number draws the invalid-input feedback and leaves the
/// attempt count alone.
pub proof fn lemma_check_guess_invalid(pre: Session, post: Session, eff: Option<Effect>)
    requires
        transition(pre, Message::CheckNumber, post, eff),
        parsed_i64(pre.guess_input@) is None,
    ensures
        post.feedback@ == invalid_feedback(),
        post.attempts == pre.attempts,
{
}

/// A run of increments raises the counter by its length and moves nothing
/// else.
pub proof fn lemma_increment_run(pre: Session, post: Session, n: nat)
    requires
        runs_to(pre, Seq::new(n, |i: int| Message::Increment), post),
    ensures
        post.counter == pre.counter + n,
        eq_watch(pre, post),
        eq_password(pre, post),
        eq_secret(pre, post),
        eq_guess_input(pre, post),
        eq_feedback(pre, post),
        eq_attempts(pre, post),
    decreases n,
{
    let msgs = Seq::new(n, |i: int| Message::Increment);
    if n > 0 {
        let (mid, eff) = choose|mid: Session, eff: Option<Effect>|
            transition(pre, msgs[0], mid, eff) && runs_to(mid, msgs.skip(1), post);
        assert(msgs.skip(1) =~= Seq::new((n - 1) as nat, |i: int| Message::Increment));
        lemma_increment_run(mid, post, (n - 1) as nat);
    }
}

/// A run of decrements lowers the counter by its length and moves nothing
/// else.
pub proof fn lemma_decrement_run(pre: Session, post: Session, n: nat)
    requires
        runs_to(pre, Seq::new(n, |i: int| Message::Decrement), post),
    ensures
        post.counter == pre.counter - n,
        eq_watch(pre, post),
        eq_password(pre, post),
        eq_secret(pre, post),
        eq_guess_input(pre, post),
        eq_feedback(pre, post),
        eq_attempts(pre, post),
    decreases n,
{
    let msgs = Seq::new(n, |i: int| Message::Decrement);
    if n > 0 {
        let (mid, eff) = choose|mid: Session, eff: Option<Effect>|
            transition(pre, msgs[0], mid, eff) && runs_to(mid, msgs.skip(1), post);
        assert(msgs.skip(1) =~= Seq::new((n - 1) as nat, |i: int| Message::Decrement));
        lemma_decrement_run(mid, post, (n - 1) as nat);
    }
}

/// Incrementing and then decrementing the same number of times returns the
/// counter, and with it the whole session, to its original value.
pub proof fn lemma_increment_decrement_cancel(pre: Session, mid: Session, post: Session, n: nat)
    requires
        runs_to(pre, Seq::new(n, |i: int| Message::Increment), mid),
        runs_to(mid, Seq::new(n, |i: int| Message::Decrement), post),
    ensures
        post.counter == pre.counter,
        same_session(pre, post),
{
    lemma_increment_run(pre, mid, n);
    lemma_decrement_run(mid, post, n);
}

/// Toggling the watch off and back on, with no tick in between, leaves the
/// elapsed seconds untouched.
pub proof fn lemma_toggle_twice_keeps_elapsed(
    pre: Session,
    mid: Session,
    post: Session,
    e1: Option<Effect>,
    e2: Option<Effect>,
)
    requires
        transition(pre, Message::ToggleWatch, mid, e1),
        transition(mid, Message::ToggleWatch, post, e2),
    ensures
        post.elapsed_seconds == pre.elapsed_seconds,
        same_session(pre, post),
{
}

} // verus!
