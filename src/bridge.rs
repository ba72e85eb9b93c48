//! The single exit of a guarded region: return, raise a new error, or relay.
use vstd::prelude::*;

use crate::guard::{exit_n, exit_top, ExceptionStack, GuardToken, StackView};

verus! {

/// How a report diverted control inside a protected region.
#[derive(PartialEq, Eq, Structural, Debug, Clone, Copy)]
pub enum Diversion {
    /// A report in this region crossed the diverting threshold.
    RaisedHere,
    /// A diversion that began below this region is passing through it.
    Relayed,
}

/// The failure that a guard raises when it originates an error.
#[derive(PartialEq, Eq, Structural, Debug, Clone, Copy)]
pub struct PgError;

/// The failure that a guard raises when it only passes on an error from below.
#[derive(PartialEq, Eq, Structural, Debug, Clone, Copy)]
pub struct PgReThrow;

/// What leaves a guarded region that did not return normally. A region that
/// receives one from a nested guard reports it as `Diversion::Relayed`.
#[derive(PartialEq, Eq, Structural, Debug, Clone, Copy)]
pub enum Unwind {
    NewError(PgError),
    ReThrow(PgReThrow),
}

/// How control came back to a guard after it installed its resume point.
pub enum Outcome<T> {
    /// The protected logic ran to its end, with its value or its diversion.
    FellThrough(Result<T, Diversion>),
    /// The engine jumped back to the resume point: an error below already
    /// unwound to here.
    JumpFired,
}

/// The single exit that an outcome calls for.
pub open spec fn exit_of<T>(outcome: Outcome<T>) -> Result<T, Unwind> {
    match outcome {
        Outcome::FellThrough(Ok(v)) => Ok(v),
        Outcome::FellThrough(Err(Diversion::RaisedHere)) => Err(Unwind::NewError(PgError)),
        Outcome::FellThrough(Err(Diversion::Relayed)) => Err(Unwind::ReThrow(PgReThrow)),
        Outcome::JumpFired => Err(Unwind::ReThrow(PgReThrow)),
    }
}

/// Reads the value that setting a resume point returned: zero when it was
/// just set, anything else when the engine jumped back to it.
pub fn resumed_by_jump(rc: i32) -> (r: bool)
    ensures
        r == (rc != 0),
{
    rc != 0
}

/// Closes the guard of `token` and takes its region's single exit: the
/// region's value, a new error raised here, or a relay of an error from below.
/// The guard is restored on every path, exactly once.
pub fn settle<T>(stack: &mut ExceptionStack, token: GuardToken, outcome: Outcome<T>) -> (r: Result<
    T,
    Unwind,
>)
    requires
        old(stack)@.frames.len() == token.spec_depth() + 1,
    ensures
        final(stack)@ == exit_top(old(stack)@),
        r == exit_of(outcome),
{
    let restored = stack.exit(token);
    assert(restored is Ok);
    match outcome {
        Outcome::FellThrough(Ok(v)) => Ok(v),
        Outcome::FellThrough(Err(Diversion::RaisedHere)) => Err(Unwind::NewError(PgError)),
        Outcome::FellThrough(Err(Diversion::Relayed)) => Err(Unwind::ReThrow(PgReThrow)),
        Outcome::JumpFired => Err(Unwind::ReThrow(PgReThrow)),
    }
}

/// Only a diversion raised in the region itself leaves as a new error; a
/// relayed one, or a jump from below, leaves as a relay, so an outer guard
/// never originates an error a second time.
pub proof fn lemma_relay_never_originates<T>(outcome: Outcome<T>)
    ensures
        exit_of(outcome) is Err && exit_of(outcome)->Err_0 is NewError <==> outcome
            == Outcome::<T>::FellThrough(Err(Diversion::RaisedHere)),
{
}

/// Settling the `n` innermost guards one after another, innermost first, when
/// the innermost region ended in `first` and each enclosing region saw what
/// came out of the guard inside it as relayed: the stack left behind and the
/// exit that each guard took.
pub open spec fn propagate(s: StackView, n: nat, first: Diversion) -> (StackView, Seq<Result<(), Unwind>>)
    decreases n,
{
    if n == 0 {
        (s, Seq::empty())
    } else {
        let rest = propagate(exit_top(s), (n - 1) as nat, Diversion::Relayed);
        (rest.0, seq![exit_of(Outcome::<()>::FellThrough(Err(first)))] + rest.1)
    }
}

/// A diversion raised in the innermost of `n` guarded regions leaves its own
/// guard as a new error and every enclosing guard as a relay, never as a
/// second new error; the guards are restored as unwinding `n` frames restores
/// them, innermost first.
pub proof fn lemma_raised_error_relays(s: StackView, n: nat)
    requires
        0 < n <= s.frames.len(),
    ensures
        propagate(s, n, Diversion::RaisedHere).0 == exit_n(s, n),
        propagate(s, n, Diversion::RaisedHere).1.len() == n,
        propagate(s, n, Diversion::RaisedHere).1[0] == Err::<(), Unwind>(Unwind::NewError(PgError)),
        forall|i: int|
            0 < i < n ==> #[trigger] propagate(s, n, Diversion::RaisedHere).1[i] == Err::<(), Unwind>(
                Unwind::ReThrow(PgReThrow),
            ),
{
    lemma_relays_stay_relays(exit_top(s), (n - 1) as nat);
    let rest = propagate(exit_top(s), (n - 1) as nat, Diversion::Relayed);
    assert forall|i: int| 0 < i < n implies #[trigger] propagate(s, n, Diversion::RaisedHere).1[i]
        == Err::<(), Unwind>(Unwind::ReThrow(PgReThrow)) by {
        assert(propagate(s, n, Diversion::RaisedHere).1[i] == rest.1[i - 1]);
    }
}

/// Once relayed, a diversion leaves every further guard as a relay.
pub proof fn lemma_relays_stay_relays(s: StackView, n: nat)
    ensures
        propagate(s, n, Diversion::Relayed).0 == exit_n(s, n),
        propagate(s, n, Diversion::Relayed).1.len() == n,
        forall|i: int|
            0 <= i < n ==> #[trigger] propagate(s, n, Diversion::Relayed).1[i] == Err::<(), Unwind>(
                Unwind::ReThrow(PgReThrow),
            ),
    decreases n,
{
    if n > 0 {
        lemma_relays_stay_relays(exit_top(s), (n - 1) as nat);
        let rest = propagate(exit_top(s), (n - 1) as nat, Diversion::Relayed);
        assert forall|i: int| 0 <= i < n implies #[trigger] propagate(s, n, Diversion::Relayed).1[i]
            == Err::<(), Unwind>(Unwind::ReThrow(PgReThrow)) by {
            if i > 0 {
                assert(propagate(s, n, Diversion::Relayed).1[i] == rest.1[i - 1]);
            }
        }
    }
}

} // verus!
