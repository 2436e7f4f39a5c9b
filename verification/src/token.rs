//! The cancellation token that an actor, its addresses and its worker share.
//!
//! The token itself is `tokio_util::sync::CancellationToken`, a counted handle to
//! a flag. In contracts a token stands for the flag that it is a handle to: two
//! tokens are equal when cancelling one cancels the other.

use tokio_util::sync::CancellationToken;
use vstd::prelude::*;

verus! {

/// The token, `CancellationToken`. What is inside is not looked at.
#[verifier::external_type_specification]
#[verifier::external_body]
pub struct ExCancellationToken(CancellationToken);

/// `CancellationToken::new` makes a handle to a flag of its own. That the flag
/// starts out unset is not said: what a flag reads depends on when it is read.
pub assume_specification[ CancellationToken::new ]() -> (token: CancellationToken)
    opens_invariants none
;

/// `CancellationToken::clone` gives another handle to the same flag.
pub assume_specification[ <CancellationToken as Clone>::clone ](
    token: &CancellationToken,
) -> (handle: CancellationToken)
    ensures
        handle == *token,
;

/// `CancellationToken::cancel` sets the flag for good and wakes who waits on it. That
/// every later reading of the flag is `true` is not said: a token stands for its flag,
/// whoever holds it, and not for what the flag reads at some time. Unlike making a
/// token and reading its flag, it is not declared to open no invariants, so that a
/// function that is declared so cannot call it.
pub assume_specification[ CancellationToken::cancel ](token: &CancellationToken)
;

/// `CancellationToken::is_cancelled` reads the flag. Any holder may have set it in
/// the meantime, so which answer comes is not said.
pub assume_specification[ CancellationToken::is_cancelled ](token: &CancellationToken) -> (set:
    bool)
    opens_invariants none
;

/// Whether `token` is one that `CancellationToken::new` gave.
pub open spec fn fresh_token(token: CancellationToken) -> bool {
    call_ensures(CancellationToken::new, (), token)
}

/// Whether `done` is what `CancellationToken::cancel` gave for `token`. It gives no
/// more than that it is done, but that it does is only known where it was called.
pub open spec fn cancel_called(token: CancellationToken, done: ()) -> bool {
    call_ensures(CancellationToken::cancel, (&token,), done)
}

/// Whether `set` is an answer that `CancellationToken::is_cancelled` gave for `token`.
pub open spec fn flag_read(token: CancellationToken, set: bool) -> bool {
    call_ensures(CancellationToken::is_cancelled, (&token,), set)
}

/// What the parts of an actor may do with the token that they share, short of
/// cancelling it.
///
/// Code that knows no more of a token than that it is a `StopFlag` can make one, hand
/// it on and read it, but has no way to set it, and neither has code that knows nothing
/// of it at all. All of this crate is written so, but for the functions that are there
/// to cancel an actor: whatever else is done with an actor leaves its flag as it was.
/// The methods here open no invariants, which `CancellationToken::cancel` may: no
/// implementation of them can call it.
pub trait StopFlag: Clone {
    /// Whether this flag is one that `fresh` made.
    spec fn is_fresh(self) -> bool;

    /// Whether a reading of this flag can give `set`.
    spec fn may_read(self, set: bool) -> bool;

    /// Makes a flag, which is unset.
    fn fresh() -> (flag: Self)
        ensures
            flag.is_fresh(),
        opens_invariants none
    ;

    /// A clone of a flag is another handle to the same flag.
    proof fn lemma_clone_is_another_handle(flag: Self, handle: Self)
        requires
            call_ensures(Self::clone, (&flag,), handle),
        ensures
            handle == flag,
    ;

    /// Reads the flag.
    fn is_set(&self) -> (set: bool)
        ensures
            self.may_read(set),
        opens_invariants none
    ;
}

impl StopFlag for CancellationToken {
    open spec fn is_fresh(self) -> bool {
        fresh_token(self)
    }

    open spec fn may_read(self, set: bool) -> bool {
        flag_read(self, set)
    }

    fn fresh() -> (flag: Self)
        ensures
            call_ensures(CancellationToken::new, (), flag),
    {
        CancellationToken::new()
    }

    proof fn lemma_clone_is_another_handle(flag: Self, handle: Self) {
    }

    fn is_set(&self) -> (set: bool)
        ensures
            call_ensures(CancellationToken::is_cancelled, (self,), set),
    {
        self.is_cancelled()
    }
}

} // verus!
