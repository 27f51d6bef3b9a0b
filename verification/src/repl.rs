//! The decision at each iteration of the interactive loop. The loop
//! itself blocks on input and on the network, so it lives with the
//! caller; what is decided per line — quit on the exit sentinel, or
//! take one completion turn with the line as the user's message — is
//! stated and checked here.

use vstd::prelude::*;

verus! {

/// The input that terminates the interactive loop.
pub open spec fn spec_exit_sentinel() -> Seq<char> {
    "q"@
}

/// What one line of input asks the loop to do.
#[derive(Clone, Copy, Debug, PartialEq, Eq, Structural)]
pub enum LoopAction {
    /// The trimmed line was the exit sentinel: terminate cleanly, with
    /// no completion call.
    Quit,
    /// Any other line: append it as the user's message and take one
    /// completion turn.
    TakeTurn,
}

/// Decide one loop iteration from the trimmed input line: the exit
/// sentinel quits; everything else takes a turn.
pub fn plan_input(trimmed: &str) -> (a: LoopAction)
    ensures
        a == (if trimmed@ == spec_exit_sentinel() {
            LoopAction::Quit
        } else {
            LoopAction::TakeTurn
        }),
{
    proof {
        reveal_strlit("q");
    }
    let n = trimmed.unicode_len();
    if n != 1 {
        return LoopAction::TakeTurn;
    }
    let c = trimmed.get_char(0);
    if c == 'q' {
        proof {
            assert(trimmed@ =~= "q"@);
        }
        LoopAction::Quit
    } else {
        LoopAction::TakeTurn
    }
}

} // verus!
