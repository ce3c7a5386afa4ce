//! Menu actions and the rule mapping a typed menu choice to one.

use vstd::prelude::*;
use vstd::string::StrSliceExecFns;

verus! {

/// What the user asked the program to do.
#[derive(Debug, Clone, Copy, PartialEq, Eq, Structural)]
pub enum Action {
    Encrypt,
    Decrypt,
    Exit,
}

/// The action a menu choice selects: "1" encrypts, "2" decrypts, "3"
/// exits, anything else selects nothing.
pub open spec fn action_of(choice: Seq<char>) -> Option<Action> {
    if choice == seq!['1'] {
        Some(Action::Encrypt)
    } else if choice == seq!['2'] {
        Some(Action::Decrypt)
    } else if choice == seq!['3'] {
        Some(Action::Exit)
    } else {
        None
    }
}

/// Reads a menu choice as the action it selects.
pub fn parse_action(choice: &str) -> (r: Option<Action>)
    ensures
        r == action_of(choice@),
{
    if choice.unicode_len() != 1 {
        proof {
            assert(choice@ != seq!['1'] && choice@ != seq!['2'] && choice@ != seq!['3']);
        }
        return None;
    }
    let c = choice.get_char(0);
    proof {
        assert(choice@ =~= seq![choice@[0]]);
    }
    match c {
        '1' => Some(Action::Encrypt),
        '2' => Some(Action::Decrypt),
        '3' => Some(Action::Exit),
        _ => {
            proof {
                assert(choice@ != seq!['1'] && choice@ != seq!['2'] && choice@ != seq!['3']);
            }
            None
        },
    }
}

} // verus!
