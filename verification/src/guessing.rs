//! The guessing game's comparison of a guess against the secret number.

use vstd::prelude::*;

verus! {

/// Compares a guess with the secret: zero for a hit, negative one for a
/// guess below the secret, one for a guess above it.
pub fn check_guess(guess: i32, secret: i32) -> (r: i32)
    ensures
        r == (if guess == secret {
            0int
        } else if guess < secret {
            -1int
        } else {
            1int
        }),
{
    if guess == secret {
        return 0;
    } else if guess < secret {
        return -1;
    } else {
        return 1;
    }
}

} // verus!
