//! Secret handling: wiping strings that held secrets, and resolving secrets
//! injected through the environment.
use vstd::prelude::*;

use crate::text::{dec, push_str, push_u64, string_from};

pub mod env;

verus! {

/// Initialize the security module (nothing needs setting up at present).
pub fn init() {
}

/// Overwrite a string that held a secret with zeros and leave it empty
/// (`zeroize::Zeroize::zeroize` on `String`, which zeroes the bytes and the
/// spare capacity, then clears the string).
#[verifier::external_body]
fn zeroize_in_place(s: &mut String)
    ensures
        final(s)@ == Seq::<char>::empty(),
{
    zeroize::Zeroize::zeroize(s);
}

/// Securely clear a string holding sensitive data: its bytes are
/// overwritten with zeros and it is left empty.
pub fn zeroize_string(s: &mut String)
    ensures
        final(s)@ == Seq::<char>::empty(),
{
    zeroize_in_place(s);
}

/// What is said after the `attempt`-th mismatching password confirmation out
/// of `max_attempts`.
pub open spec fn mismatch_notice_text(attempt: u32, max_attempts: u32) -> Seq<char> {
    if attempt < max_attempts {
        "Passwords do not match. "@ + dec((max_attempts - attempt) as nat) + " attempts remaining."@
    } else {
        "Maximum attempts reached."@
    }
}

/// The notice after a password and its confirmation did not match on attempt
/// `attempt` (counting from 1) of `max_attempts`.
pub fn mismatch_notice(attempt: u32, max_attempts: u32) -> (r: String)
    requires
        1 <= attempt <= max_attempts,
    ensures
        r@ == mismatch_notice_text(attempt, max_attempts),
{
    if attempt < max_attempts {
        let mut s = string_from("Passwords do not match. ");
        push_u64(&mut s, (max_attempts - attempt) as u64);
        push_str(&mut s, " attempts remaining.");
        s
    } else {
        string_from("Maximum attempts reached.")
    }
}

} // verus!
