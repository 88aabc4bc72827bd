//! Ledger of user-owned payment codes: users, their statistics, QR code
//! records with asset allow-lists, and the validation of transfers made
//! through a code.
pub mod addressing;
pub mod errors;
pub mod instructions;
pub mod laws;
pub mod pubkey;
pub mod qr_account;
pub mod transfer;
pub mod user;
pub mod user_stats;

use vstd::prelude::*;

verus! {

/// Position of `x` in `s`; meaningful where `s` contains `x` exactly once.
pub open spec fn index_in<A>(s: Seq<A>, x: A) -> int {
    choose|i: int| 0 <= i < s.len() && s[i] == x
}

} // verus!
