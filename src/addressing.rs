//! Deterministic addresses of the ledger's records: each record lives at the
//! program-derived address of its owner's key, a role label and, for a code,
//! the code's hash.
use crate::errors::CustomError;
use crate::pubkey::Pubkey;
use vstd::prelude::*;
use vstd::utf8::encode_utf8;

verus! {

/// Longest seed, in bytes, that address derivation accepts.
pub const MAX_SEED_LEN: usize = 32;

/// The address and canonical nonce derived from `seeds` under `program_id`,
/// or `None` where no address can be derived.
pub uninterp spec fn derived_address(seeds: Seq<Seq<u8>>, program_id: Seq<u8>) -> Option<
    (Seq<u8>, u8),
>;

pub open spec fn found_view(r: Option<(Pubkey, u8)>) -> Option<(Seq<u8>, u8)> {
    match r {
        Some((k, b)) => Some((k@, b)),
        None => None,
    }
}

pub open spec fn seeds_view(seeds: Seq<Vec<u8>>) -> Seq<Seq<u8>> {
    seeds.map_values(|s: Vec<u8>| s@)
}

/// Relies on `Pubkey::try_find_program_address` (anchor_lang, from
/// solana-program): the program-derived address and canonical bump seed for
/// the given seeds and program id, computed from those arguments alone; it
/// returns `None` instead of panicking.
#[verifier::external_body]
fn try_find_program_address(seeds: &Vec<Vec<u8>>, program_id: &Pubkey) -> (r: Option<
    (Pubkey, u8),
>)
    ensures
        found_view(r) == derived_address(seeds_view(seeds@), program_id@),
{
    let slices: Vec<&[u8]> = seeds.iter().map(|s| s.as_slice()).collect();
    let id = anchor_lang::prelude::Pubkey::new_from_array(program_id.bytes);
    anchor_lang::prelude::Pubkey::try_find_program_address(&slices, &id).map(
        |(k, b)| (Pubkey::new_from_array(k.to_bytes()), b),
    )
}

/// The role label "user".
pub open spec fn user_label() -> Seq<u8> {
    seq![117u8, 115, 101, 114]
}

/// The role label "user_stats".
pub open spec fn user_stats_label() -> Seq<u8> {
    seq![117u8, 115, 101, 114, 95, 115, 116, 97, 116, 115]
}

/// The role label "qr".
pub open spec fn qr_label() -> Seq<u8> {
    seq![113u8, 114]
}

pub open spec fn user_seeds(authority: Seq<u8>) -> Seq<Seq<u8>> {
    seq![user_label(), authority]
}

pub open spec fn user_stats_seeds(user: Seq<u8>) -> Seq<Seq<u8>> {
    seq![user_stats_label(), user]
}

pub open spec fn qr_seeds(user: Seq<u8>, hash: Seq<char>) -> Seq<Seq<u8>> {
    seq![qr_label(), user, encode_utf8(hash)]
}

/// Outcome of checking a claimed address against a derivation.
pub open spec fn address_check(claimed: Seq<u8>, derived: Option<(Seq<u8>, u8)>) -> Result<
    u8,
    CustomError,
> {
    match derived {
        Some((a, bump)) => if a == claimed {
            Ok(bump)
        } else {
            Err(CustomError::AddressMismatch)
        },
        None => Err(CustomError::AddressMismatch),
    }
}

fn label_user() -> (r: Vec<u8>)
    ensures
        r@ == user_label(),
{
    let mut r: Vec<u8> = Vec::new();
    r.push(117u8);
    r.push(115u8);
    r.push(101u8);
    r.push(114u8);
    assert(r@ =~= user_label());
    r
}

fn label_user_stats() -> (r: Vec<u8>)
    ensures
        r@ == user_stats_label(),
{
    let mut r = label_user();
    r.push(95u8);
    r.push(115u8);
    r.push(116u8);
    r.push(97u8);
    r.push(116u8);
    r.push(115u8);
    assert(r@ =~= user_stats_label());
    r
}

fn label_qr() -> (r: Vec<u8>)
    ensures
        r@ == qr_label(),
{
    let mut r: Vec<u8> = Vec::new();
    r.push(113u8);
    r.push(114u8);
    assert(r@ =~= qr_label());
    r
}

/// Address and nonce of the user record owned by `authority`.
pub fn user_address(program_id: &Pubkey, authority: &Pubkey) -> (r: Option<(Pubkey, u8)>)
    ensures
        found_view(r) == derived_address(user_seeds(authority@), program_id@),
{
    let mut seeds: Vec<Vec<u8>> = Vec::new();
    seeds.push(label_user());
    seeds.push(authority.to_vec());
    assert(seeds_view(seeds@) =~= user_seeds(authority@));
    try_find_program_address(&seeds, program_id)
}

/// Address and nonce of the statistics record of the user record at `user`.
pub fn user_stats_address(program_id: &Pubkey, user: &Pubkey) -> (r: Option<(Pubkey, u8)>)
    ensures
        found_view(r) == derived_address(user_stats_seeds(user@), program_id@),
{
    let mut seeds: Vec<Vec<u8>> = Vec::new();
    seeds.push(label_user_stats());
    seeds.push(user.to_vec());
    assert(seeds_view(seeds@) =~= user_stats_seeds(user@));
    try_find_program_address(&seeds, program_id)
}

/// Address and nonce of the code with `hash` of the user record at `user`;
/// `None` where the hash is longer than a seed may be.
pub fn qr_address(program_id: &Pubkey, user: &Pubkey, hash: &String) -> (r: Option<(Pubkey, u8)>)
    ensures
        encode_utf8(hash@).len() > MAX_SEED_LEN ==> r is None,
        encode_utf8(hash@).len() <= MAX_SEED_LEN ==> found_view(r) == derived_address(
            qr_seeds(user@, hash@),
            program_id@,
        ),
{
    let hash_bytes = hash.as_str().as_bytes();
    if hash_bytes.len() > MAX_SEED_LEN {
        return None;
    }
    let mut seeds: Vec<Vec<u8>> = Vec::new();
    seeds.push(label_qr());
    seeds.push(user.to_vec());
    seeds.push(vstd::slice::slice_to_vec(hash_bytes));
    assert(seeds_view(seeds@) =~= qr_seeds(user@, hash@));
    try_find_program_address(&seeds, program_id)
}

/// Accepts `claimed` when it is the derived address, returning the nonce.
pub fn check_address(claimed: &Pubkey, derived: Option<(Pubkey, u8)>) -> (r: Result<
    u8,
    CustomError,
>)
    ensures
        r == address_check(claimed@, found_view(derived)),
{
    match derived {
        Some((a, bump)) => if a.equals(claimed) {
            Ok(bump)
        } else {
            Err(CustomError::AddressMismatch)
        },
        None => Err(CustomError::AddressMismatch),
    }
}

/// Checks that `claimed` is the user record address of `authority`.
pub fn verify_user_address(program_id: &Pubkey, authority: &Pubkey, claimed: &Pubkey) -> (r:
    Result<u8, CustomError>)
    ensures
        r == address_check(claimed@, derived_address(user_seeds(authority@), program_id@)),
{
    check_address(claimed, user_address(program_id, authority))
}

/// Checks that `claimed` is the statistics record address of the user record
/// at `user`.
pub fn verify_user_stats_address(program_id: &Pubkey, user: &Pubkey, claimed: &Pubkey) -> (r:
    Result<u8, CustomError>)
    ensures
        r == address_check(claimed@, derived_address(user_stats_seeds(user@), program_id@)),
{
    check_address(claimed, user_stats_address(program_id, user))
}

/// Checks that `claimed` is the address of the code with `hash` of the user
/// record at `user`.
pub fn verify_qr_address(program_id: &Pubkey, user: &Pubkey, hash: &String, claimed: &Pubkey) -> (r:
    Result<u8, CustomError>)
    ensures
        encode_utf8(hash@).len() > MAX_SEED_LEN ==> r == Err::<u8, CustomError>(
            CustomError::AddressMismatch,
        ),
        encode_utf8(hash@).len() <= MAX_SEED_LEN ==> r == address_check(
            claimed@,
            derived_address(qr_seeds(user@, hash@), program_id@),
        ),
{
    check_address(claimed, qr_address(program_id, user, hash))
}

} // verus!
