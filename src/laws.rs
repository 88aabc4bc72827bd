//! Properties that hold across operations of the ledger.
use crate::addressing::{qr_seeds, MAX_SEED_LEN};
use crate::errors::CustomError;
use crate::index_in;
use crate::instructions::{create_code_error, transfer_check};
use crate::qr_account::{QrAccount, TokenStats};
use crate::transfer::native_transfer_check;
use crate::user::User;
use vstd::prelude::*;
use vstd::utf8::encode_utf8;

verus! {

/// The hashes of a user who starts from `hashes` and asks, in order, to
/// create the codes `requests` (hash and allow-list of each).
pub open spec fn codes_after(
    hashes: Seq<Seq<char>>,
    requests: Seq<(Seq<char>, Seq<Seq<u8>>)>,
) -> Seq<Seq<char>>
    decreases requests.len(),
{
    if requests.len() == 0 {
        hashes
    } else {
        let before = codes_after(hashes, requests.drop_last());
        let (h, t) = requests.last();
        if create_code_error(before, h, t) is None {
            before.push(h)
        } else {
            before
        }
    }
}

/// Whatever codes a user without codes asks for, at most
/// `User::HASHES_MAX_COUNT` are created, none twice; once that many exist,
/// every further request whose hash can be an address seed fails with
/// `QrListFull`.
pub proof fn lemma_code_list_capacity(requests: Seq<(Seq<char>, Seq<Seq<u8>>)>)
    ensures
        codes_after(Seq::empty(), requests).len() <= User::HASHES_MAX_COUNT,
        codes_after(Seq::empty(), requests).no_duplicates(),
        codes_after(Seq::empty(), requests).len() == User::HASHES_MAX_COUNT ==> forall|
            h: Seq<char>,
            t: Seq<Seq<u8>>,
        |
            encode_utf8(h).len() <= MAX_SEED_LEN ==> create_code_error(
                codes_after(Seq::empty(), requests),
                h,
                t,
            ) == Some(CustomError::QrListFull),
    decreases requests.len(),
{
    if requests.len() > 0 {
        lemma_code_list_capacity(requests.drop_last());
        let before = codes_after(Seq::empty(), requests.drop_last());
        let (h, t) = requests.last();
        if create_code_error(before, h, t) is None {
            let after = before.push(h);
            assert forall|a: int, b: int|
                0 <= a < after.len() && 0 <= b < after.len() && a != b implies after[a]
                != after[b] by {
                if a == before.len() {
                    assert(before[b] == after[b]);
                } else if b == before.len() {
                    assert(before[a] == after[a]);
                }
            }
        }
    }
}

pub open spec fn request_hashes(requests: Seq<(Seq<char>, Seq<Seq<u8>>)>) -> Seq<Seq<char>> {
    requests.map_values(|r: (Seq<char>, Seq<Seq<u8>>)| r.0)
}

/// A user without codes who asks for at most `User::HASHES_MAX_COUNT` codes
/// with distinct hashes, each short enough to be an address seed, and
/// allow-lists of at most `QrAccount::TOKENS_MAX_COUNT` distinct assets, gets
/// every one of them, in the order asked.
pub proof fn lemma_distinct_requests_all_created(requests: Seq<(Seq<char>, Seq<Seq<u8>>)>)
    requires
        requests.len() <= User::HASHES_MAX_COUNT,
        forall|i: int, j: int|
            0 <= i < j < requests.len() ==> #[trigger] requests[i].0 != #[trigger] requests[j].0,
        forall|i: int|
            0 <= i < requests.len() ==> encode_utf8(#[trigger] requests[i].0).len() <= MAX_SEED_LEN
                && requests[i].1.len() <= QrAccount::TOKENS_MAX_COUNT
                && requests[i].1.no_duplicates(),
    ensures
        codes_after(Seq::empty(), requests) == request_hashes(requests),
    decreases requests.len(),
{
    if requests.len() > 0 {
        let prefix = requests.drop_last();
        assert forall|i: int, j: int| 0 <= i < j < prefix.len() implies #[trigger] prefix[i].0
            != #[trigger] prefix[j].0 by {
            assert(prefix[i] == requests[i] && prefix[j] == requests[j]);
        }
        assert forall|i: int| 0 <= i < prefix.len() implies encode_utf8(
            #[trigger] prefix[i].0,
        ).len() <= MAX_SEED_LEN && prefix[i].1.len() <= QrAccount::TOKENS_MAX_COUNT
            && prefix[i].1.no_duplicates() by {
            assert(prefix[i] == requests[i]);
        }
        lemma_distinct_requests_all_created(prefix);
        let before = codes_after(Seq::empty(), prefix);
        let last = requests.last();
        let n = prefix.len() as int;
        assert(last == requests[n]);
        assert(encode_utf8(requests[n].0).len() <= MAX_SEED_LEN);
        if before.contains(last.0) {
            let k = choose|k: int| 0 <= k < before.len() && before[k] == last.0;
            assert(before[k] == prefix[k].0);
            assert(prefix[k] == requests[k]);
            assert(requests[k].0 != requests[n].0);
        }
        assert(create_code_error(before, last.0, last.1) is None);
        assert(request_hashes(requests) =~= before.push(last.0));
    }
}

/// A user cannot create a second code with a hash it already owns, while
/// another user who does not own that hash can; the two codes' addresses
/// are derived from different seeds.
pub proof fn lemma_hash_unique_per_user(
    owner: Seq<u8>,
    owner_hashes: Seq<Seq<char>>,
    other: Seq<u8>,
    other_hashes: Seq<Seq<char>>,
    hash: Seq<char>,
    tokens: Seq<Seq<u8>>,
)
    requires
        encode_utf8(hash).len() <= MAX_SEED_LEN,
        owner_hashes.len() < User::HASHES_MAX_COUNT,
        owner_hashes.contains(hash),
        other != owner,
        other_hashes.len() < User::HASHES_MAX_COUNT,
        !other_hashes.contains(hash),
        tokens.len() <= QrAccount::TOKENS_MAX_COUNT,
        tokens.no_duplicates(),
    ensures
        create_code_error(owner_hashes, hash, tokens) == Some(CustomError::QrAlreadyExists),
        create_code_error(other_hashes, hash, tokens) is None,
        qr_seeds(owner, hash) != qr_seeds(other, hash),
{
    assert(qr_seeds(owner, hash)[1] != qr_seeds(other, hash)[1]);
}

/// An allow-list that names an asset twice, at any two positions, is
/// refused with `QrRepeatedTokens` once the earlier checks pass.
pub proof fn lemma_repeated_token_refused(
    hashes: Seq<Seq<char>>,
    hash: Seq<char>,
    tokens: Seq<Seq<u8>>,
    i: int,
    j: int,
)
    requires
        encode_utf8(hash).len() <= MAX_SEED_LEN,
        hashes.len() < User::HASHES_MAX_COUNT,
        !hashes.contains(hash),
        tokens.len() <= QrAccount::TOKENS_MAX_COUNT,
        0 <= i < tokens.len(),
        0 <= j < tokens.len(),
        i != j,
        tokens[i] == tokens[j],
    ensures
        create_code_error(hashes, hash, tokens) == Some(CustomError::QrRepeatedTokens),
{
}

/// A transfer of nothing is always refused with `TransferAmountZero`, what
/// ever the code asks for.
pub proof fn lemma_zero_transfer_refused(
    qr: QrAccount,
    stats_owner: Seq<u8>,
    asset: Seq<u8>,
    native: Option<Seq<u8>>,
    destination: Seq<u8>,
    payer_balance: Option<u64>,
    native_balance: u64,
)
    ensures
        transfer_check(qr, stats_owner, asset, 0, destination, payer_balance) == Err::<
            (),
            CustomError,
        >(CustomError::TransferAmountZero),
        native_transfer_check(qr, stats_owner, native, 0, destination, native_balance) == Err::<
            (),
            CustomError,
        >(CustomError::TransferAmountZero),
{
}

/// A code that asks for 0 takes any positive amount of an accepted asset,
/// paid to its authority and counted for its owner, from a payer who has it.
pub proof fn lemma_open_amount_accepts_any(
    qr: QrAccount,
    asset: Seq<u8>,
    amount: u64,
    payer_balance: Option<u64>,
)
    requires
        qr.amount == 0,
        qr.token_keys().contains(asset),
        amount > 0,
        payer_balance matches Some(b) ==> b >= amount,
    ensures
        transfer_check(qr, qr.authority@, asset, amount, qr.authority@, payer_balance) is Ok,
{
}

/// Creating a code and then removing it gives the user back exactly the
/// list of hashes it had, which does not hold the hash.
pub proof fn lemma_create_then_remove(
    hashes: Seq<Seq<char>>,
    hash: Seq<char>,
    tokens: Seq<Seq<u8>>,
)
    requires
        hashes.no_duplicates(),
        create_code_error(hashes, hash, tokens) is None,
    ensures
        hashes.push(hash).remove(index_in(hashes.push(hash), hash)) == hashes,
        !hashes.push(hash).remove(index_in(hashes.push(hash), hash)).contains(hash),
{
    let after = hashes.push(hash);
    assert(after[hashes.len() as int] == hash);
    let i = index_in(after, hash);
    assert(0 <= i < after.len() && after[i] == hash);
    if i < hashes.len() {
        assert(hashes[i] == hash);
        assert(hashes.contains(hash));
    }
    assert(after.remove(i) =~= hashes);
}

/// Two transfers of `first` and then `second` of the same asset through a
/// code add up in that asset's totals and leave the other assets' totals.
pub proof fn lemma_transfers_accumulate(
    q0: QrAccount,
    q1: QrAccount,
    q2: QrAccount,
    asset: Seq<u8>,
    first: u64,
    second: u64,
)
    requires
        q0.wf(),
        q0.token_keys().contains(asset),
        q0.entry_fits(asset, first),
        q1.entry_fits(asset, second),
        q1.same_but_stats(&q0),
        q1.tokens_stats@ == q0.stats_after(asset, first),
        q2.same_but_stats(&q1),
        q2.tokens_stats@ == q1.stats_after(asset, second),
    ensures
        ({
            let i = index_in(q0.token_keys(), asset);
            let s0 = q0.tokens_stats@[i];
            let s2 = q2.tokens_stats@[i];
            &&& s2.transfer_count == s0.transfer_count + 2
            &&& s2.total_amount == s0.total_amount + first + second
            &&& s2.total_value == s0.total_value + first + second
        }),
        forall|j: int|
            0 <= j < q0.tokens_stats@.len() && j != index_in(q0.token_keys(), asset) ==> q2.tokens_stats@[j]
                == q0.tokens_stats@[j],
{
    assert(q1.token_keys() == q0.token_keys());
    let i = index_in(q0.token_keys(), asset);
    assert(0 <= i < q0.tokens@.len());
    assert(q0.tokens_stats@[i].fits(first));
    assert(q1.tokens_stats@[i].fits(second));
}

} // verus!
