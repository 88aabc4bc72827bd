//! The ledger's operations. Each one checks everything before it changes
//! anything: on `Err` every record is left as it was.
use crate::addressing::MAX_SEED_LEN;
use crate::errors::CustomError;
use crate::index_in;
use crate::pubkey::Pubkey;
use crate::qr_account::{key_views, tokens_distinct, QrAccount, TokenStats};
use crate::user::User;
use crate::user_stats::UserStats;
use vstd::prelude::*;
use vstd::utf8::encode_utf8;

verus! {

/// Which check, if any, refuses a new code with `hash` and the allow-list
/// `tokens` for a user who owns the codes `hashes`. A hash too long to be an
/// address seed has no code address.
pub open spec fn create_code_error(
    hashes: Seq<Seq<char>>,
    hash: Seq<char>,
    tokens: Seq<Seq<u8>>,
) -> Option<CustomError> {
    if encode_utf8(hash).len() > MAX_SEED_LEN {
        Some(CustomError::AddressMismatch)
    } else if hashes.len() >= User::HASHES_MAX_COUNT {
        Some(CustomError::QrListFull)
    } else if hashes.contains(hash) {
        Some(CustomError::QrAlreadyExists)
    } else if tokens.len() > QrAccount::TOKENS_MAX_COUNT {
        Some(CustomError::QrTooManyTokens)
    } else if !tokens.no_duplicates() {
        Some(CustomError::QrRepeatedTokens)
    } else {
        None
    }
}

/// `qr` is a fresh code: zero totals, one entry per accepted asset.
pub open spec fn is_new_code(
    qr: QrAccount,
    owner: Seq<u8>,
    hash: Seq<char>,
    amount: u64,
    tokens: Seq<Pubkey>,
    bump: u8,
) -> bool {
    &&& qr.authority@ == owner
    &&& qr.hash@ == hash
    &&& qr.amount == amount
    &&& qr.tokens@ == tokens
    &&& qr.tokens_stats@ == Seq::new(tokens.len(), |i: int| TokenStats::zero_spec())
    &&& qr.last_transfer_timestamp == 0
    &&& qr.bump == bump
}

/// The checks of a transfer of `amount` of `asset` through `qr`, paid to
/// `destination` and counted in the statistics of `stats_owner`; the payer's
/// balance is checked where it is given (native currency).
pub open spec fn transfer_check(
    qr: QrAccount,
    stats_owner: Seq<u8>,
    asset: Seq<u8>,
    amount: u64,
    destination: Seq<u8>,
    payer_balance: Option<u64>,
) -> Result<(), CustomError> {
    if amount == 0 {
        Err(CustomError::TransferAmountZero)
    } else if !qr.token_keys().contains(asset) {
        Err(CustomError::TokenNotExistsInQrAccount)
    } else if qr.amount != 0 && qr.amount != amount {
        Err(CustomError::WrongTransferAmount)
    } else if destination != qr.authority@ {
        Err(CustomError::WrongTransferDestination)
    } else if payer_balance matches Some(b) && b < amount {
        Err(CustomError::WrongTransferAmount)
    } else if stats_owner != qr.authority@ {
        Err(CustomError::AddressMismatch)
    } else {
        Ok(())
    }
}

/// Creates the user record of `authority` with `name` and no codes.
pub fn initialize_user(authority: Pubkey, name: String, bump: u8) -> (r: Result<User, CustomError>)
    ensures
        encode_utf8(name@).len() > User::NAME_MAX_LEN ==> r == Err::<User, CustomError>(
            CustomError::NameTooLong,
        ),
        encode_utf8(name@).len() <= User::NAME_MAX_LEN ==> (r matches Ok(u) && u.name@ == name@
            && u.hashes@.len() == 0 && u.authority@ == authority@ && u.bump == bump && u.wf()),
{
    if name.as_str().as_bytes().len() > User::NAME_MAX_LEN {
        return Err(CustomError::NameTooLong);
    }
    let u = User { name, hashes: Vec::new(), authority, bump };
    assert(u.hash_list() =~= Seq::<Seq<char>>::empty());
    Ok(u)
}

/// Creates the zeroed statistics record of `user` for `caller`, its
/// authority.
pub fn initialize_user_stats(user: &User, caller: &Pubkey, bump: u8) -> (r: Result<
    UserStats,
    CustomError,
>)
    ensures
        caller@ != user.authority@ ==> r == Err::<UserStats, CustomError>(
            CustomError::AddressMismatch,
        ),
        caller@ == user.authority@ ==> (r matches Ok(s) && s.authority@ == user.authority@
            && s.qr_codes_created == 0 && s.total_transfers == 0 && s.total_value_transfered == 0
            && s.last_active_timestamp == 0 && s.bump == bump),
{
    if !user.authority.equals(caller) {
        return Err(CustomError::AddressMismatch);
    }
    Ok(UserStats::new(user.authority, bump))
}

/// Creates the code `hash` of `user`, which accepts `amount` (0: any amount)
/// of each asset in `tokens`, and adds `hash` to the user's list.
pub fn initialize_user_qr(
    user: &mut User,
    caller: &Pubkey,
    hash: String,
    amount: u64,
    tokens: Vec<Pubkey>,
    bump: u8,
) -> (r: Result<QrAccount, CustomError>)
    requires
        old(user).wf(),
    ensures
        final(user).wf(),
        caller@ != old(user).authority@ ==> r == Err::<QrAccount, CustomError>(
            CustomError::AddressMismatch,
        ) && *final(user) == *old(user),
        caller@ == old(user).authority@ ==> match create_code_error(
            old(user).hash_list(),
            hash@,
            key_views(tokens@),
        ) {
            Some(e) => r == Err::<QrAccount, CustomError>(e) && *final(user) == *old(user),
            None => (r matches Ok(qr) && qr.wf() && is_new_code(
                qr,
                old(user).authority@,
                hash@,
                amount,
                tokens@,
                bump,
            ) && final(user).hash_list() == old(user).hash_list().push(hash@) && final(user).name
                == old(user).name && final(user).authority == old(user).authority
                && final(user).bump == old(user).bump),
        },
{
    if !user.authority.equals(caller) {
        return Err(CustomError::AddressMismatch);
    }
    if hash.as_str().as_bytes().len() > MAX_SEED_LEN {
        return Err(CustomError::AddressMismatch);
    }
    if user.hashes.len() >= User::HASHES_MAX_COUNT {
        return Err(CustomError::QrListFull);
    }
    if user.contains_hash(&hash) {
        return Err(CustomError::QrAlreadyExists);
    }
    if tokens.len() > QrAccount::TOKENS_MAX_COUNT {
        return Err(CustomError::QrTooManyTokens);
    }
    if !tokens_distinct(&tokens) {
        return Err(CustomError::QrRepeatedTokens);
    }
    let mut tokens_stats: Vec<TokenStats> = Vec::new();
    let mut i: usize = 0;
    while i < tokens.len()
        invariant
            i <= tokens@.len(),
            tokens_stats@ == Seq::new(i as nat, |k: int| TokenStats::zero_spec()),
        decreases tokens@.len() - i,
    {
        tokens_stats.push(TokenStats::zero());
        i += 1;
        assert(tokens_stats@ =~= Seq::new(i as nat, |k: int| TokenStats::zero_spec()));
    }
    let ghost old_list = user.hash_list();
    let qr = QrAccount {
        authority: user.authority,
        amount,
        last_transfer_timestamp: 0,
        bump,
        tokens,
        tokens_stats,
        hash: hash.clone(),
    };
    user.hashes.push(hash);
    assert(user.hash_list() =~= old_list.push(qr.hash@));
    Ok(qr)
}

/// Accepts the removal of `user` by `caller`, its authority. Codes that the
/// user still owns are not removed with it.
pub fn remove_user(user: &User, caller: &Pubkey) -> (r: Result<(), CustomError>)
    ensures
        r == if caller@ == user.authority@ {
            Ok::<(), CustomError>(())
        } else {
            Err(CustomError::AddressMismatch)
        },
{
    if user.authority.equals(caller) {
        Ok(())
    } else {
        Err(CustomError::AddressMismatch)
    }
}

/// Accepts the removal of `stats` by `caller`, the user they belong to.
pub fn remove_user_stats(stats: &UserStats, caller: &Pubkey) -> (r: Result<(), CustomError>)
    ensures
        r == if caller@ == stats.authority@ {
            Ok::<(), CustomError>(())
        } else {
            Err(CustomError::AddressMismatch)
        },
{
    if stats.authority.equals(caller) {
        Ok(())
    } else {
        Err(CustomError::AddressMismatch)
    }
}

/// Removes the code `hash` from the list of `user`; the others keep their
/// order.
pub fn remove_user_qr(user: &mut User, caller: &Pubkey, hash: &String) -> (r: Result<
    (),
    CustomError,
>)
    requires
        old(user).wf(),
    ensures
        final(user).wf(),
        caller@ != old(user).authority@ ==> r == Err::<(), CustomError>(
            CustomError::AddressMismatch,
        ) && *final(user) == *old(user),
        caller@ == old(user).authority@ && !old(user).hash_list().contains(hash@) ==> r == Err::<
            (),
            CustomError,
        >(CustomError::QrNotFound) && *final(user) == *old(user),
        caller@ == old(user).authority@ && old(user).hash_list().contains(hash@) ==> r is Ok
            && final(user).hash_list() == old(user).hash_list().remove(
            index_in(old(user).hash_list(), hash@),
        ) && final(user).name == old(user).name && final(user).authority == old(user).authority
            && final(user).bump == old(user).bump,
{
    if !user.authority.equals(caller) {
        return Err(CustomError::AddressMismatch);
    }
    let index = match user.position_of_hash(hash) {
        Some(i) => i,
        None => { return Err(CustomError::QrNotFound); },
    };
    let ghost old_list = user.hash_list();
    proof {
        let c = index_in(old_list, hash@);
        assert(0 <= c < old_list.len() && old_list[c] == hash@);
        assert(c == index);
    }
    user.hashes.remove(index);
    assert(user.hash_list() =~= old_list.remove(index as int));
    proof {
        let l = user.hash_list();
        assert forall|a: int, b: int| 0 <= a < l.len() && 0 <= b < l.len() && a != b implies l[a]
            != l[b] by {
            let oa = if a < index { a } else { a + 1 };
            let ob = if b < index { b } else { b + 1 };
            assert(l[a] == old_list[oa]);
            assert(l[b] == old_list[ob]);
        }
    }
    Ok(())
}

} // verus!
