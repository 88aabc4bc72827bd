//! Transfers through a code. The ledger decides whether a transfer may go
//! and updates the totals; the host moves the value in the same atomic
//! operation, after `Ok`, and that operation fails whole if the move fails.
use crate::errors::CustomError;
use crate::instructions::transfer_check;
use crate::pubkey::{key_view, native_mint, pubkey_from_base58, Pubkey, NATIVE_MINT};
use crate::qr_account::QrAccount;
use crate::user_stats::UserStats;
use vstd::prelude::*;

verus! {

/// Outcome of a native-currency transfer, where `native` is the key of the
/// native mint, if it could be had.
pub open spec fn native_transfer_check(
    qr: QrAccount,
    stats_owner: Seq<u8>,
    native: Option<Seq<u8>>,
    amount: u64,
    destination: Seq<u8>,
    payer_balance: u64,
) -> Result<(), CustomError> {
    if amount == 0 {
        Err(CustomError::TransferAmountZero)
    } else {
        match native {
            Some(k) => transfer_check(qr, stats_owner, k, amount, destination, Some(payer_balance)),
            None => Err(CustomError::TokenNotFound),
        }
    }
}

/// The records after a transfer with outcome `r`: unchanged on `Err`; on
/// `Ok` the asset's totals and the user's transfer count are advanced. The
/// user's total value and last activity time are left as they are, and so is
/// the code's last transfer time.
pub open spec fn transfer_applied(
    r: Result<(), CustomError>,
    qr_before: QrAccount,
    qr_after: QrAccount,
    stats_before: UserStats,
    stats_after: UserStats,
    asset: Seq<u8>,
    amount: u64,
) -> bool {
    match r {
        Err(_) => qr_after == qr_before && stats_after == stats_before,
        Ok(_) => {
            &&& qr_after.same_but_stats(&qr_before)
            &&& qr_after.tokens_stats@ == qr_before.stats_after(asset, amount)
            &&& stats_after == (UserStats {
                total_transfers: (stats_before.total_transfers + 1) as u64,
                ..stats_before
            })
        },
    }
}

/// The checks of a transfer, in order, without changing anything.
pub fn validate_transfer(
    qr: &QrAccount,
    stats: &UserStats,
    asset: &Pubkey,
    amount: u64,
    destination: &Pubkey,
    payer_balance: Option<u64>,
) -> (r: Result<(), CustomError>)
    ensures
        r == transfer_check(*qr, stats.authority@, asset@, amount, destination@, payer_balance),
{
    if amount == 0 {
        return Err(CustomError::TransferAmountZero);
    }
    if !qr.check_if_token_exists(*asset) {
        return Err(CustomError::TokenNotExistsInQrAccount);
    }
    if !qr.check_if_correct_amount(amount) {
        return Err(CustomError::WrongTransferAmount);
    }
    if !qr.authority.equals(destination) {
        return Err(CustomError::WrongTransferDestination);
    }
    if let Some(balance) = payer_balance {
        if balance < amount {
            return Err(CustomError::WrongTransferAmount);
        }
    }
    if !stats.authority.equals(&qr.authority) {
        return Err(CustomError::AddressMismatch);
    }
    Ok(())
}

/// A transfer of `amount` of `asset` through `qr` to `destination`, counted
/// in `stats`; `payer_balance` is given for native currency.
pub fn transfer_via_code(
    qr: &mut QrAccount,
    stats: &mut UserStats,
    asset: Pubkey,
    amount: u64,
    destination: &Pubkey,
    payer_balance: Option<u64>,
) -> (r: Result<(), CustomError>)
    requires
        old(qr).wf(),
        old(qr).entry_fits(asset@, amount),
        old(stats).total_transfers < u64::MAX,
    ensures
        r == transfer_check(
            *old(qr),
            old(stats).authority@,
            asset@,
            amount,
            destination@,
            payer_balance,
        ),
        transfer_applied(r, *old(qr), *final(qr), *old(stats), *final(stats), asset@, amount),
        final(qr).wf(),
{
    let r = validate_transfer(qr, stats, &asset, amount, destination, payer_balance);
    if r.is_err() {
        return r;
    }
    qr.update_token_stats(asset, amount);
    stats.update_transfer_stats();
    r
}

/// A transfer of `amount` of the token `mint` through `qr`, into a token
/// account owned by `destination_owner`.
pub fn qr_transfer_spl(
    qr: &mut QrAccount,
    stats: &mut UserStats,
    mint: Pubkey,
    amount: u64,
    destination_owner: &Pubkey,
) -> (r: Result<(), CustomError>)
    requires
        old(qr).wf(),
        old(qr).entry_fits(mint@, amount),
        old(stats).total_transfers < u64::MAX,
    ensures
        r == transfer_check(
            *old(qr),
            old(stats).authority@,
            mint@,
            amount,
            destination_owner@,
            None,
        ),
        transfer_applied(r, *old(qr), *final(qr), *old(stats), *final(stats), mint@, amount),
        final(qr).wf(),
{
    transfer_via_code(qr, stats, mint, amount, destination_owner, None)
}

/// A transfer of `amount` of native currency through `qr` to `destination`,
/// from a payer whose balance is `payer_balance`.
pub fn qr_transfer_lamports(
    qr: &mut QrAccount,
    stats: &mut UserStats,
    amount: u64,
    destination: &Pubkey,
    payer_balance: u64,
) -> (r: Result<(), CustomError>)
    requires
        old(qr).wf(),
        pubkey_from_base58(NATIVE_MINT@) matches Some(k) ==> old(qr).entry_fits(k, amount),
        old(stats).total_transfers < u64::MAX,
    ensures
        r == native_transfer_check(
            *old(qr),
            old(stats).authority@,
            pubkey_from_base58(NATIVE_MINT@),
            amount,
            destination@,
            payer_balance,
        ),
        pubkey_from_base58(NATIVE_MINT@) matches Some(k) ==> transfer_applied(
            r,
            *old(qr),
            *final(qr),
            *old(stats),
            *final(stats),
            k,
            amount,
        ),
        r is Err ==> *final(qr) == *old(qr) && *final(stats) == *old(stats),
        final(qr).wf(),
{
    if amount == 0 {
        return Err(CustomError::TransferAmountZero);
    }
    match native_mint() {
        Some(mint) => transfer_via_code(qr, stats, mint, amount, destination, Some(payer_balance)),
        None => Err(CustomError::TokenNotFound),
    }
}

/// The native-currency transfer of `qr_transfer_lamports`, made only where
/// the native asset's totals, if the code accepts it, can take `amount`;
/// `None`, with nothing changed, where they cannot.
pub fn qr_transfer_lamports_checked(
    qr: &mut QrAccount,
    stats: &mut UserStats,
    amount: u64,
    destination: &Pubkey,
    payer_balance: u64,
) -> (r: Option<Result<(), CustomError>>)
    requires
        old(qr).wf(),
        old(stats).total_transfers < u64::MAX,
    ensures
        final(qr).wf(),
        pubkey_from_base58(NATIVE_MINT@) matches Some(k) && !old(qr).entry_fits(k, amount) ==> r
            is None && *final(qr) == *old(qr) && *final(stats) == *old(stats),
        !(pubkey_from_base58(NATIVE_MINT@) matches Some(k) && !old(qr).entry_fits(k, amount))
            ==> r == Some(
            native_transfer_check(
                *old(qr),
                old(stats).authority@,
                pubkey_from_base58(NATIVE_MINT@),
                amount,
                destination@,
                payer_balance,
            ),
        ),
        match (r, pubkey_from_base58(NATIVE_MINT@)) {
            (Some(res), Some(k)) => transfer_applied(
                res,
                *old(qr),
                *final(qr),
                *old(stats),
                *final(stats),
                k,
                amount,
            ),
            (Some(res), None) => *final(qr) == *old(qr) && *final(stats) == *old(stats),
            (None, _) => true,
        },
{
    if let Some(mint) = native_mint() {
        if !qr.can_record(&mint, amount) {
            return None;
        }
    }
    Some(qr_transfer_lamports(qr, stats, amount, destination, payer_balance))
}

} // verus!
