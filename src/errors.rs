use vstd::prelude::*;

verus! {

/// Every way an operation on the ledger can fail.
#[derive(Debug, Clone, Copy, PartialEq, Eq, Structural)]
pub enum CustomError {
    NameTooLong,
    QrListFull,
    QrNotFound,
    QrAlreadyExists,
    QrRepeatedTokens,
    QrTooManyTokens,
    TokenNotFound,
    TokenNotExistsInQrAccount,
    WrongTransferAmount,
    WrongTransferDestination,
    TransferAmountZero,
    /// A record is not the one derived for the declared owner, or the caller
    /// is not the record's authority.
    AddressMismatch,
}

} // verus!
