use crate::pubkey::Pubkey;
use vstd::prelude::*;

verus! {

/// Counters of one user; they only ever grow.
#[derive(Debug, Clone, Copy)]
pub struct UserStats {
    pub authority: Pubkey,
    pub qr_codes_created: u64,
    pub total_transfers: u64,
    pub total_value_transfered: u64,
    pub last_active_timestamp: i64,
    pub bump: u8,
}

impl UserStats {
    /// Zeroed statistics of the user whose key is `authority`.
    pub fn new(authority: Pubkey, bump: u8) -> (r: UserStats)
        ensures
            r.authority@ == authority@,
            r.qr_codes_created == 0,
            r.total_transfers == 0,
            r.total_value_transfered == 0,
            r.last_active_timestamp == 0,
            r.bump == bump,
    {
        UserStats {
            authority,
            qr_codes_created: 0,
            total_transfers: 0,
            total_value_transfered: 0,
            last_active_timestamp: 0,
            bump,
        }
    }

    /// Counts one more created code.
    pub fn update_codes_stats(&mut self)
        requires
            old(self).qr_codes_created < u64::MAX,
        ensures
            *final(self) == (UserStats {
                qr_codes_created: (old(self).qr_codes_created + 1) as u64,
                ..*old(self)
            }),
    {
        self.qr_codes_created = self.qr_codes_created + 1;
    }

    /// Counts one more transfer.
    pub fn update_transfer_stats(&mut self)
        requires
            old(self).total_transfers < u64::MAX,
        ensures
            *final(self) == (UserStats {
                total_transfers: (old(self).total_transfers + 1) as u64,
                ..*old(self)
            }),
    {
        self.total_transfers = self.total_transfers + 1;
    }
}

} // verus!
