use crate::addressing::MAX_SEED_LEN;
use crate::index_in;
use crate::pubkey::Pubkey;
use vstd::prelude::*;
use vstd::utf8::encode_utf8;

verus! {

/// Running totals of the transfers of one asset through one code.
#[derive(Debug, Clone, Copy, PartialEq, Eq, Structural, Default)]
pub struct TokenStats {
    pub transfer_count: u64,
    pub total_amount: u64,
    pub total_value: u64,
}

impl TokenStats {
    pub open spec fn zero_spec() -> TokenStats {
        TokenStats { transfer_count: 0, total_amount: 0, total_value: 0 }
    }

    pub fn zero() -> (r: TokenStats)
        ensures
            r == Self::zero_spec(),
    {
        TokenStats { transfer_count: 0, total_amount: 0, total_value: 0 }
    }

    /// Whether one more transfer of `amount` can be counted without overflow.
    pub open spec fn fits(self, amount: u64) -> bool {
        &&& self.transfer_count < u64::MAX
        &&& self.total_amount + amount <= u64::MAX
        &&& self.total_value + amount <= u64::MAX
    }

    /// The totals after one more transfer of `amount`.
    pub open spec fn recorded(self, amount: u64) -> TokenStats {
        TokenStats {
            transfer_count: (self.transfer_count + 1) as u64,
            total_amount: (self.total_amount + amount) as u64,
            total_value: (self.total_value + amount) as u64,
        }
    }
}

/// A payable code: the expected amount (0 for any), the assets it accepts,
/// the totals per accepted asset and the key that is paid.
#[derive(Debug, Clone)]
pub struct QrAccount {
    pub authority: Pubkey,
    pub amount: u64,
    pub last_transfer_timestamp: i64,
    pub bump: u8,
    pub tokens: Vec<Pubkey>,
    pub tokens_stats: Vec<TokenStats>,
    pub hash: String,
}

pub open spec fn key_views(keys: Seq<Pubkey>) -> Seq<Seq<u8>> {
    keys.map_values(|k: Pubkey| k@)
}

/// Whether no asset stands twice in `tokens`.
pub fn tokens_distinct(tokens: &Vec<Pubkey>) -> (r: bool)
    ensures
        r == key_views(tokens@).no_duplicates(),
{
    let ghost keys = key_views(tokens@);
    let mut i: usize = 0;
    while i < tokens.len()
        invariant
            keys == key_views(tokens@),
            i <= tokens@.len(),
            forall|a: int, b: int| 0 <= a < i && 0 <= b < i && a != b ==> keys[a] != keys[b],
        decreases tokens@.len() - i,
    {
        let mut j: usize = 0;
        while j < i
            invariant
                keys == key_views(tokens@),
                j <= i < tokens@.len(),
                forall|a: int, b: int| 0 <= a < i && 0 <= b < i && a != b ==> keys[a] != keys[b],
                forall|b: int| 0 <= b < j ==> keys[b] != keys[i as int],
            decreases i - j,
        {
            if tokens[j].equals(&tokens[i]) {
                assert(keys[j as int] == keys[i as int]);
                return false;
            }
            j += 1;
        }
        i += 1;
    }
    true
}

impl QrAccount {
    /// Most assets one code may accept.
    pub const TOKENS_MAX_COUNT: usize = 5;

    pub open spec fn token_keys(&self) -> Seq<Seq<u8>> {
        key_views(self.tokens@)
    }

    /// A bounded allow-list without repeats, with one totals entry per asset,
    /// and a hash short enough to derive the code's address from.
    pub open spec fn wf(&self) -> bool {
        &&& self.tokens@.len() <= Self::TOKENS_MAX_COUNT
        &&& self.token_keys().no_duplicates()
        &&& self.tokens_stats@.len() == self.tokens@.len()
        &&& encode_utf8(self.hash@).len() <= MAX_SEED_LEN
    }

    /// Whether the totals of `token`, where it is accepted, can take one
    /// more transfer of `amount`.
    pub open spec fn entry_fits(&self, token: Seq<u8>, amount: u64) -> bool {
        self.token_keys().contains(token) ==> self.tokens_stats@[index_in(
            self.token_keys(),
            token,
        )].fits(amount)
    }

    /// The totals after a transfer of `amount` of `token`: the entry that
    /// stands beside `token` is advanced, the others stay.
    pub open spec fn stats_after(&self, token: Seq<u8>, amount: u64) -> Seq<TokenStats> {
        let i = index_in(self.token_keys(), token);
        self.tokens_stats@.update(i, self.tokens_stats@[i].recorded(amount))
    }

    /// The fields other than the totals are those of `other`.
    pub open spec fn same_but_stats(&self, other: &QrAccount) -> bool {
        &&& self.authority@ == other.authority@
        &&& self.amount == other.amount
        &&& self.last_transfer_timestamp == other.last_transfer_timestamp
        &&& self.bump == other.bump
        &&& self.tokens@ == other.tokens@
        &&& self.hash@ == other.hash@
    }

    /// Whether the record keeps its invariant, as a loaded record must.
    pub fn is_well_formed(&self) -> (r: bool)
        ensures
            r == self.wf(),
    {
        self.tokens.len() <= Self::TOKENS_MAX_COUNT && self.tokens_stats.len() == self.tokens.len()
            && self.hash.as_str().as_bytes().len() <= MAX_SEED_LEN && tokens_distinct(&self.tokens)
    }

    /// Whether `token` is on the allow-list.
    pub fn check_if_token_exists(&self, token: Pubkey) -> (r: bool)
        ensures
            r == self.token_keys().contains(token@),
    {
        self.token_position(&token).is_some()
    }

    /// Position of `token` on the allow-list, if it is there.
    pub fn token_position(&self, token: &Pubkey) -> (r: Option<usize>)
        ensures
            r is None <==> !self.token_keys().contains(token@),
            r matches Some(i) ==> i < self.tokens@.len() && self.token_keys()[i as int] == token@,
    {
        let mut i: usize = 0;
        while i < self.tokens.len()
            invariant
                i <= self.tokens@.len(),
                forall|j: int| 0 <= j < i ==> self.token_keys()[j] != token@,
            decreases self.tokens@.len() - i,
        {
            if self.tokens[i].equals(token) {
                assert(self.token_keys()[i as int] == token@);
                return Some(i);
            }
            i += 1;
        }
        None
    }

    /// Whether `amount` is what the code asks for; a code asking for 0
    /// takes any amount.
    pub fn check_if_correct_amount(&self, amount: u64) -> (r: bool)
        ensures
            r == (self.amount == 0 || self.amount == amount),
    {
        if self.amount == 0 {
            true
        } else {
            self.amount == amount
        }
    }

    /// Whether the totals of `token`, where it is accepted, can take one
    /// more transfer of `amount`.
    pub fn can_record(&self, token: &Pubkey, amount: u64) -> (r: bool)
        requires
            self.wf(),
        ensures
            r == self.entry_fits(token@, amount),
    {
        match self.token_position(token) {
            None => true,
            Some(i) => {
                proof {
                    let k = self.token_keys();
                    let c = index_in(k, token@);
                    assert(0 <= c < k.len() && k[c] == token@);
                    assert(c == i);
                }
                let s = self.tokens_stats[i];
                s.transfer_count < u64::MAX && s.total_amount <= u64::MAX - amount
                    && s.total_value <= u64::MAX - amount
            },
        }
    }

    /// Adds a transfer of `amount` of `token` to the totals of that asset.
    pub fn update_token_stats(&mut self, token: Pubkey, amount: u64)
        requires
            old(self).wf(),
            old(self).token_keys().contains(token@),
            old(self).tokens_stats@[index_in(old(self).token_keys(), token@)].fits(amount),
        ensures
            final(self).same_but_stats(old(self)),
            final(self).tokens_stats@ == old(self).stats_after(token@, amount),
            final(self).wf(),
    {
        let index = match self.token_position(&token) {
            Some(i) => i,
            None => { return; },
        };
        proof {
            let k = self.token_keys();
            let c = index_in(k, token@);
            assert(0 <= index < k.len() && k[index as int] == token@);
            assert(0 <= c < k.len() && k[c] == token@);
            assert(c == index);
        }
        let mut s = self.tokens_stats[index];
        s.transfer_count = s.transfer_count + 1;
        s.total_amount = s.total_amount + amount;
        s.total_value = s.total_value + amount;
        self.tokens_stats.set(index, s);
    }
}

} // verus!
