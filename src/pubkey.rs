use vstd::prelude::*;

verus! {

/// A 32-byte public key: an identity, an asset (mint) identifier or an address.
#[derive(Debug, Clone, Copy)]
pub struct Pubkey {
    pub bytes: [u8; 32],
}

impl View for Pubkey {
    type V = Seq<u8>;

    open spec fn view(&self) -> Seq<u8> {
        self.bytes@
    }
}

impl Pubkey {
    pub fn new_from_array(bytes: [u8; 32]) -> (r: Pubkey)
        ensures
            r@ == bytes@,
    {
        Pubkey { bytes }
    }

    pub fn to_bytes(&self) -> (r: [u8; 32])
        ensures
            r@ == self@,
    {
        self.bytes
    }

    /// The key's bytes in a vector, as used for address derivation seeds.
    pub fn to_vec(&self) -> (r: Vec<u8>)
        ensures
            r@ == self@,
    {
        let mut r: Vec<u8> = Vec::new();
        let mut i: usize = 0;
        while i < 32
            invariant
                i <= 32,
                self@.len() == 32,
                r@ == self@.subrange(0, i as int),
            decreases 32 - i,
        {
            r.push(self.bytes[i]);
            i += 1;
            assert(r@ =~= self@.subrange(0, i as int));
        }
        assert(self@.subrange(0, 32) =~= self@);
        r
    }

    /// Byte-wise comparison of two keys.
    pub fn equals(&self, other: &Pubkey) -> (r: bool)
        ensures
            r == (self@ == other@),
    {
        let mut i: usize = 0;
        while i < 32
            invariant
                i <= 32,
                self@.len() == 32,
                other@.len() == 32,
                forall|j: int| 0 <= j < i ==> self@[j] == other@[j],
            decreases 32 - i,
        {
            if self.bytes[i] != other.bytes[i] {
                return false;
            }
            i += 1;
        }
        assert(self@ =~= other@);
        true
    }
}

pub open spec fn key_view(k: Option<Pubkey>) -> Option<Seq<u8>> {
    match k {
        Some(k) => Some(k@),
        None => None,
    }
}

/// The key whose base-58 text is `text`, or `None` where `text` is not the
/// text of a key.
pub uninterp spec fn pubkey_from_base58(text: Seq<char>) -> Option<Seq<u8>>;

/// Relies on `<Pubkey as FromStr>::from_str` (anchor_lang, from
/// solana-program): decodes the base-58 text of a 32-byte key, and fails on
/// any other text.
#[verifier::external_body]
fn parse_pubkey(text: &str) -> (r: Option<Pubkey>)
    ensures
        key_view(r) == pubkey_from_base58(text@),
{
    match <anchor_lang::prelude::Pubkey as std::str::FromStr>::from_str(text) {
        Ok(k) => Some(Pubkey::new_from_array(k.to_bytes())),
        Err(_) => None,
    }
}

/// Base-58 text of the mint that stands for the native currency.
pub const NATIVE_MINT: &'static str = "So11111111111111111111111111111111111111112";

/// The mint that stands for the native currency on an allow-list.
pub fn native_mint() -> (r: Option<Pubkey>)
    ensures
        key_view(r) == pubkey_from_base58(NATIVE_MINT@),
{
    parse_pubkey(NATIVE_MINT)
}

impl PartialEq for Pubkey {
    fn eq(&self, other: &Pubkey) -> (r: bool) {
        self.equals(other)
    }
}

impl vstd::std_specs::cmp::PartialEqSpecImpl for Pubkey {
    open spec fn obeys_eq_spec() -> bool {
        true
    }

    open spec fn eq_spec(&self, other: &Pubkey) -> bool {
        self@ == other@
    }
}

impl Eq for Pubkey {}

} // verus!
