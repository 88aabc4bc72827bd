use crate::addressing::MAX_SEED_LEN;
use crate::pubkey::Pubkey;
use vstd::prelude::*;
use vstd::utf8::encode_utf8;

verus! {

/// One identity and the hashes of the codes it owns, in order of creation.
#[derive(Debug, Clone)]
pub struct User {
    pub name: String,
    pub hashes: Vec<String>,
    pub authority: Pubkey,
    pub bump: u8,
}

impl User {
    /// Longest name, in UTF-8 bytes.
    pub const NAME_MAX_LEN: usize = 20;

    /// Most codes one user may own.
    pub const HASHES_MAX_COUNT: usize = 5;

    pub open spec fn hash_list(&self) -> Seq<Seq<char>> {
        self.hashes@.map_values(|h: String| h@)
    }

    /// At most `HASHES_MAX_COUNT` hashes, none twice and none longer than an
    /// address seed, and a name that fits.
    pub open spec fn wf(&self) -> bool {
        &&& self.hashes@.len() <= Self::HASHES_MAX_COUNT
        &&& self.hash_list().no_duplicates()
        &&& encode_utf8(self.name@).len() <= Self::NAME_MAX_LEN
        &&& forall|i: int|
            0 <= i < self.hashes@.len() ==> encode_utf8(#[trigger] self.hash_list()[i]).len()
                <= MAX_SEED_LEN
    }

    /// Whether the record keeps its invariant, as a loaded record must.
    pub fn is_well_formed(&self) -> (r: bool)
        ensures
            r == self.wf(),
    {
        if self.name.as_str().as_bytes().len() > Self::NAME_MAX_LEN || self.hashes.len()
            > Self::HASHES_MAX_COUNT {
            return false;
        }
        let ghost list = self.hash_list();
        let mut i: usize = 0;
        while i < self.hashes.len()
            invariant
                list == self.hash_list(),
                i <= list.len(),
                forall|a: int, b: int| 0 <= a < i && 0 <= b < i && a != b ==> list[a] != list[b],
                forall|a: int| 0 <= a < i ==> encode_utf8(#[trigger] list[a]).len() <= MAX_SEED_LEN,
            decreases list.len() - i,
        {
            if self.hashes[i].as_str().as_bytes().len() > MAX_SEED_LEN {
                assert(list[i as int] == self.hashes@[i as int]@);
                assert(encode_utf8(list[i as int]).len() > MAX_SEED_LEN);
                return false;
            }
            let mut j: usize = 0;
            while j < i
                invariant
                    list == self.hash_list(),
                    j <= i < list.len(),
                    forall|a: int, b: int| 0 <= a < i && 0 <= b < i && a != b ==> list[a] != list[b],
                    forall|b: int| 0 <= b < j ==> list[b] != list[i as int],
                    forall|a: int| 0 <= a <= i ==> encode_utf8(#[trigger] list[a]).len() <= MAX_SEED_LEN,
                decreases i - j,
            {
                if self.hashes[j] == self.hashes[i] {
                    assert(list[j as int] == list[i as int]);
                    return false;
                }
                j += 1;
            }
            i += 1;
        }
        true
    }

    /// Whether the user already owns a code with `hash`.
    pub fn contains_hash(&self, hash: &String) -> (r: bool)
        ensures
            r == self.hash_list().contains(hash@),
    {
        self.position_of_hash(hash).is_some()
    }

    /// Position of `hash` in the user's list, if it is there.
    pub fn position_of_hash(&self, hash: &String) -> (r: Option<usize>)
        ensures
            r is None <==> !self.hash_list().contains(hash@),
            r matches Some(i) ==> i < self.hashes@.len() && self.hash_list()[i as int] == hash@,
    {
        let mut i: usize = 0;
        while i < self.hashes.len()
            invariant
                i <= self.hashes@.len(),
                forall|j: int| 0 <= j < i ==> self.hash_list()[j] != hash@,
            decreases self.hashes@.len() - i,
        {
            if self.hashes[i] == *hash {
                assert(self.hash_list()[i as int] == hash@);
                return Some(i);
            }
            i += 1;
        }
        None
    }
}

} // verus!
