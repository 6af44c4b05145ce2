//! Factory-side state: the configuration, the collection registry keyed by
//! symbol, the artist index and the global collection counter.

use vstd::prelude::*;

use crate::error::ContractError;
use crate::text::spec_symbol_ok;

verus! {

/// The factory's configuration: who administers it, what template its
/// children are instantiated from, and the defaults every child starts with.
#[derive(Clone, Debug)]
pub struct Config {
    pub nft_code_id: u64,
    pub admin: String,
    pub price: u128,
    pub duration: u64,
    pub grace_period: u64,
    pub payment_address: String,
    pub house_percentage: u32,
    pub artist_percentage: u32,
}

impl Config {
    /// The royalty pair always sums to exactly 100.
    pub open spec fn wf(&self) -> bool {
        self.house_percentage + self.artist_percentage == 100
    }
}

/// One collection known to the factory.  While `contract_address` is `None`
/// the entry is *pending*: its creation request is in flight and exactly one
/// acknowledgment may resolve it.
#[derive(Clone, Debug)]
pub struct Collection {
    pub name: String,
    pub symbol: String,
    pub artist: String,
    pub contract_address: Option<String>,
    pub created_at: u64,
    pub minter: String,
    pub collection_info: String,
    pub house_percentage: u32,
    pub artist_percentage: u32,
}

impl Collection {
    /// A well-formed entry: a valid symbol and a royalty pair summing to 100.
    pub open spec fn wf(&self) -> bool {
        &&& spec_symbol_ok(self.symbol@)
        &&& self.house_percentage + self.artist_percentage == 100
    }

    /// The entry still awaits its creation acknowledgment.
    pub open spec fn pending(&self) -> bool {
        self.contract_address is None
    }

    /// Assembles an entry.
    pub fn new(
        name: String,
        symbol: String,
        artist: String,
        minter: String,
        contract_address: Option<String>,
        created_at: u64,
        collection_info: String,
        house_percentage: u32,
        artist_percentage: u32,
    ) -> (r: Self)
        ensures
            r == (Collection {
                name,
                symbol,
                artist,
                contract_address,
                created_at,
                minter,
                collection_info,
                house_percentage,
                artist_percentage,
            }),
    {
        Collection {
            name,
            symbol,
            artist,
            contract_address,
            created_at,
            minter,
            collection_info,
            house_percentage,
            artist_percentage,
        }
    }

    /// The caller is this collection's artist or its minter.
    pub fn is_authorized(&self, addr: &String) -> (b: bool)
        ensures
            b == (addr@ == self.artist@ || addr@ == self.minter@),
    {
        *addr == self.artist || *addr == self.minter
    }

    /// Accepts the entry's royalty pair exactly when it sums to 100.
    pub fn validate_royalties(&self) -> (r: Result<(), ContractError>)
        ensures
            if self.house_percentage + self.artist_percentage == 100 {
                r == Ok::<(), ContractError>(())
            } else {
                r == Err::<(), ContractError>(ContractError::InvalidRoyaltySum)
            },
    {
        if self.house_percentage > 100 || self.artist_percentage > 100
            || self.house_percentage + self.artist_percentage != 100 {
            return Err(ContractError::InvalidRoyaltySum);
        }
        Ok(())
    }

    /// A field-for-field copy of the entry.
    pub fn duplicate(&self) -> (r: Self)
        ensures
            r == *self,
    {
        let contract_address = match &self.contract_address {
            Some(a) => Some(a.clone()),
            None => None,
        };
        Collection {
            name: self.name.clone(),
            symbol: self.symbol.clone(),
            artist: self.artist.clone(),
            contract_address,
            created_at: self.created_at,
            minter: self.minter.clone(),
            collection_info: self.collection_info.clone(),
            house_percentage: self.house_percentage,
            artist_percentage: self.artist_percentage,
        }
    }
}

/// One artist and the symbols of the collections they own, in registration
/// order, each symbol listed once.
#[derive(Clone, Debug)]
pub struct ArtistEntry {
    pub artist: String,
    pub symbols: Vec<String>,
}

/// Some collection in `cs` carries the symbol `s`.
pub open spec fn spec_symbol_taken(cs: Seq<Collection>, s: Seq<char>) -> bool {
    exists|i: int| 0 <= i < cs.len() && (#[trigger] cs[i]).symbol@ == s
}

/// The position of the collection carrying `s`; meaningful only when one
/// exists, and unique under the registry invariant.
pub open spec fn spec_collection_index(cs: Seq<Collection>, s: Seq<char>) -> int {
    choose|i: int| 0 <= i < cs.len() && (#[trigger] cs[i]).symbol@ == s
}

/// Some index entry in `es` belongs to the artist `a`.
pub open spec fn spec_has_artist(es: Seq<ArtistEntry>, a: Seq<char>) -> bool {
    exists|i: int| 0 <= i < es.len() && (#[trigger] es[i]).artist@ == a
}

/// The position of the artist `a` in the index; meaningful only when one
/// exists, and unique under the registry invariant.
pub open spec fn spec_artist_index(es: Seq<ArtistEntry>, a: Seq<char>) -> int {
    choose|i: int| 0 <= i < es.len() && (#[trigger] es[i]).artist@ == a
}

/// Some symbol in `ss` reads `s`.
pub open spec fn spec_symbols_contain(ss: Seq<String>, s: Seq<char>) -> bool {
    exists|i: int| 0 <= i < ss.len() && (#[trigger] ss[i])@ == s
}

/// Under symbol uniqueness, the position of a collection carrying `s` is the
/// one `spec_collection_index` names.
pub proof fn lemma_collection_index_unique(cs: Seq<Collection>, i: int, s: Seq<char>)
    requires
        forall|a: int, b: int|
            0 <= a < b < cs.len()
                ==> (#[trigger] cs[a]).symbol@ != (#[trigger] cs[b]).symbol@,
        0 <= i < cs.len(),
        cs[i].symbol@ == s,
    ensures
        spec_symbol_taken(cs, s),
        spec_collection_index(cs, s) == i,
{
    assert(spec_symbol_taken(cs, s));
    let j = spec_collection_index(cs, s);
    if i < j {
        assert(cs[i].symbol@ != cs[j].symbol@);
    } else if j < i {
        assert(cs[j].symbol@ != cs[i].symbol@);
    }
}

/// Under artist uniqueness, the position of the entry of artist `a` is the
/// one `spec_artist_index` names.
pub proof fn lemma_artist_index_unique(es: Seq<ArtistEntry>, i: int, a: Seq<char>)
    requires
        forall|x: int, y: int|
            0 <= x < y < es.len()
                ==> (#[trigger] es[x]).artist@ != (#[trigger] es[y]).artist@,
        0 <= i < es.len(),
        es[i].artist@ == a,
    ensures
        spec_has_artist(es, a),
        spec_artist_index(es, a) == i,
{
    assert(spec_has_artist(es, a));
    let j = spec_artist_index(es, a);
    if i < j {
        assert(es[i].artist@ != es[j].artist@);
    } else if j < i {
        assert(es[j].artist@ != es[i].artist@);
    }
}

/// An index entry agrees with the registry: its symbols are pairwise
/// distinct, and each names a collection owned by this artist.
pub open spec fn artist_entry_ok(e: ArtistEntry, cs: Seq<Collection>) -> bool {
    &&& forall|k1: int, k2: int|
        0 <= k1 < k2 < e.symbols@.len()
            ==> (#[trigger] e.symbols@[k1])@ != (#[trigger] e.symbols@[k2])@
    &&& forall|k: int| 0 <= k < e.symbols@.len() ==> spec_symbol_taken(
        cs, (#[trigger] e.symbols@[k])@) && cs[spec_collection_index(
        cs, e.symbols@[k]@)].artist@ == e.artist@
}

/// The factory's whole state: configuration, the registry of collections,
/// the global counter, and the artist index.
#[derive(Clone, Debug)]
pub struct Factory {
    pub config: Config,
    pub collections: Vec<Collection>,
    pub collection_count: u64,
    pub artists: Vec<ArtistEntry>,
}

impl Factory {
    /// The registry invariant: a valid configuration; the counter counts the
    /// entries; every entry well-formed; no symbol registered twice; one
    /// index entry per artist, and the index and registry agree exactly —
    /// every indexed symbol names a collection of that artist, and every
    /// collection is indexed under its artist.
    pub open spec fn wf(&self) -> bool {
        &&& self.config.wf()
        &&& self.collection_count == self.collections@.len()
        &&& forall|i: int| 0 <= i < self.collections@.len() ==> (
            #[trigger] self.collections@[i]).wf()
        &&& forall|i: int, j: int|
            0 <= i < j < self.collections@.len()
                ==> (#[trigger] self.collections@[i]).symbol@ != (
                #[trigger] self.collections@[j]).symbol@
        &&& forall|i: int, j: int|
            0 <= i < j < self.artists@.len()
                ==> (#[trigger] self.artists@[i]).artist@ != (
                #[trigger] self.artists@[j]).artist@
        &&& forall|a: int| 0 <= a < self.artists@.len() ==> artist_entry_ok(
            #[trigger] self.artists@[a], self.collections@)
        &&& forall|c: int| 0 <= c < self.collections@.len() ==> spec_has_artist(
            self.artists@, (#[trigger] self.collections@[c]).artist@) && spec_symbols_contain(
            self.artists@[spec_artist_index(self.artists@,
            self.collections@[c].artist@)].symbols@, self.collections@[c].symbol@)
    }

    /// Looks a collection up by symbol, returning its position.
    pub fn find_collection(&self, symbol: &String) -> (r: Option<usize>)
        ensures
            match r {
                Some(i) => i < self.collections@.len() && self.collections@[
                    i as int].symbol@ == symbol@,
                None => !spec_symbol_taken(self.collections@, symbol@),
            },
    {
        let n = self.collections.len();
        let mut i: usize = 0;
        while i < n
            invariant
                n == self.collections@.len(),
                0 <= i <= n,
                forall|j: int| 0 <= j < i ==> (#[trigger] self.collections@[j]).symbol@
                    != symbol@,
            decreases n - i,
        {
            if self.collections[i].symbol == *symbol {
                return Some(i);
            }
            i = i + 1;
        }
        None
    }

    /// Looks an artist up in the index, returning the entry's position.
    pub fn find_artist(&self, artist: &String) -> (r: Option<usize>)
        ensures
            match r {
                Some(i) => i < self.artists@.len() && self.artists@[i as int].artist@
                    == artist@,
                None => !spec_has_artist(self.artists@, artist@),
            },
    {
        let n = self.artists.len();
        let mut i: usize = 0;
        while i < n
            invariant
                n == self.artists@.len(),
                0 <= i <= n,
                forall|j: int| 0 <= j < i ==> (#[trigger] self.artists@[j]).artist@
                    != artist@,
            decreases n - i,
        {
            if self.artists[i].artist == *artist {
                return Some(i);
            }
            i = i + 1;
        }
        None
    }
}

} // verus!
