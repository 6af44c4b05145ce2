//! Read-only views of the factory: configuration, collection lookups by
//! artist and by symbol, bounded listings and symbol availability.

use vstd::prelude::*;

use crate::factory::msg::{CollectionResponse, CollectionsResponse, ConfigResponse, QueryAnswer,
    QueryMsg};
use crate::factory::state::{Collection, Factory, artist_entry_ok, lemma_artist_index_unique,
    spec_artist_index, spec_collection_index, spec_has_artist, spec_symbol_taken};

verus! {

/// The effective bound on a listing: the caller's limit, or ten entries when
/// none is given.
pub open spec fn spec_limit(limit: Option<u32>) -> int {
    match limit {
        Some(l) => l as int,
        None => 10,
    }
}

/// The symbols the index lists for an artist: the artist's entry, or nothing
/// for an artist that never registered a collection.
pub open spec fn spec_artist_symbols(f: Factory, artist: Seq<char>) -> Seq<String> {
    if spec_has_artist(f.artists@, artist) {
        f.artists@[spec_artist_index(f.artists@, artist)].symbols@
    } else {
        Seq::empty()
    }
}

/// Echoes the factory configuration, with the running collection count.
pub fn query_config(f: &Factory) -> (r: ConfigResponse)
    ensures
        r.nft_code_id == f.config.nft_code_id,
        r.admin == f.config.admin,
        r.total_collections == f.collection_count,
        r.house_percentage == f.config.house_percentage,
        r.artist_percentage == f.config.artist_percentage,
{
    ConfigResponse {
        nft_code_id: f.config.nft_code_id,
        admin: f.config.admin.clone(),
        total_collections: f.collection_count,
        house_percentage: f.config.house_percentage,
        artist_percentage: f.config.artist_percentage,
    }
}

/// An artist's first collection: the entry registered under the first symbol
/// the index lists for them, or nothing for an unknown artist.
pub fn query_collection(f: &Factory, artist: &String) -> (r: CollectionResponse)
    requires
        f.wf(),
    ensures
        ({
            let syms = spec_artist_symbols(*f, artist@);
            match r.collection {
                None => syms.len() == 0,
                Some(c) => syms.len() > 0 && c == f.collections@[spec_collection_index(
                    f.collections@, syms[0]@)],
            }
        }),
{
    let a = match f.find_artist(artist) {
        Some(a) => a,
        None => {
            return CollectionResponse { collection: None };
        },
    };
    proof {
        lemma_artist_index_unique(f.artists@, a as int, artist@);
    }
    if f.artists[a].symbols.len() == 0 {
        return CollectionResponse { collection: None };
    }
    proof {
        assert(artist_entry_ok(f.artists@[a as int], f.collections@));
    }
    match f.find_collection(&f.artists[a].symbols[0]) {
        Some(i) => {
            proof {
                crate::factory::state::lemma_collection_index_unique(f.collections@, i as int,
                    f.artists@[a as int].symbols@[0]@);
            }
            CollectionResponse { collection: Some(f.collections[i].duplicate()) }
        },
        None => {
            proof {
                assert(spec_symbol_taken(f.collections@, f.artists@[a as int].symbols@[0]@));
                assert(false);
            }
            CollectionResponse { collection: None }
        },
    }
}

/// The collections the index lists for an artist, in registration order, cut
/// off at the limit (ten when none is given).
pub fn query_artist_collections(f: &Factory, artist: &String, limit: Option<u32>) -> (r:
    CollectionsResponse)
    requires
        f.wf(),
    ensures
        ({
            let syms = spec_artist_symbols(*f, artist@);
            let count = if spec_limit(limit) < syms.len() {
                spec_limit(limit)
            } else {
                syms.len() as int
            };
            &&& r.collections@.len() == count
            &&& forall|k: int| 0 <= k < count ==> #[trigger] r.collections@[k]
                == f.collections@[spec_collection_index(f.collections@, syms[k]@)]
        }),
{
    let lim: usize = match limit {
        Some(l) => l as usize,
        None => 10,
    };
    let mut out: Vec<Collection> = Vec::new();
    let a = match f.find_artist(artist) {
        Some(a) => a,
        None => {
            return CollectionsResponse { collections: out };
        },
    };
    proof {
        lemma_artist_index_unique(f.artists@, a as int, artist@);
        assert(artist_entry_ok(f.artists@[a as int], f.collections@));
    }
    let total = f.artists[a].symbols.len();
    let count = if lim < total {
        lim
    } else {
        total
    };
    let mut k: usize = 0;
    while k < count
        invariant
            f.wf(),
            a < f.artists@.len(),
            f.artists@[a as int].artist@ == artist@,
            spec_artist_index(f.artists@, artist@) == a as int,
            count <= f.artists@[a as int].symbols@.len(),
            0 <= k <= count,
            out@.len() == k,
            forall|j: int| 0 <= j < k ==> #[trigger] out@[j] == f.collections@[
                spec_collection_index(f.collections@, f.artists@[a as int].symbols@[j]@)],
        decreases count - k,
    {
        proof {
            assert(artist_entry_ok(f.artists@[a as int], f.collections@));
        }
        match f.find_collection(&f.artists[a].symbols[k]) {
            Some(i) => {
                proof {
                    crate::factory::state::lemma_collection_index_unique(f.collections@,
                        i as int, f.artists@[a as int].symbols@[k as int]@);
                }
                out.push(f.collections[i].duplicate());
            },
            None => {
                proof {
                    assert(spec_symbol_taken(f.collections@,
                        f.artists@[a as int].symbols@[k as int]@));
                    assert(false);
                }
            },
        }
        k = k + 1;
    }
    CollectionsResponse { collections: out }
}

/// The first collections of the registry, in registration order, cut off at
/// the limit (ten when none is given).
pub fn query_all_collections(f: &Factory, limit: Option<u32>) -> (r: CollectionsResponse)
    ensures
        ({
            let count = if spec_limit(limit) < f.collections@.len() {
                spec_limit(limit)
            } else {
                f.collections@.len() as int
            };
            &&& r.collections@.len() == count
            &&& forall|k: int| 0 <= k < count ==> #[trigger] r.collections@[k]
                == f.collections@[k]
        }),
{
    let lim: usize = match limit {
        Some(l) => l as usize,
        None => 10,
    };
    let total = f.collections.len();
    let count = if lim < total {
        lim
    } else {
        total
    };
    let mut out: Vec<Collection> = Vec::new();
    let mut k: usize = 0;
    while k < count
        invariant
            count <= f.collections@.len(),
            0 <= k <= count,
            out@.len() == k,
            forall|j: int| 0 <= j < k ==> #[trigger] out@[j] == f.collections@[j],
        decreases count - k,
    {
        out.push(f.collections[k].duplicate());
        k = k + 1;
    }
    CollectionsResponse { collections: out }
}

/// A symbol is available exactly when no collection, pending or resolved,
/// carries it.
pub fn query_is_symbol_available(f: &Factory, symbol: &String) -> (b: bool)
    ensures
        b == !spec_symbol_taken(f.collections@, symbol@),
{
    match f.find_collection(symbol) {
        Some(_) => false,
        None => true,
    }
}

/// Routes a factory query to its handler, with the promises of that handler
/// carried through unchanged.
pub fn query(f: &Factory, msg: QueryMsg) -> (r: QueryAnswer)
    requires
        f.wf(),
    ensures
        ({
            match msg {
                QueryMsg::Config {} => {
                    &&& r matches QueryAnswer::Config(c)
                    &&& c.nft_code_id == f.config.nft_code_id
                    &&& c.admin == f.config.admin
                    &&& c.total_collections == f.collection_count
                    &&& c.house_percentage == f.config.house_percentage
                    &&& c.artist_percentage == f.config.artist_percentage
                },
                QueryMsg::Collection { artist } => {
                    let syms = spec_artist_symbols(*f, artist@);
                    &&& r matches QueryAnswer::Collection(resp)
                    &&& (match resp.collection {
                        None => syms.len() == 0,
                        Some(c) => syms.len() > 0 && c == f.collections@[
                            spec_collection_index(f.collections@, syms[0]@)],
                    })
                },
                QueryMsg::ArtistCollections { artist, limit } => {
                    let syms = spec_artist_symbols(*f, artist@);
                    let count = if spec_limit(limit) < syms.len() {
                        spec_limit(limit)
                    } else {
                        syms.len() as int
                    };
                    &&& r matches QueryAnswer::Collections(resp)
                    &&& resp.collections@.len() == count
                    &&& forall|k: int| 0 <= k < count ==> #[trigger] resp.collections@[k]
                        == f.collections@[spec_collection_index(f.collections@, syms[k]@)]
                },
                QueryMsg::AllCollections { limit } => {
                    let count = if spec_limit(limit) < f.collections@.len() {
                        spec_limit(limit)
                    } else {
                        f.collections@.len() as int
                    };
                    &&& r matches QueryAnswer::Collections(resp)
                    &&& resp.collections@.len() == count
                    &&& forall|k: int| 0 <= k < count ==> #[trigger] resp.collections@[k]
                        == f.collections@[k]
                },
                QueryMsg::IsSymbolAvailable { symbol } => {
                    r == QueryAnswer::SymbolAvailable(!spec_symbol_taken(f.collections@,
                        symbol@))
                },
            }
        }),
{
    match msg {
        QueryMsg::Config {} => QueryAnswer::Config(query_config(f)),
        QueryMsg::Collection { artist } => QueryAnswer::Collection(query_collection(f,
            &artist)),
        QueryMsg::ArtistCollections { artist, limit } => QueryAnswer::Collections(
            query_artist_collections(f, &artist, limit)),
        QueryMsg::AllCollections { limit } => QueryAnswer::Collections(query_all_collections(
            f, limit)),
        QueryMsg::IsSymbolAvailable { symbol } => QueryAnswer::SymbolAvailable(
            query_is_symbol_available(f, &symbol)),
    }
}

} // verus!
