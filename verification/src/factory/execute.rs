//! The factory commands: instantiation, collection registration with its
//! creation request, configuration updates, and the resolution of creation
//! acknowledgments against pending entries.

use vstd::prelude::*;

use crate::error::ContractError;
use crate::factory::msg::{CreationRequest, ExecuteMsg, FactoryOutcome, InstantiateMsg};
use crate::factory::state::{ArtistEntry, Collection, Config, Factory, artist_entry_ok,
    lemma_artist_index_unique, lemma_collection_index_unique, spec_artist_index,
    spec_collection_index, spec_has_artist, spec_symbol_taken, spec_symbols_contain};
use crate::pass::msg::InstantiateMsg as PassInstantiateMsg;
use crate::text::{spec_symbol_ok, symbol_ok};

verus! {

/// The reply identifier tagged onto every creation request.
pub const CREATED_REPLY_ID: u64 = 1;

/// How one registration reshapes the artist index: the symbol is appended to
/// the artist's entry, or a fresh one-symbol entry is added for a new artist.
/// Nothing else moves.
pub open spec fn artist_index_updated(
    pre: Seq<ArtistEntry>,
    post: Seq<ArtistEntry>,
    artist: String,
    symbol: String,
) -> bool {
    if spec_has_artist(pre, artist@) {
        let a = spec_artist_index(pre, artist@);
        &&& post.len() == pre.len()
        &&& forall|k: int| 0 <= k < pre.len() && k != a ==> post[k] == pre[k]
        &&& post[a].artist == pre[a].artist
        &&& post[a].symbols@ == pre[a].symbols@.push(symbol)
    } else {
        &&& post.len() == pre.len() + 1
        &&& forall|k: int| 0 <= k < pre.len() ==> post[k] == pre[k]
        &&& post.last().artist == artist
        &&& post.last().symbols@ =~= seq![symbol]
    }
}

/// How one registration reshapes the whole factory: the entry is appended,
/// the counter steps once, the artist index picks the symbol up, and the
/// configuration stands untouched.
pub open spec fn registered(pre: Factory, post: Factory, c: Collection) -> bool {
    &&& post.config == pre.config
    &&& post.collection_count == pre.collection_count + 1
    &&& post.collections@ == pre.collections@.push(c)
    &&& artist_index_updated(pre.artists@, post.artists@, c.artist, c.symbol)
}

/// Everything `save_new_collection` promises, for every input.
///
/// In order: the entry's royalty pair must sum to 100 (`InvalidRoyaltySum`),
/// its symbol must be well-formed (`InvalidSymbolFormat`) and not registered
/// yet, pending or resolved (`SymbolAlreadyTaken`), and the counter must not
/// be exhausted (`MaxSupplyReached`).  On success the entry is registered as
/// `registered` describes; on every failure the state is exactly what it was.
pub open spec fn save_post(
    pre: Factory,
    post: Factory,
    c: Collection,
    r: Result<(), ContractError>,
) -> bool {
    if c.house_percentage + c.artist_percentage != 100 {
        r == Err::<(), ContractError>(ContractError::InvalidRoyaltySum) && post == pre
    } else if !spec_symbol_ok(c.symbol@) {
        r == Err::<(), ContractError>(ContractError::InvalidSymbolFormat) && post == pre
    } else if spec_symbol_taken(pre.collections@, c.symbol@) {
        r == Err::<(), ContractError>(ContractError::SymbolAlreadyTaken) && post == pre
    } else if pre.collection_count == u64::MAX {
        r == Err::<(), ContractError>(ContractError::MaxSupplyReached) && post == pre
    } else {
        r == Ok::<(), ContractError>(()) && registered(pre, post, c)
    }
}

/// Appending an entry with a fresh symbol keeps symbols pairwise distinct.
proof fn lemma_symbols_unique_push(cs: Seq<Collection>, c: Collection)
    requires
        forall|i: int, j: int|
            0 <= i < j < cs.len()
                ==> (#[trigger] cs[i]).symbol@ != (#[trigger] cs[j]).symbol@,
        !spec_symbol_taken(cs, c.symbol@),
    ensures
        forall|i: int, j: int|
            0 <= i < j < cs.push(c).len()
                ==> (#[trigger] cs.push(c)[i]).symbol@ != (#[trigger] cs.push(c)[j]).symbol@,
{
    assert forall|i: int, j: int|
        0 <= i < j < cs.push(c).len() implies (#[trigger] cs.push(c)[i]).symbol@ != (
        #[trigger] cs.push(c)[j]).symbol@ by {
        if j == cs.len() {
            assert(cs.push(c)[i] == cs[i]);
            assert(!(cs[i].symbol@ == c.symbol@));
        } else {
            assert(cs.push(c)[i] == cs[i]);
            assert(cs.push(c)[j] == cs[j]);
        }
    }
}

/// An index entry that agrees with a registry still agrees after an entry
/// with a fresh symbol is appended to that registry.
proof fn lemma_entry_ok_push(e: ArtistEntry, cs: Seq<Collection>, c: Collection)
    requires
        artist_entry_ok(e, cs),
        forall|i: int, j: int|
            0 <= i < j < cs.len()
                ==> (#[trigger] cs[i]).symbol@ != (#[trigger] cs[j]).symbol@,
        !spec_symbol_taken(cs, c.symbol@),
    ensures
        artist_entry_ok(e, cs.push(c)),
{
    lemma_symbols_unique_push(cs, c);
    assert forall|k: int| 0 <= k < e.symbols@.len() implies spec_symbol_taken(
        cs.push(c), (#[trigger] e.symbols@[k])@) && cs.push(c)[spec_collection_index(
        cs.push(c), e.symbols@[k]@)].artist@ == e.artist@ by {
        let s = e.symbols@[k]@;
        let i = spec_collection_index(cs, s);
        assert(spec_symbol_taken(cs, s));
        assert(0 <= i < cs.len() && cs[i].symbol@ == s);
        assert(cs.push(c)[i] == cs[i]);
        lemma_collection_index_unique(cs.push(c), i, s);
    }
}

/// Registers a new collection entry: validates its royalty pair and symbol,
/// enforces symbol uniqueness across pending and resolved entries, advances
/// the global counter and indexes the symbol under its artist.
pub fn save_new_collection(f: &mut Factory, collection: Collection) -> (r: Result<
    (),
    ContractError,
>)
    requires
        old(f).wf(),
    ensures
        final(f).wf(),
        save_post(*old(f), *final(f), collection, r),
{
    match collection.validate_royalties() {
        Ok(()) => {},
        Err(e) => {
            return Err(e);
        },
    }
    if !symbol_ok(collection.symbol.as_str()) {
        return Err(ContractError::InvalidSymbolFormat);
    }
    match f.find_collection(&collection.symbol) {
        Some(_) => {
            return Err(ContractError::SymbolAlreadyTaken);
        },
        None => {},
    }
    if f.collection_count == u64::MAX {
        return Err(ContractError::MaxSupplyReached);
    }
    f.collection_count = f.collection_count + 1;
    match f.find_artist(&collection.artist) {
        Some(a) => {
            proof {
                if spec_symbols_contain(f.artists@[a as int].symbols@, collection.symbol@) {
                    let k = choose|k: int|
                        0 <= k < f.artists@[a as int].symbols@.len() && (#[trigger] f.artists@[
                        a as int].symbols@[k])@ == collection.symbol@;
                    assert(artist_entry_ok(f.artists@[a as int], f.collections@));
                    assert(spec_symbol_taken(f.collections@, collection.symbol@));
                }
            }
            let mut e = f.artists.remove(a);
            e.symbols.push(collection.symbol.clone());
            f.artists.insert(a, e);
            proof {
                assert(f.artists@ =~= old(f).artists@.update(a as int, f.artists@[a as int]));
                lemma_artist_index_unique(old(f).artists@, a as int, collection.artist@);
            }
        },
        None => {
            let mut symbols: Vec<String> = Vec::new();
            symbols.push(collection.symbol.clone());
            f.artists.push(ArtistEntry { artist: collection.artist.clone(), symbols });
        },
    }
    let ghost pre = *old(f);
    let ghost c = collection;
    f.collections.push(collection);
    proof {
        lemma_symbols_unique_push(pre.collections@, c);
        // Entries untouched by the index update still agree with the grown
        // registry.
        assert forall|x: int| 0 <= x < f.artists@.len() implies artist_entry_ok(
            #[trigger] f.artists@[x], f.collections@) by {
            if spec_has_artist(pre.artists@, c.artist@) {
                let a = spec_artist_index(pre.artists@, c.artist@);
                if x != a {
                    assert(f.artists@[x] == pre.artists@[x]);
                    lemma_entry_ok_push(pre.artists@[x], pre.collections@, c);
                } else {
                    let e0 = pre.artists@[a];
                    lemma_entry_ok_push(e0, pre.collections@, c);
                    let e1 = f.artists@[a];
                    assert(e1.symbols@ == e0.symbols@.push(c.symbol));
                    assert forall|k1: int, k2: int|
                        0 <= k1 < k2 < e1.symbols@.len() implies (
                        #[trigger] e1.symbols@[k1])@ != (#[trigger] e1.symbols@[k2])@ by {
                        if k2 == e0.symbols@.len() {
                            assert(e1.symbols@[k1] == e0.symbols@[k1]);
                            if e0.symbols@[k1]@ == c.symbol@ {
                                assert(spec_symbols_contain(e0.symbols@, c.symbol@));
                            }
                        } else {
                            assert(e1.symbols@[k1] == e0.symbols@[k1]);
                            assert(e1.symbols@[k2] == e0.symbols@[k2]);
                        }
                    }
                    assert forall|k: int| 0 <= k < e1.symbols@.len() implies spec_symbol_taken(
                        f.collections@, (#[trigger] e1.symbols@[k])@) && f.collections@[
                        spec_collection_index(f.collections@, e1.symbols@[k]@)].artist@
                        == e1.artist@ by {
                        if k == e0.symbols@.len() {
                            assert(e1.symbols@[k] == c.symbol);
                            assert(f.collections@[pre.collections@.len() as int] == c);
                            lemma_collection_index_unique(f.collections@,
                                pre.collections@.len() as int, c.symbol@);
                        } else {
                            assert(e1.symbols@[k] == e0.symbols@[k]);
                            assert(artist_entry_ok(e0, f.collections@));
                        }
                    }
                }
            } else {
                if x < pre.artists@.len() {
                    assert(f.artists@[x] == pre.artists@[x]);
                    lemma_entry_ok_push(pre.artists@[x], pre.collections@, c);
                } else {
                    let e1 = f.artists@[x];
                    assert(e1.symbols@ =~= seq![c.symbol]);
                    assert forall|k: int| 0 <= k < e1.symbols@.len() implies spec_symbol_taken(
                        f.collections@, (#[trigger] e1.symbols@[k])@) && f.collections@[
                        spec_collection_index(f.collections@, e1.symbols@[k]@)].artist@
                        == e1.artist@ by {
                        assert(e1.symbols@[k] == c.symbol);
                        assert(f.collections@[pre.collections@.len() as int] == c);
                        lemma_collection_index_unique(f.collections@,
                            pre.collections@.len() as int, c.symbol@);
                    }
                }
            }
        }
        // Every collection, the new one included, is indexed under its
        // artist.
        assert forall|ci: int| 0 <= ci < f.collections@.len() implies spec_has_artist(
            f.artists@, (#[trigger] f.collections@[ci]).artist@) && spec_symbols_contain(
            f.artists@[spec_artist_index(f.artists@,
            f.collections@[ci].artist@)].symbols@, f.collections@[ci].symbol@) by {
            if spec_has_artist(pre.artists@, c.artist@) {
                let a = spec_artist_index(pre.artists@, c.artist@);
                if ci < pre.collections@.len() {
                    let cx = pre.collections@[ci];
                    assert(f.collections@[ci] == cx);
                    let p = spec_artist_index(pre.artists@, cx.artist@);
                    assert(spec_has_artist(pre.artists@, cx.artist@));
                    assert(0 <= p < pre.artists@.len() && pre.artists@[p].artist@
                        == cx.artist@);
                    assert(f.artists@[p].artist@ == cx.artist@);
                    lemma_artist_index_unique(f.artists@, p, cx.artist@);
                    if p == a {
                        assert(f.artists@[p].symbols@ == pre.artists@[p].symbols@.push(
                            c.symbol));
                        let k = choose|k: int|
                            0 <= k < pre.artists@[p].symbols@.len() && (#[trigger] pre.artists@[
                            p].symbols@[k])@ == cx.symbol@;
                        assert(f.artists@[p].symbols@[k] == pre.artists@[p].symbols@[k]);
                    }
                } else {
                    assert(f.collections@[ci] == c);
                    assert(f.artists@[a].artist@ == c.artist@);
                    lemma_artist_index_unique(f.artists@, a, c.artist@);
                    let e0 = pre.artists@[a];
                    assert(f.artists@[a].symbols@ == e0.symbols@.push(c.symbol));
                    assert(f.artists@[a].symbols@[e0.symbols@.len() as int] == c.symbol);
                }
            } else {
                let newpos = pre.artists@.len() as int;
                if ci < pre.collections@.len() {
                    let cx = pre.collections@[ci];
                    assert(f.collections@[ci] == cx);
                    let p = spec_artist_index(pre.artists@, cx.artist@);
                    assert(spec_has_artist(pre.artists@, cx.artist@));
                    assert(0 <= p < pre.artists@.len() && pre.artists@[p].artist@
                        == cx.artist@);
                    assert(f.artists@[p] == pre.artists@[p]);
                    assert forall|x: int, y: int|
                        0 <= x < y < f.artists@.len() implies (
                        #[trigger] f.artists@[x]).artist@ != (
                        #[trigger] f.artists@[y]).artist@ by {
                        if y == newpos {
                            assert(f.artists@[x] == pre.artists@[x]);
                            if pre.artists@[x].artist@ == c.artist@ {
                                assert(spec_has_artist(pre.artists@, c.artist@));
                            }
                        } else {
                            assert(f.artists@[x] == pre.artists@[x]);
                            assert(f.artists@[y] == pre.artists@[y]);
                        }
                    }
                    lemma_artist_index_unique(f.artists@, p, cx.artist@);
                } else {
                    assert(f.collections@[ci] == c);
                    assert(f.artists@[newpos].artist@ == c.artist@);
                    assert forall|x: int, y: int|
                        0 <= x < y < f.artists@.len() implies (
                        #[trigger] f.artists@[x]).artist@ != (
                        #[trigger] f.artists@[y]).artist@ by {
                        if y == newpos {
                            assert(f.artists@[x] == pre.artists@[x]);
                            if pre.artists@[x].artist@ == c.artist@ {
                                assert(spec_has_artist(pre.artists@, c.artist@));
                            }
                        } else {
                            assert(f.artists@[x] == pre.artists@[x]);
                            assert(f.artists@[y] == pre.artists@[y]);
                        }
                    }
                    lemma_artist_index_unique(f.artists@, newpos, c.artist@);
                    assert(f.artists@[newpos].symbols@[0] == c.symbol);
                }
            }
        }
        // The artist uniqueness of the grown index.
        assert forall|x: int, y: int|
            0 <= x < y < f.artists@.len() implies (#[trigger] f.artists@[x]).artist@ != (
            #[trigger] f.artists@[y]).artist@ by {
            if spec_has_artist(pre.artists@, c.artist@) {
                assert(f.artists@[x].artist@ == pre.artists@[x].artist@);
                assert(f.artists@[y].artist@ == pre.artists@[y].artist@);
            } else {
                if y == pre.artists@.len() as int {
                    assert(f.artists@[x] == pre.artists@[x]);
                    if pre.artists@[x].artist@ == c.artist@ {
                        assert(spec_has_artist(pre.artists@, c.artist@));
                    }
                } else {
                    assert(f.artists@[x] == pre.artists@[x]);
                    assert(f.artists@[y] == pre.artists@[y]);
                }
            }
        }
    }
    Ok(())
}

/// Everything `create_collection` promises, for every input.
///
/// In order: the caller must be the admin (`Unauthorized`), the symbol must
/// be well-formed (`InvalidSymbolFormat`), a royalty override must sum to 100
/// (`InvalidRoyaltySum`), the symbol must be free (`SymbolAlreadyTaken`) and
/// the counter not exhausted (`MaxSupplyReached`).  On success a pending
/// entry — address unresolved, royalty from the override or the configured
/// default — is registered, and the returned creation request carries the
/// template, the child's full initialisation and the symbol as correlation
/// token.  On every failure the state is exactly what it was.
pub open spec fn create_post(
    pre: Factory,
    post: Factory,
    sender: Seq<char>,
    now: u64,
    name: String,
    symbol: String,
    artist: String,
    minter: String,
    collection_info: String,
    royalty: Option<(u32, u32)>,
    r: Result<CreationRequest, ContractError>,
) -> bool {
    if sender != pre.config.admin@ {
        r == Err::<CreationRequest, ContractError>(ContractError::Unauthorized) && post == pre
    } else if !spec_symbol_ok(symbol@) {
        r == Err::<CreationRequest, ContractError>(ContractError::InvalidSymbolFormat) && post
            == pre
    } else if royalty matches Some(p) && p.0 + p.1 != 100 {
        r == Err::<CreationRequest, ContractError>(ContractError::InvalidRoyaltySum) && post
            == pre
    } else if spec_symbol_taken(pre.collections@, symbol@) {
        r == Err::<CreationRequest, ContractError>(ContractError::SymbolAlreadyTaken) && post
            == pre
    } else if pre.collection_count == u64::MAX {
        r == Err::<CreationRequest, ContractError>(ContractError::MaxSupplyReached) && post
            == pre
    } else {
        let royalties = match royalty {
            Some(p) => p,
            None => (pre.config.house_percentage, pre.config.artist_percentage),
        };
        let c = Collection {
            name,
            symbol,
            artist,
            contract_address: None,
            created_at: now,
            minter,
            collection_info,
            house_percentage: royalties.0,
            artist_percentage: royalties.1,
        };
        &&& r matches Ok(req)
        &&& registered(pre, post, c)
        &&& req.code_id == pre.config.nft_code_id
        &&& req.admin == pre.config.admin
        &&& req.label@ == name@ + " Collection"@
        &&& req.correlation_token == symbol
        &&& req.init == (PassInstantiateMsg {
            name,
            symbol,
            artist,
            minter,
            collection_info,
            pass_price: pre.config.price,
            pass_duration: pre.config.duration,
            grace_period: pre.config.grace_period,
            payment_address: pre.config.payment_address,
            house_percentage: royalties.0,
            artist_percentage: royalties.1,
        })
    }
}

/// Everything the resolution of a creation acknowledgment promises.
///
/// The correlation token must name a registered entry that is still pending;
/// a token no registration produced, or one whose entry was already resolved
/// (a duplicate or stale acknowledgment), is rejected with
/// `PendingCreationNotFound` and changes nothing.  On success the address is
/// written into exactly that entry — the single mutation the address field
/// ever sees.
pub open spec fn resolve_post(
    pre: Factory,
    post: Factory,
    token: Seq<char>,
    address: String,
    r: Result<(), ContractError>,
) -> bool {
    if !spec_symbol_taken(pre.collections@, token) {
        r == Err::<(), ContractError>(ContractError::PendingCreationNotFound) && post == pre
    } else {
        let idx = spec_collection_index(pre.collections@, token);
        let c = pre.collections@[idx];
        if !c.pending() {
            r == Err::<(), ContractError>(ContractError::PendingCreationNotFound) && post
                == pre
        } else {
            &&& r == Ok::<(), ContractError>(())
            &&& post.config == pre.config
            &&& post.collection_count == pre.collection_count
            &&& post.artists@ == pre.artists@
            &&& post.collections@ == pre.collections@.update(idx, Collection {
                contract_address: Some(address),
                ..c
            })
        }
    }
}

/// Sets the factory up under the given admin.  Succeeds if and only if the
/// default royalty pair sums to exactly 100; the fresh registry holds no
/// collection and its counter is zero.
pub fn instantiate(sender: String, msg: InstantiateMsg) -> (r: Result<Factory, ContractError>)
    ensures
        ({
            if msg.house_percentage + msg.artist_percentage != 100 {
                r == Err::<Factory, ContractError>(ContractError::InvalidRoyaltySum)
            } else {
                &&& r matches Ok(f)
                &&& f.wf()
                &&& f.config == (Config {
                    nft_code_id: msg.nft_code_id,
                    admin: sender,
                    price: msg.price,
                    duration: msg.duration,
                    grace_period: msg.grace_period,
                    payment_address: msg.payment_address,
                    house_percentage: msg.house_percentage,
                    artist_percentage: msg.artist_percentage,
                })
                &&& f.collection_count == 0
                &&& f.collections@.len() == 0
                &&& f.artists@.len() == 0
            }
        }),
{
    if msg.house_percentage > 100 || msg.artist_percentage > 100
        || msg.house_percentage + msg.artist_percentage != 100 {
        return Err(ContractError::InvalidRoyaltySum);
    }
    let config = Config {
        nft_code_id: msg.nft_code_id,
        admin: sender,
        price: msg.price,
        duration: msg.duration,
        grace_period: msg.grace_period,
        payment_address: msg.payment_address,
        house_percentage: msg.house_percentage,
        artist_percentage: msg.artist_percentage,
    };
    Ok(Factory { config, collections: Vec::new(), collection_count: 0, artists: Vec::new() })
}

/// Registers a collection and emits its creation request: admin-only; the
/// pending entry carries the royalty override, or the configured default
/// when none is given, and the request carries the symbol as its correlation
/// token, to be returned unmodified by the acknowledgment.
pub fn create_collection(
    f: &mut Factory,
    sender: &String,
    now: u64,
    name: String,
    symbol: String,
    artist: String,
    minter: String,
    collection_info: String,
    royalty: Option<(u32, u32)>,
) -> (r: Result<CreationRequest, ContractError>)
    requires
        old(f).wf(),
    ensures
        final(f).wf(),
        create_post(*old(f), *final(f), sender@, now, name, symbol, artist, minter,
            collection_info, royalty, r),
{
    if !(*sender == f.config.admin) {
        return Err(ContractError::Unauthorized);
    }
    if !symbol_ok(symbol.as_str()) {
        return Err(ContractError::InvalidSymbolFormat);
    }
    let royalties = match royalty {
        Some(p) => {
            if p.0 > 100 || p.1 > 100 || p.0 + p.1 != 100 {
                return Err(ContractError::InvalidRoyaltySum);
            }
            p
        },
        None => (f.config.house_percentage, f.config.artist_percentage),
    };
    let init = PassInstantiateMsg {
        name: name.clone(),
        symbol: symbol.clone(),
        artist: artist.clone(),
        minter: minter.clone(),
        collection_info: collection_info.clone(),
        pass_price: f.config.price,
        pass_duration: f.config.duration,
        grace_period: f.config.grace_period,
        payment_address: f.config.payment_address.clone(),
        house_percentage: royalties.0,
        artist_percentage: royalties.1,
    };
    let label = name.clone().concat(" Collection");
    let correlation_token = symbol.clone();
    let collection = Collection::new(name, symbol, artist, minter, None, now, collection_info,
        royalties.0, royalties.1);
    match save_new_collection(f, collection) {
        Ok(()) => Ok(CreationRequest {
            code_id: f.config.nft_code_id,
            admin: f.config.admin.clone(),
            label,
            correlation_token,
            init,
        }),
        Err(e) => Err(e),
    }
}

/// Points newly created collections at another template: admin-only.
pub fn update_nft_code_id(f: &mut Factory, sender: &String, code_id: u64) -> (r: Result<
    (),
    ContractError,
>)
    requires
        old(f).wf(),
    ensures
        final(f).wf(),
        ({
            if sender@ != old(f).config.admin@ {
                r == Err::<(), ContractError>(ContractError::Unauthorized) && *final(f)
                    == *old(f)
            } else {
                &&& r == Ok::<(), ContractError>(())
                &&& final(f).config == (Config { nft_code_id: code_id, ..old(f).config })
                &&& final(f).collections@ == old(f).collections@
                &&& final(f).collection_count == old(f).collection_count
                &&& final(f).artists@ == old(f).artists@
            }
        }),
{
    if !(*sender == f.config.admin) {
        return Err(ContractError::Unauthorized);
    }
    f.config.nft_code_id = code_id;
    Ok(())
}

/// Replaces the default royalty pair: admin-only, and accepted if and only
/// if the new pair sums to exactly 100.
pub fn update_royalties(
    f: &mut Factory,
    sender: &String,
    house_percentage: u32,
    artist_percentage: u32,
) -> (r: Result<(), ContractError>)
    requires
        old(f).wf(),
    ensures
        final(f).wf(),
        ({
            if sender@ != old(f).config.admin@ {
                r == Err::<(), ContractError>(ContractError::Unauthorized) && *final(f)
                    == *old(f)
            } else if house_percentage + artist_percentage != 100 {
                r == Err::<(), ContractError>(ContractError::InvalidRoyaltySum) && *final(f)
                    == *old(f)
            } else {
                &&& r == Ok::<(), ContractError>(())
                &&& final(f).config == (Config {
                    house_percentage,
                    artist_percentage,
                    ..old(f).config
                })
                &&& final(f).collections@ == old(f).collections@
                &&& final(f).collection_count == old(f).collection_count
                &&& final(f).artists@ == old(f).artists@
            }
        }),
{
    if !(*sender == f.config.admin) {
        return Err(ContractError::Unauthorized);
    }
    if house_percentage > 100 || artist_percentage > 100
        || house_percentage + artist_percentage != 100 {
        return Err(ContractError::InvalidRoyaltySum);
    }
    f.config.house_percentage = house_percentage;
    f.config.artist_percentage = artist_percentage;
    Ok(())
}

/// Resolves a creation acknowledgment: the entry whose symbol equals the
/// correlation token — and only that entry — receives the address, exactly
/// once.  An unknown token, or a second acknowledgment for an entry already
/// resolved, is rejected with `PendingCreationNotFound`.
pub fn reply_collection_created(
    f: &mut Factory,
    correlation_token: &String,
    contract_address: String,
) -> (r: Result<(), ContractError>)
    requires
        old(f).wf(),
    ensures
        final(f).wf(),
        resolve_post(*old(f), *final(f), correlation_token@, contract_address, r),
{
    let idx = match f.find_collection(correlation_token) {
        Some(i) => i,
        None => {
            return Err(ContractError::PendingCreationNotFound);
        },
    };
    proof {
        lemma_collection_index_unique(f.collections@, idx as int, correlation_token@);
    }
    let still_pending = match &f.collections[idx].contract_address {
        Some(_) => false,
        None => true,
    };
    if !still_pending {
        return Err(ContractError::PendingCreationNotFound);
    }
    let c = f.collections.remove(idx);
    let resolved = Collection {
        contract_address: Some(contract_address),
        ..c
    };
    f.collections.insert(idx, resolved);
    proof {
        let ghost pre = *old(f);
        assert(f.collections@ =~= pre.collections@.update(idx as int,
            f.collections@[idx as int]));
        assert forall|i: int| 0 <= i < f.collections@.len() implies (
            #[trigger] f.collections@[i]).symbol@ == pre.collections@[i].symbol@ && (
            #[trigger] f.collections@[i]).artist@ == pre.collections@[i].artist@ && (
            #[trigger] f.collections@[i]).wf() by {
            if i != idx as int {
                assert(f.collections@[i] == pre.collections@[i]);
            }
        }
        assert forall|a: int| 0 <= a < f.artists@.len() implies artist_entry_ok(
            #[trigger] f.artists@[a], f.collections@) by {
            let e = f.artists@[a];
            assert(artist_entry_ok(e, pre.collections@));
            assert forall|k: int| 0 <= k < e.symbols@.len() implies spec_symbol_taken(
                f.collections@, (#[trigger] e.symbols@[k])@) && f.collections@[
                spec_collection_index(f.collections@, e.symbols@[k]@)].artist@
                == e.artist@ by {
                let s = e.symbols@[k]@;
                let i = spec_collection_index(pre.collections@, s);
                assert(0 <= i < pre.collections@.len() && pre.collections@[i].symbol@ == s);
                assert(f.collections@[i].symbol@ == s);
                lemma_collection_index_unique(f.collections@, i, s);
            }
        }
        assert forall|ci: int| 0 <= ci < f.collections@.len() implies spec_has_artist(
            f.artists@, (#[trigger] f.collections@[ci]).artist@) && spec_symbols_contain(
            f.artists@[spec_artist_index(f.artists@,
            f.collections@[ci].artist@)].symbols@, f.collections@[ci].symbol@) by {
            assert(f.collections@[ci].artist@ == pre.collections@[ci].artist@);
            assert(f.collections@[ci].symbol@ == pre.collections@[ci].symbol@);
        }
    }
    Ok(())
}

/// Routes a host reply: only the creation reply identifier is known; any
/// other is rejected as `UnknownReplyId`, and a known one resolves the
/// acknowledgment it carries.
pub fn reply(
    f: &mut Factory,
    reply_id: u64,
    correlation_token: &String,
    contract_address: String,
) -> (r: Result<(), ContractError>)
    requires
        old(f).wf(),
    ensures
        final(f).wf(),
        ({
            if reply_id != CREATED_REPLY_ID {
                r == Err::<(), ContractError>(ContractError::UnknownReplyId { id: reply_id })
                    && *final(f) == *old(f)
            } else {
                resolve_post(*old(f), *final(f), correlation_token@, contract_address, r)
            }
        }),
{
    if reply_id != CREATED_REPLY_ID {
        return Err(ContractError::UnknownReplyId { id: reply_id });
    }
    reply_collection_created(f, correlation_token, contract_address)
}

/// Routes a factory command to its handler, with the promises of that
/// handler carried through unchanged; commands from the host surface carry
/// no royalty override.
pub fn execute(f: &mut Factory, sender: &String, now: u64, msg: ExecuteMsg) -> (r: Result<
    FactoryOutcome,
    ContractError,
>)
    requires
        old(f).wf(),
    ensures
        final(f).wf(),
        ({
            match msg {
                ExecuteMsg::CreateCollection { name, symbol, artist, minter, collection_info }
                    => match r {
                    Ok(FactoryOutcome::Created(req)) => create_post(*old(f), *final(f),
                        sender@, now, name, symbol, artist, minter, collection_info,
                        None, Ok(req)),
                    Err(e) => create_post(*old(f), *final(f), sender@, now, name, symbol,
                        artist, minter, collection_info, None, Err(e)),
                    _ => false,
                },
                ExecuteMsg::UpdateNftCodeId { code_id } => {
                    if sender@ != old(f).config.admin@ {
                        r == Err::<FactoryOutcome, ContractError>(ContractError::Unauthorized)
                            && *final(f) == *old(f)
                    } else {
                        &&& r == Ok::<FactoryOutcome, ContractError>(
                            FactoryOutcome::CodeIdUpdated { code_id })
                        &&& final(f).config == (Config { nft_code_id: code_id,
                            ..old(f).config })
                        &&& final(f).collections@ == old(f).collections@
                        &&& final(f).collection_count == old(f).collection_count
                        &&& final(f).artists@ == old(f).artists@
                    }
                },
                ExecuteMsg::UpdateRoyalties { house_percentage, artist_percentage } => {
                    if sender@ != old(f).config.admin@ {
                        r == Err::<FactoryOutcome, ContractError>(ContractError::Unauthorized)
                            && *final(f) == *old(f)
                    } else if house_percentage + artist_percentage != 100 {
                        r == Err::<FactoryOutcome, ContractError>(
                            ContractError::InvalidRoyaltySum) && *final(f) == *old(f)
                    } else {
                        &&& r == Ok::<FactoryOutcome, ContractError>(
                            FactoryOutcome::RoyaltiesUpdated { house_percentage,
                            artist_percentage })
                        &&& final(f).config == (Config { house_percentage, artist_percentage,
                            ..old(f).config })
                        &&& final(f).collections@ == old(f).collections@
                        &&& final(f).collection_count == old(f).collection_count
                        &&& final(f).artists@ == old(f).artists@
                    }
                },
            }
        }),
{
    match msg {
        ExecuteMsg::CreateCollection { name, symbol, artist, minter, collection_info } => {
            match create_collection(f, sender, now, name, symbol, artist, minter,
                collection_info, None) {
                Ok(req) => Ok(FactoryOutcome::Created(req)),
                Err(e) => Err(e),
            }
        },
        ExecuteMsg::UpdateNftCodeId { code_id } => {
            match update_nft_code_id(f, sender, code_id) {
                Ok(()) => Ok(FactoryOutcome::CodeIdUpdated { code_id }),
                Err(e) => Err(e),
            }
        },
        ExecuteMsg::UpdateRoyalties { house_percentage, artist_percentage } => {
            match update_royalties(f, sender, house_percentage, artist_percentage) {
                Ok(()) => Ok(FactoryOutcome::RoyaltiesUpdated { house_percentage,
                    artist_percentage }),
                Err(e) => Err(e),
            }
        },
    }
}

/// Registering a symbol takes it: once an entry with some symbol has been
/// registered, a second registration of any entry with the same symbol — with
/// any other fields, valid royalties and format included — must fail with
/// `SymbolAlreadyTaken` and leave the state untouched.
pub proof fn lemma_duplicate_registration_fails(
    pre: Factory,
    mid: Factory,
    post: Factory,
    c1: Collection,
    c2: Collection,
    r2: Result<(), ContractError>,
)
    requires
        save_post(pre, mid, c1, Ok(())),
        save_post(mid, post, c2, r2),
        c2.symbol@ == c1.symbol@,
        c2.house_percentage + c2.artist_percentage == 100,
    ensures
        r2 == Err::<(), ContractError>(ContractError::SymbolAlreadyTaken),
        post == mid,
{
    let n = pre.collections@.len() as int;
    assert(mid.collections@[n] == c1);
    assert(spec_symbol_ok(c2.symbol@)) by {
        assert(spec_symbol_ok(c1.symbol@));
    }
    assert(spec_symbol_taken(mid.collections@, c2.symbol@));
}

/// The law above, carried through the command surface: once one
/// `create_collection` with `symbol` has succeeded, a second call with the
/// same symbol — by the admin, under any name, artist, minter or valid
/// royalty override — must fail with `SymbolAlreadyTaken` and leave the
/// state untouched.
pub proof fn lemma_second_registration_fails(
    pre: Factory,
    mid: Factory,
    post: Factory,
    sender1: Seq<char>,
    now1: u64,
    name1: String,
    symbol1: String,
    artist1: String,
    minter1: String,
    info1: String,
    royalty1: Option<(u32, u32)>,
    req: CreationRequest,
    sender2: Seq<char>,
    now2: u64,
    name2: String,
    symbol2: String,
    artist2: String,
    minter2: String,
    info2: String,
    royalty2: Option<(u32, u32)>,
    r2: Result<CreationRequest, ContractError>,
)
    requires
        create_post(pre, mid, sender1, now1, name1, symbol1, artist1, minter1, info1,
            royalty1, Ok(req)),
        create_post(mid, post, sender2, now2, name2, symbol2, artist2, minter2, info2,
            royalty2, r2),
        symbol2@ == symbol1@,
        sender2 == mid.config.admin@,
        royalty2 matches Some(p) ==> p.0 + p.1 == 100,
    ensures
        r2 == Err::<CreationRequest, ContractError>(ContractError::SymbolAlreadyTaken),
        post == mid,
{
    let n = pre.collections@.len() as int;
    assert(mid.collections@[n].symbol@ == symbol1@);
    assert(spec_symbol_taken(mid.collections@, symbol2@));
}

/// An acknowledgment whose correlation token matches no registered entry is
/// rejected with `PendingCreationNotFound` and changes nothing.
pub proof fn lemma_unknown_token_rejected(
    pre: Factory,
    post: Factory,
    token: Seq<char>,
    address: String,
    r: Result<(), ContractError>,
)
    requires
        resolve_post(pre, post, token, address, r),
        !spec_symbol_taken(pre.collections@, token),
    ensures
        r == Err::<(), ContractError>(ContractError::PendingCreationNotFound),
        post == pre,
{
}

/// Resolution happens exactly once: after an acknowledgment has resolved the
/// entry of a correlation token, a second acknowledgment with the same token
/// — whatever address it carries — is rejected with
/// `PendingCreationNotFound` and changes nothing.
pub proof fn lemma_second_resolution_fails(
    pre: Factory,
    mid: Factory,
    post: Factory,
    token: Seq<char>,
    addr1: String,
    addr2: String,
    r2: Result<(), ContractError>,
)
    requires
        pre.wf(),
        resolve_post(pre, mid, token, addr1, Ok(())),
        resolve_post(mid, post, token, addr2, r2),
    ensures
        r2 == Err::<(), ContractError>(ContractError::PendingCreationNotFound),
        post == mid,
{
    let idx = spec_collection_index(pre.collections@, token);
    assert(0 <= idx < pre.collections@.len() && pre.collections@[idx].symbol@ == token);
    assert(mid.collections@[idx].symbol@ == token);
    assert forall|i: int, j: int|
        0 <= i < j < mid.collections@.len() implies (
        #[trigger] mid.collections@[i]).symbol@ != (
        #[trigger] mid.collections@[j]).symbol@ by {
        if i != idx {
            assert(mid.collections@[i] == pre.collections@[i]);
        }
        if j != idx {
            assert(mid.collections@[j] == pre.collections@[j]);
        }
        assert(mid.collections@[i].symbol@ == pre.collections@[i].symbol@);
        assert(mid.collections@[j].symbol@ == pre.collections@[j].symbol@);
    }
    lemma_collection_index_unique(mid.collections@, idx, token);
    assert(!mid.collections@[idx].pending());
}

} // verus!
