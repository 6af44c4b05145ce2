//! Read-only views of a collection: pass validity, the owner's pass under a
//! symbol, the configuration and the artist's tally.

use vstd::prelude::*;

use crate::error::ContractError;
use crate::pass::msg::{ArtistInfoResponse, ConfigResponse, PassQuery, PassQueryAnswer,
    PassResponse, ValidityResponse};
use crate::pass::state::{Pass, PassCollection, PassStatus, lemma_token_index_unique,
    spec_has_token, spec_status, spec_token_index};
use crate::text::{lemma_char_eq_code, lemma_lower_char_code, lower_char, spec_lower,
    spec_starts_with};

verus! {

/// The identifier prefix every pass of a collection with `symbol` carries:
/// the lowercased symbol followed by a dash.
pub open spec fn spec_user_prefix(symbol: Seq<char>) -> Seq<char> {
    spec_lower(symbol).push('-')
}

/// A pass that answers a user-pass query: owned by `owner` and carrying the
/// collection's identifier prefix.
pub open spec fn spec_user_match(t: Pass, owner: Seq<char>, prefix: Seq<char>) -> bool {
    t.owner@ == owner && spec_starts_with(t.token_id@, prefix)
}

/// The position of the first pass answering a user-pass query, if any.
pub open spec fn spec_first_user_pass(
    tokens: Seq<Pass>,
    owner: Seq<char>,
    prefix: Seq<char>,
) -> Option<int>
    decreases tokens.len(),
{
    if tokens.len() == 0 {
        None
    } else if spec_user_match(tokens[0], owner, prefix) {
        Some(0)
    } else {
        match spec_first_user_pass(tokens.drop_first(), owner, prefix) {
            Some(i) => Some(i + 1),
            None => None,
        }
    }
}

proof fn lemma_first_user_pass_step(
    tokens: Seq<Pass>,
    owner: Seq<char>,
    prefix: Seq<char>,
    i: int,
)
    requires
        0 <= i <= tokens.len(),
        forall|j: int| 0 <= j < i ==> !spec_user_match(#[trigger] tokens[j], owner, prefix),
    ensures
        spec_first_user_pass(tokens, owner, prefix) == (
            match spec_first_user_pass(tokens.skip(i), owner, prefix) {
                Some(k) => Some(k + i),
                None => None::<int>,
            }
        ),
    decreases i,
{
    if i > 0 {
        lemma_first_user_pass_step(tokens, owner, prefix, i - 1);
        assert(tokens.skip(i - 1).drop_first() =~= tokens.skip(i));
        assert(tokens.skip(i - 1)[0] == tokens[i - 1]);
    } else {
        assert(tokens.skip(0) =~= tokens);
    }
}

/// Checks whether `id` starts with the lowercased `symbol` followed by a
/// dash, lowering the symbol letter by letter as it compares.
fn has_user_prefix(id: &str, symbol: &str) -> (b: bool)
    ensures
        b == spec_starts_with(id@, spec_user_prefix(symbol@)),
{
    let sn = symbol.unicode_len();
    let idn = id.unicode_len();
    if idn <= sn {
        return false;
    }
    let mut i: usize = 0;
    while i < sn
        invariant
            sn == symbol@.len(),
            idn == id@.len(),
            idn > sn,
            0 <= i <= sn,
            forall|j: int| 0 <= j < i ==> id@[j] == #[trigger] spec_user_prefix(symbol@)[j],
        decreases sn - i,
    {
        let c1 = symbol.get_char(i);
        let c2 = id.get_char(i);
        let u1 = c1 as u32;
        let u2 = c2 as u32;
        let lowered: u32 = if 65 <= u1 && u1 <= 90 {
            u1 + 32
        } else {
            u1
        };
        proof {
            lemma_lower_char_code(c1);
            lemma_char_eq_code(c2, lower_char(c1));
            assert(spec_user_prefix(symbol@)[i as int] == lower_char(c1));
        }
        if u2 != lowered {
            return false;
        }
        i = i + 1;
    }
    let dash = id.get_char(sn);
    proof {
        assert(spec_user_prefix(symbol@)[sn as int] == '-');
    }
    if dash == '-' {
        true
    } else {
        false
    }
}

/// Finds the pass `owner` holds under `symbol`: the first pass owned by
/// `owner` whose identifier carries the collection prefix of `symbol`.
/// Reports whether that pass may still be used and when it expires; fails
/// with `TokenNotFound` when the owner holds no such pass.
pub fn get_user_pass(
    pc: &PassCollection,
    now: u64,
    contract_address: String,
    symbol: &String,
    owner: &String,
) -> (r: Result<PassResponse, ContractError>)
    ensures
        ({
            match spec_first_user_pass(pc.tokens@, owner@, spec_user_prefix(symbol@)) {
                None => r == Err::<PassResponse, ContractError>(ContractError::TokenNotFound),
                Some(i) => {
                    let t = pc.tokens@[i];
                    &&& r matches Ok(resp)
                    &&& resp.collection_name == pc.config.name
                    &&& resp.contract_address == contract_address
                    &&& resp.token_id == t.token_id
                    &&& resp.owner == *owner
                    &&& resp.is_valid == (spec_status(t.extension.expires_at,
                        t.extension.grace_period_end, now) != PassStatus::Expired)
                    &&& resp.expires_at == t.extension.expires_at
                },
            }
        }),
{
    let n = pc.tokens.len();
    let mut i: usize = 0;
    while i < n
        invariant
            n == pc.tokens@.len(),
            0 <= i <= n,
            forall|j: int| 0 <= j < i ==> !spec_user_match(#[trigger] pc.tokens@[j], owner@,
                spec_user_prefix(symbol@)),
        decreases n - i,
    {
        let owner_matches = pc.tokens[i].owner == *owner;
        if owner_matches && has_user_prefix(pc.tokens[i].token_id.as_str(), symbol.as_str()) {
            proof {
                lemma_first_user_pass_step(pc.tokens@, owner@, spec_user_prefix(symbol@),
                    i as int);
                assert(pc.tokens@.skip(i as int)[0] == pc.tokens@[i as int]);
            }
            let status = pc.tokens[i].extension.status(now);
            let is_valid = status != PassStatus::Expired;
            return Ok(PassResponse {
                collection_name: pc.config.name.clone(),
                contract_address,
                token_id: pc.tokens[i].token_id.clone(),
                owner: owner.clone(),
                is_valid,
                expires_at: pc.tokens[i].extension.expires_at,
            });
        }
        i = i + 1;
    }
    proof {
        lemma_first_user_pass_step(pc.tokens@, owner@, spec_user_prefix(symbol@), n as int);
        assert(pc.tokens@.skip(n as int) =~= Seq::<Pass>::empty());
    }
    Err(ContractError::TokenNotFound)
}

/// Reports where the pass with `token_id` stands at `now`: whether it may
/// still be used (active or in grace), whether it is in its grace period, and
/// its window; fails with `TokenNotFound` when no such pass exists.
pub fn query_validity(
    pc: &PassCollection,
    now: u64,
    token_id: String,
) -> (r: Result<ValidityResponse, ContractError>)
    requires
        pc.wf(),
    ensures
        ({
            if !spec_has_token(pc.tokens@, token_id@) {
                r == Err::<ValidityResponse, ContractError>(ContractError::TokenNotFound)
            } else {
                let t = pc.tokens@[spec_token_index(pc.tokens@, token_id@)];
                let status = spec_status(t.extension.expires_at, t.extension.grace_period_end,
                    now);
                &&& r matches Ok(v)
                &&& v.token_id == token_id
                &&& v.is_valid == (status != PassStatus::Expired)
                &&& v.expires_at == t.extension.expires_at
                &&& v.in_grace_period == (status == PassStatus::InGracePeriod)
                &&& v.grace_period_end == (if status != PassStatus::Expired {
                    Some(t.extension.grace_period_end)
                } else {
                    None::<u64>
                })
            }
        }),
{
    let idx = match pc.find_token(&token_id) {
        Some(i) => i,
        None => {
            return Err(ContractError::TokenNotFound);
        },
    };
    proof {
        lemma_token_index_unique(pc.tokens@, idx as int, token_id@);
    }
    let status = pc.tokens[idx].extension.status(now);
    let is_valid = status != PassStatus::Expired;
    let in_grace_period = status == PassStatus::InGracePeriod;
    let grace_period_end = if is_valid {
        Some(pc.tokens[idx].extension.grace_period_end)
    } else {
        None
    };
    Ok(ValidityResponse {
        token_id,
        is_valid,
        expires_at: pc.tokens[idx].extension.expires_at,
        in_grace_period,
        grace_period_end,
    })
}

/// How many passes carry the active flag, among the first `tokens` entries.
pub open spec fn spec_active_count(tokens: Seq<Pass>) -> nat
    decreases tokens.len(),
{
    if tokens.len() == 0 {
        0
    } else {
        spec_active_count(tokens.drop_last()) + if tokens.last().extension.is_active {
            1nat
        } else {
            0nat
        }
    }
}

/// The artist behind this collection, the number of live passes and how many
/// of them carry the active flag.
pub fn query_artist_info(pc: &PassCollection) -> (r: ArtistInfoResponse)
    ensures
        r.artist == pc.config.artist,
        r.total_passes == pc.tokens@.len(),
        r.active_passes == spec_active_count(pc.tokens@),
{
    let n = pc.tokens.len();
    let mut active: u64 = 0;
    let mut i: usize = 0;
    while i < n
        invariant
            n == pc.tokens@.len(),
            0 <= i <= n,
            active == spec_active_count(pc.tokens@.take(i as int)),
            active <= i,
        decreases n - i,
    {
        proof {
            assert(pc.tokens@.take(i + 1).drop_last() =~= pc.tokens@.take(i as int));
            assert(pc.tokens@.take(i + 1).last() == pc.tokens@[i as int]);
        }
        if pc.tokens[i].extension.is_active {
            active = active + 1;
        }
        i = i + 1;
    }
    proof {
        assert(pc.tokens@.take(n as int) =~= pc.tokens@);
    }
    ArtistInfoResponse {
        artist: pc.config.artist.clone(),
        total_passes: pc.tokens.len() as u64,
        active_passes: active,
    }
}

/// Echoes the collection configuration.
pub fn query_config(pc: &PassCollection) -> (r: ConfigResponse)
    ensures
        r.name == pc.config.name,
        r.symbol == pc.config.symbol,
        r.artist == pc.config.artist,
        r.minter == pc.config.minter,
        r.collection_info == pc.config.collection_info,
        r.pass_price == pc.config.pass_price,
        r.pass_duration == pc.config.pass_duration,
        r.grace_period == pc.config.grace_period,
        r.payment_address == pc.config.payment_address,
        r.house_percentage == pc.config.house_percentage,
        r.artist_percentage == pc.config.artist_percentage,
{
    ConfigResponse {
        name: pc.config.name.clone(),
        symbol: pc.config.symbol.clone(),
        artist: pc.config.artist.clone(),
        minter: pc.config.minter.clone(),
        collection_info: pc.config.collection_info.clone(),
        pass_price: pc.config.pass_price,
        pass_duration: pc.config.pass_duration,
        grace_period: pc.config.grace_period,
        payment_address: pc.config.payment_address.clone(),
        house_percentage: pc.config.house_percentage,
        artist_percentage: pc.config.artist_percentage,
    }
}

/// Routes a query to its handler, with the promises of that handler carried
/// through unchanged.
pub fn query(
    pc: &PassCollection,
    now: u64,
    contract_address: String,
    msg: PassQuery,
) -> (r: Result<PassQueryAnswer, ContractError>)
    requires
        pc.wf(),
    ensures
        ({
            match msg {
                PassQuery::GetUserPass { symbol, owner } => {
                    match spec_first_user_pass(pc.tokens@, owner@, spec_user_prefix(symbol@)) {
                        None => r == Err::<PassQueryAnswer, ContractError>(
                            ContractError::TokenNotFound),
                        Some(i) => {
                            let t = pc.tokens@[i];
                            &&& r matches Ok(PassQueryAnswer::UserPass(resp))
                            &&& resp.token_id == t.token_id
                            &&& resp.owner == owner
                            &&& resp.collection_name == pc.config.name
                            &&& resp.contract_address == contract_address
                            &&& resp.is_valid == (spec_status(t.extension.expires_at,
                                t.extension.grace_period_end, now) != PassStatus::Expired)
                            &&& resp.expires_at == t.extension.expires_at
                        },
                    }
                },
                PassQuery::CheckValidity { token_id } => {
                    if !spec_has_token(pc.tokens@, token_id@) {
                        r == Err::<PassQueryAnswer, ContractError>(ContractError::TokenNotFound)
                    } else {
                        let t = pc.tokens@[spec_token_index(pc.tokens@, token_id@)];
                        let status = spec_status(t.extension.expires_at,
                            t.extension.grace_period_end, now);
                        &&& r matches Ok(PassQueryAnswer::Validity(v))
                        &&& v.token_id == token_id
                        &&& v.is_valid == (status != PassStatus::Expired)
                        &&& v.in_grace_period == (status == PassStatus::InGracePeriod)
                        &&& v.expires_at == t.extension.expires_at
                    }
                },
                PassQuery::GetConfig {} => {
                    &&& r matches Ok(PassQueryAnswer::Config(c))
                    &&& c.name == pc.config.name
                    &&& c.symbol == pc.config.symbol
                    &&& c.pass_price == pc.config.pass_price
                    &&& c.pass_duration == pc.config.pass_duration
                    &&& c.grace_period == pc.config.grace_period
                    &&& c.payment_address == pc.config.payment_address
                    &&& c.house_percentage == pc.config.house_percentage
                    &&& c.artist_percentage == pc.config.artist_percentage
                },
                PassQuery::GetArtistInfo {} => {
                    &&& r matches Ok(PassQueryAnswer::ArtistInfo(a))
                    &&& a.artist == pc.config.artist
                    &&& a.total_passes == pc.tokens@.len()
                    &&& a.active_passes == spec_active_count(pc.tokens@)
                },
            }
        }),
{
    match msg {
        PassQuery::GetUserPass { symbol, owner } => {
            match get_user_pass(pc, now, contract_address, &symbol, &owner) {
                Ok(resp) => Ok(PassQueryAnswer::UserPass(resp)),
                Err(e) => Err(e),
            }
        },
        PassQuery::CheckValidity { token_id } => {
            match query_validity(pc, now, token_id) {
                Ok(v) => Ok(PassQueryAnswer::Validity(v)),
                Err(e) => Err(e),
            }
        },
        PassQuery::GetConfig {} => Ok(PassQueryAnswer::Config(query_config(pc))),
        PassQuery::GetArtistInfo {} => Ok(PassQueryAnswer::ArtistInfo(query_artist_info(pc))),
    }
}

} // verus!
