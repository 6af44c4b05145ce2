//! The lifecycle commands of a collection: instantiation, minting, renewal
//! and burning, each with its exact outcome for every input.

use vstd::prelude::*;

use crate::error::ContractError;
use crate::payment::{Coin, settlement_denom, spec_paid_amount, spec_settlement_denom, split,
    validate_payment};
use crate::pass::msg::{BankPayment, InstantiateMsg, MintReceipt, PassMsg, PassOutcome,
    RenewReceipt};
use crate::pass::state::{Config, Pass, PassCollection, PassExtension, PassStatus,
    lemma_token_index_unique, make_token_id, spec_fresh, spec_has_token, spec_renewed,
    spec_status, spec_token_id, spec_token_index};
use crate::text::{spec_symbol_ok, symbol_ok};

verus! {

/// The amount supplied in the settlement denomination, if any.
pub open spec fn spec_paid(funds: Seq<Coin>) -> Option<u128> {
    spec_paid_amount(funds, spec_settlement_denom())
}

/// The two payment orders of an exact royalty split of `paid` under
/// `config`: the house payee receives `floor(paid * house_percentage / 100)`
/// and the artist the exact remainder.
pub open spec fn split_payments_ok(
    house: BankPayment,
    artist: BankPayment,
    config: Config,
    paid: u128,
) -> bool {
    &&& house.to_address@ == config.payment_address@
    &&& house.denom@ == spec_settlement_denom()
    &&& house.amount == paid * (config.house_percentage as u128) / 100
    &&& artist.to_address@ == config.artist@
    &&& artist.denom@ == spec_settlement_denom()
    &&& artist.amount == paid - house.amount
    &&& house.amount + artist.amount == paid
}

/// Everything `mint_pass` promises, for every input.
///
/// In order: the settlement denomination must be attached (`PaymentMissing`),
/// cover the price (`PaymentInsufficient`), the counter must not be exhausted
/// (`MaxSupplyReached`) and the derived identifier must be new (`TokenExists`).
/// When all of that holds the mint succeeds: the counter advances once, one
/// pass with the derived identifier and a fresh window is appended, and the
/// receipt carries the split of the whole attached amount.  On every failure
/// the state is exactly what it was.
pub open spec fn mint_post(
    pre: PassCollection,
    post: PassCollection,
    now: u64,
    owner: Seq<char>,
    funds: Seq<Coin>,
    r: Result<MintReceipt, ContractError>,
) -> bool {
    match spec_paid(funds) {
        None => r == Err::<MintReceipt, ContractError>(ContractError::PaymentMissing) && post
            == pre,
        Some(paid) => if paid < pre.config.pass_price {
            r == Err::<MintReceipt, ContractError>(ContractError::PaymentInsufficient) && post
                == pre
        } else if pre.token_counter == u64::MAX {
            r == Err::<MintReceipt, ContractError>(ContractError::MaxSupplyReached) && post
                == pre
        } else {
            let serial = (pre.token_counter + 1) as u64;
            let id = spec_token_id(pre.config.symbol@, serial as nat);
            if spec_has_token(pre.tokens@, id) {
                r == Err::<MintReceipt, ContractError>(ContractError::TokenExists) && post
                    == pre
            } else {
                &&& r matches Ok(rec)
                &&& rec.token_id@ == id
                &&& rec.owner@ == owner
                &&& split_payments_ok(rec.house_payment, rec.artist_payment, pre.config, paid)
                &&& post.config == pre.config
                &&& post.token_counter == serial
                &&& post.tokens@.len() == pre.tokens@.len() + 1
                &&& forall|i: int| 0 <= i < pre.tokens@.len() ==> post.tokens@[i]
                    == pre.tokens@[i]
                &&& post.tokens@.last().token_id@ == id
                &&& post.tokens@.last().owner@ == owner
                &&& post.tokens@.last().extension == spec_fresh(
                    now, pre.config.pass_duration, pre.config.grace_period)
            }
        },
    }
}

/// Everything `renew_pass` promises, for every input.
///
/// In order: the pass must exist (`TokenNotFound`), the caller must be its
/// owner or the collection minter (`Unauthorized`), and the payment rule of
/// minting applies unchanged (`PaymentMissing` / `PaymentInsufficient`).  On
/// success the window of that one pass is recomputed from the renewal time
/// alone — remaining time is discarded — its renewal count steps once, and
/// the receipt carries the split of the whole attached amount.  On every
/// failure the state is exactly what it was.
pub open spec fn renew_post(
    pre: PassCollection,
    post: PassCollection,
    sender: Seq<char>,
    now: u64,
    token_id: Seq<char>,
    funds: Seq<Coin>,
    r: Result<RenewReceipt, ContractError>,
) -> bool {
    if !spec_has_token(pre.tokens@, token_id) {
        r == Err::<RenewReceipt, ContractError>(ContractError::TokenNotFound) && post == pre
    } else {
        let idx = spec_token_index(pre.tokens@, token_id);
        let t = pre.tokens@[idx];
        if sender != t.owner@ && sender != pre.config.minter@ {
            r == Err::<RenewReceipt, ContractError>(ContractError::Unauthorized) && post == pre
        } else {
            match spec_paid(funds) {
                None => r == Err::<RenewReceipt, ContractError>(ContractError::PaymentMissing)
                    && post == pre,
                Some(paid) => if paid < pre.config.pass_price {
                    r == Err::<RenewReceipt, ContractError>(
                        ContractError::PaymentInsufficient) && post == pre
                } else {
                    &&& r matches Ok(rec)
                    &&& rec.token_id@ == token_id
                    &&& rec.new_expires_at == now + pre.config.pass_duration
                    &&& split_payments_ok(rec.house_payment, rec.artist_payment, pre.config,
                        paid)
                    &&& post.config == pre.config
                    &&& post.token_counter == pre.token_counter
                    &&& post.tokens@ == pre.tokens@.update(idx, Pass {
                        token_id: t.token_id,
                        owner: t.owner,
                        extension: spec_renewed(t.extension, now, pre.config.pass_duration,
                            pre.config.grace_period),
                    })
                },
            }
        }
    }
}

/// Everything `burn_expired_pass` promises, for every input.
///
/// In order: the pass must exist (`TokenNotFound`), its grace period must be
/// over (`PassNotExpired`), and the caller must be its owner or the
/// collection minter (`Unauthorized`).  On success that one pass is removed;
/// on every failure the state is exactly what it was.
pub open spec fn burn_post(
    pre: PassCollection,
    post: PassCollection,
    sender: Seq<char>,
    now: u64,
    token_id: Seq<char>,
    r: Result<(), ContractError>,
) -> bool {
    if !spec_has_token(pre.tokens@, token_id) {
        r == Err::<(), ContractError>(ContractError::TokenNotFound) && post == pre
    } else {
        let idx = spec_token_index(pre.tokens@, token_id);
        let t = pre.tokens@[idx];
        if spec_status(t.extension.expires_at, t.extension.grace_period_end, now)
            != PassStatus::Expired {
            r == Err::<(), ContractError>(ContractError::PassNotExpired) && post == pre
        } else if sender != t.owner@ && sender != pre.config.minter@ {
            r == Err::<(), ContractError>(ContractError::Unauthorized) && post == pre
        } else {
            &&& r == Ok::<(), ContractError>(())
            &&& post.config == pre.config
            &&& post.token_counter == pre.token_counter
            &&& post.tokens@ == pre.tokens@.remove(idx)
        }
    }
}

/// Sets a collection up, validating the royalty pair and the symbol format.
/// Succeeds if and only if the percentages sum to exactly 100 and the symbol
/// is well-formed; the fresh registry holds no pass and its counter is zero.
pub fn instantiate(msg: InstantiateMsg) -> (r: Result<PassCollection, ContractError>)
    ensures
        ({
            if msg.house_percentage + msg.artist_percentage != 100 {
                r == Err::<PassCollection, ContractError>(ContractError::InvalidRoyaltySum)
            } else if !spec_symbol_ok(msg.symbol@) {
                r == Err::<PassCollection, ContractError>(ContractError::InvalidSymbolFormat)
            } else {
                &&& r matches Ok(pc)
                &&& pc.wf()
                &&& pc.config.name == msg.name
                &&& pc.config.symbol == msg.symbol
                &&& pc.config.artist == msg.artist
                &&& pc.config.minter == msg.minter
                &&& pc.config.collection_info == msg.collection_info
                &&& pc.config.pass_price == msg.pass_price
                &&& pc.config.pass_duration == msg.pass_duration
                &&& pc.config.grace_period == msg.grace_period
                &&& pc.config.payment_address == msg.payment_address
                &&& pc.config.house_percentage == msg.house_percentage
                &&& pc.config.artist_percentage == msg.artist_percentage
                &&& pc.token_counter == 0
                &&& pc.tokens@.len() == 0
            }
        }),
{
    if msg.house_percentage > 100 || msg.artist_percentage > 100
        || msg.house_percentage + msg.artist_percentage != 100 {
        return Err(ContractError::InvalidRoyaltySum);
    }
    if !symbol_ok(msg.symbol.as_str()) {
        return Err(ContractError::InvalidSymbolFormat);
    }
    let config = Config {
        name: msg.name,
        symbol: msg.symbol,
        artist: msg.artist,
        minter: msg.minter,
        collection_info: msg.collection_info,
        pass_price: msg.pass_price,
        pass_duration: msg.pass_duration,
        grace_period: msg.grace_period,
        house_percentage: msg.house_percentage,
        artist_percentage: msg.artist_percentage,
        payment_address: msg.payment_address,
    };
    Ok(PassCollection { config, token_counter: 0, tokens: Vec::new() })
}

/// Mints a pass for `owner_address`, charging the configured price and
/// splitting the whole attached settlement amount between house and artist.
pub fn mint_pass(
    pc: &mut PassCollection,
    now: u64,
    owner_address: String,
    funds: &Vec<Coin>,
) -> (r: Result<MintReceipt, ContractError>)
    requires
        old(pc).wf(),
        now + old(pc).config.pass_duration + old(pc).config.grace_period <= u64::MAX,
    ensures
        final(pc).wf(),
        mint_post(*old(pc), *final(pc), now, owner_address@, funds@, r),
{
    let paid = match validate_payment(funds, pc.config.pass_price) {
        Ok(a) => a,
        Err(e) => {
            return Err(e);
        },
    };
    if pc.token_counter == u64::MAX {
        return Err(ContractError::MaxSupplyReached);
    }
    let serial = pc.token_counter + 1;
    let token_id = make_token_id(&pc.config.symbol, serial);
    if pc.find_token(&token_id).is_some() {
        return Err(ContractError::TokenExists);
    }
    pc.token_counter = serial;
    let extension = PassExtension::new(now, pc.config.pass_duration, pc.config.grace_period);
    let owner_kept = owner_address.clone();
    pc.tokens.push(Pass { token_id: token_id.clone(), owner: owner_address, extension });
    let (house_amount, artist_amount) = split(paid, pc.config.house_percentage);
    let denom = settlement_denom();
    let receipt = MintReceipt {
        token_id,
        owner: owner_kept,
        house_payment: BankPayment {
            to_address: pc.config.payment_address.clone(),
            denom: denom.clone(),
            amount: house_amount,
        },
        artist_payment: BankPayment {
            to_address: pc.config.artist.clone(),
            denom,
            amount: artist_amount,
        },
    };
    Ok(receipt)
}

/// Renews a pass: same payment rule as minting, caller must be the pass
/// owner or the collection minter, and the window restarts at `now`.
pub fn renew_pass(
    pc: &mut PassCollection,
    sender: &String,
    now: u64,
    token_id: &String,
    funds: &Vec<Coin>,
) -> (r: Result<RenewReceipt, ContractError>)
    requires
        old(pc).wf(),
        now + old(pc).config.pass_duration + old(pc).config.grace_period <= u64::MAX,
        spec_has_token(old(pc).tokens@, token_id@) ==> old(pc).tokens@[spec_token_index(
            old(pc).tokens@, token_id@)].extension.times_renewed < u32::MAX,
    ensures
        final(pc).wf(),
        renew_post(*old(pc), *final(pc), sender@, now, token_id@, funds@, r),
{
    let idx = match pc.find_token(token_id) {
        Some(i) => i,
        None => {
            return Err(ContractError::TokenNotFound);
        },
    };
    proof {
        lemma_token_index_unique(pc.tokens@, idx as int, token_id@);
    }
    let authorized = *sender == pc.tokens[idx].owner || *sender == pc.config.minter;
    if !authorized {
        return Err(ContractError::Unauthorized);
    }
    let paid = match validate_payment(funds, pc.config.pass_price) {
        Ok(a) => a,
        Err(e) => {
            return Err(e);
        },
    };
    let duration = pc.config.pass_duration;
    let grace = pc.config.grace_period;
    let t = pc.tokens.remove(idx);
    let mut extension = t.extension;
    extension.renew(now, duration, grace);
    let renewed = Pass { token_id: t.token_id, owner: t.owner, extension };
    pc.tokens.insert(idx, renewed);
    proof {
        assert(pc.tokens@ =~= old(pc).tokens@.update(idx as int, pc.tokens@[idx as int]));
    }
    let (house_amount, artist_amount) = split(paid, pc.config.house_percentage);
    let denom = settlement_denom();
    Ok(RenewReceipt {
        token_id: token_id.clone(),
        new_expires_at: extension.expires_at,
        house_payment: BankPayment {
            to_address: pc.config.payment_address.clone(),
            denom: denom.clone(),
            amount: house_amount,
        },
        artist_payment: BankPayment {
            to_address: pc.config.artist.clone(),
            denom,
            amount: artist_amount,
        },
    })
}

/// Removes a pass whose grace period has ended; the caller must be the pass
/// owner or the collection minter.
pub fn burn_expired_pass(
    pc: &mut PassCollection,
    sender: &String,
    now: u64,
    token_id: &String,
) -> (r: Result<(), ContractError>)
    requires
        old(pc).wf(),
    ensures
        final(pc).wf(),
        burn_post(*old(pc), *final(pc), sender@, now, token_id@, r),
{
    let idx = match pc.find_token(token_id) {
        Some(i) => i,
        None => {
            return Err(ContractError::TokenNotFound);
        },
    };
    proof {
        lemma_token_index_unique(pc.tokens@, idx as int, token_id@);
    }
    let status = pc.tokens[idx].extension.status(now);
    if status != PassStatus::Expired {
        return Err(ContractError::PassNotExpired);
    }
    let authorized = *sender == pc.tokens[idx].owner || *sender == pc.config.minter;
    if !authorized {
        return Err(ContractError::Unauthorized);
    }
    pc.tokens.remove(idx);
    proof {
        assert forall|a: int, b: int| 0 <= a < b < pc.tokens@.len() implies (
            #[trigger] pc.tokens@[a]).token_id@ != (#[trigger] pc.tokens@[b]).token_id@ by {
            let pa = if a < idx as int { a } else { a + 1 };
            let pb = if b < idx as int { b } else { b + 1 };
            assert(pc.tokens@[a] == old(pc).tokens@[pa]);
            assert(pc.tokens@[b] == old(pc).tokens@[pb]);
        }
    }
    Ok(())
}

/// Routes a lifecycle command to its handler, with the promises of that
/// handler carried through unchanged.
pub fn execute(
    pc: &mut PassCollection,
    sender: &String,
    now: u64,
    funds: &Vec<Coin>,
    msg: PassMsg,
) -> (r: Result<PassOutcome, ContractError>)
    requires
        old(pc).wf(),
        !(msg matches PassMsg::BurnExpiredPass { .. }) ==> now + old(pc).config.pass_duration
            + old(pc).config.grace_period <= u64::MAX,
        ({
            match msg {
                PassMsg::RenewPass { token_id } => spec_has_token(old(pc).tokens@, token_id@)
                    ==> old(pc).tokens@[spec_token_index(old(pc).tokens@,
                    token_id@)].extension.times_renewed < u32::MAX,
                _ => true,
            }
        }),
    ensures
        final(pc).wf(),
        ({
            match msg {
                PassMsg::MintPass { owner_address } => match r {
                    Ok(PassOutcome::Minted(rec)) => mint_post(*old(pc), *final(pc), now,
                        owner_address@, funds@, Ok(rec)),
                    Err(e) => mint_post(*old(pc), *final(pc), now, owner_address@, funds@,
                        Err(e)),
                    _ => false,
                },
                PassMsg::RenewPass { token_id } => match r {
                    Ok(PassOutcome::Renewed(rec)) => renew_post(*old(pc), *final(pc), sender@, now,
                        token_id@, funds@, Ok(rec)),
                    Err(e) => renew_post(*old(pc), *final(pc), sender@, now, token_id@, funds@,
                        Err(e)),
                    _ => false,
                },
                PassMsg::BurnExpiredPass { token_id } => match r {
                    Ok(PassOutcome::Burned { token_id: burned }) => burned@ == token_id@
                        && burn_post(*old(pc), *final(pc), sender@, now, token_id@, Ok(())),
                    Err(e) => burn_post(*old(pc), *final(pc), sender@, now, token_id@, Err(e)),
                    _ => false,
                },
            }
        }),
{
    match msg {
        PassMsg::MintPass { owner_address } => match mint_pass(pc, now, owner_address, funds) {
            Ok(rec) => Ok(PassOutcome::Minted(rec)),
            Err(e) => Err(e),
        },
        PassMsg::RenewPass { token_id } => match renew_pass(pc, sender, now, &token_id, funds) {
            Ok(rec) => Ok(PassOutcome::Renewed(rec)),
            Err(e) => Err(e),
        },
        PassMsg::BurnExpiredPass { token_id } => match burn_expired_pass(
            pc, sender, now, &token_id) {
            Ok(()) => Ok(PassOutcome::Burned { token_id }),
            Err(e) => Err(e),
        },
    }
}

/// Passes are soulbound: every inherited transfer, approval or direct-mint
/// operation of the base token machinery is refused, unconditionally.
pub fn reject_base_operation() -> (r: Result<PassOutcome, ContractError>)
    ensures
        r == Err::<PassOutcome, ContractError>(ContractError::Soulbound),
{
    Err(ContractError::Soulbound)
}

} // verus!
