//! Payment validation and the exact two-way royalty split.
//!
//! Calls present funds as a list of (denomination, amount) pairs.  Only the
//! settlement denomination is inspected; overpayment in it is accepted and
//! folded whole into the split, never refunded.

use vstd::prelude::*;

use crate::error::ContractError;

verus! {

/// One denomination and the amount supplied in it.
#[derive(Clone, Debug)]
pub struct Coin {
    pub denom: String,
    pub amount: u128,
}

/// The denomination every price is quoted and settled in.
pub open spec fn spec_settlement_denom() -> Seq<char> {
    "uxion"@
}

/// The denomination every price is quoted and settled in.
pub fn settlement_denom() -> (r: String)
    ensures
        r@ == spec_settlement_denom(),
{
    String::from_str("uxion")
}

/// The amount attached in `denom`: the amount of the first coin carrying that
/// denomination, or `None` when no coin does.
pub open spec fn spec_paid_amount(funds: Seq<Coin>, denom: Seq<char>) -> Option<u128>
    decreases funds.len(),
{
    if funds.len() == 0 {
        None
    } else if funds[0].denom@ == denom {
        Some(funds[0].amount)
    } else {
        spec_paid_amount(funds.drop_first(), denom)
    }
}

proof fn lemma_paid_amount_step(funds: Seq<Coin>, denom: Seq<char>, i: int)
    requires
        0 <= i <= funds.len(),
        forall|j: int| 0 <= j < i ==> (#[trigger] funds[j].denom@) != denom,
    ensures
        spec_paid_amount(funds, denom) == spec_paid_amount(funds.skip(i), denom),
    decreases i,
{
    if i > 0 {
        lemma_paid_amount_step(funds, denom, i - 1);
        assert(funds.skip(i - 1).drop_first() =~= funds.skip(i));
        assert(funds.skip(i - 1)[0] == funds[i - 1]);
    } else {
        assert(funds.skip(0) =~= funds);
    }
}

/// Validates the funds attached to a mint or renewal against the configured
/// price: the settlement denomination must be present with at least the price,
/// and the whole amount supplied in it (overpayment included) is returned.
pub fn validate_payment(funds: &Vec<Coin>, price: u128) -> (r: Result<u128, ContractError>)
    ensures
        ({
            match spec_paid_amount(funds@, spec_settlement_denom()) {
                None => r == Err::<u128, ContractError>(ContractError::PaymentMissing),
                Some(paid) => if paid < price {
                    r == Err::<u128, ContractError>(ContractError::PaymentInsufficient)
                } else {
                    r == Ok::<u128, ContractError>(paid)
                },
            }
        }),
{
    let denom = settlement_denom();
    let n = funds.len();
    let mut i: usize = 0;
    while i < n
        invariant
            n == funds@.len(),
            0 <= i <= n,
            denom@ == spec_settlement_denom(),
            forall|j: int| 0 <= j < i ==> (#[trigger] funds@[j].denom@) != denom@,
        decreases n - i,
    {
        if funds[i].denom == denom {
            proof {
                lemma_paid_amount_step(funds@, denom@, i as int);
                assert(funds@.skip(i as int)[0] == funds@[i as int]);
            }
            let paid = funds[i].amount;
            if paid < price {
                return Err(ContractError::PaymentInsufficient);
            }
            return Ok(paid);
        }
        i = i + 1;
    }
    proof {
        lemma_paid_amount_step(funds@, denom@, n as int);
        assert(funds@.skip(n as int) =~= Seq::<Coin>::empty());
    }
    Err(ContractError::PaymentMissing)
}

/// Splits a gross amount between house and artist.
///
/// The house share is `floor(gross * house_pct / 100)` and the artist share is
/// the exact remainder, so the two always sum back to the gross amount: no
/// unit is lost and none is invented, whatever the rounding.
pub fn split(gross: u128, house_pct: u32) -> (r: (u128, u128))
    requires
        house_pct <= 100,
    ensures
        r.0 == gross * house_pct / 100,
        r.1 == gross - r.0,
        r.0 + r.1 == gross,
        r.0 <= gross,
{
    let q = gross / 100;
    let rem = gross % 100;
    let p = house_pct as u128;
    proof {
        assert(rem * p <= 9900) by (nonlinear_arith)
            requires
                rem < 100,
                p <= 100,
        ;
        assert(q * p + rem * p / 100 == gross * p / 100 && gross * p / 100 <= gross)
            by (nonlinear_arith)
            requires
                q == gross / 100,
                rem == gross % 100,
                p <= 100,
        ;
    }
    let house = q * p + (rem * p) / 100;
    let artist = gross - house;
    (house, artist)
}

} // verus!
