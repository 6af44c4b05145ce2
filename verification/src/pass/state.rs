//! Per-collection state: configuration, the pass expiry bookkeeping and the
//! registry of live passes keyed by identifier.

use vstd::prelude::*;

use crate::text::{spec_symbol_ok, spec_lower, dec_digits, lower_ascii, u64_to_dec};

verus! {

/// A collection's configuration, fixed at instantiation.
#[derive(Clone, Debug)]
pub struct Config {
    pub name: String,
    pub symbol: String,
    pub artist: String,
    pub minter: String,
    pub collection_info: String,
    pub pass_price: u128,
    pub pass_duration: u64,
    pub grace_period: u64,
    pub house_percentage: u32,
    pub artist_percentage: u32,
    pub payment_address: String,
}

impl Config {
    /// A valid configuration: a well-formed symbol and a royalty pair that
    /// sums to exactly 100.
    pub open spec fn wf(&self) -> bool {
        &&& spec_symbol_ok(self.symbol@)
        &&& self.house_percentage + self.artist_percentage == 100
    }
}

/// Where a pass stands relative to its expiry window.
#[derive(Clone, Copy, Debug, PartialEq, Eq, Structural)]
pub enum PassStatus {
    Active,
    InGracePeriod,
    Expired,
}

/// The status of a pass with the given window, seen at time `now`:
/// `Active` strictly before `expires_at`, `InGracePeriod` from `expires_at`
/// through `grace_period_end`, `Expired` after that.
pub open spec fn spec_status(expires_at: u64, grace_period_end: u64, now: u64) -> PassStatus {
    if now < expires_at {
        PassStatus::Active
    } else if now <= grace_period_end {
        PassStatus::InGracePeriod
    } else {
        PassStatus::Expired
    }
}

/// The expiry bookkeeping carried by every pass.
#[derive(Clone, Copy, Debug, PartialEq, Eq, Structural)]
pub struct PassExtension {
    pub expires_at: u64,
    pub is_active: bool,
    pub grace_period_end: u64,
    pub times_renewed: u32,
}

/// The bookkeeping of a pass freshly minted at `now`.
pub open spec fn spec_fresh(now: u64, pass_duration: u64, grace_period: u64) -> PassExtension {
    PassExtension {
        expires_at: (now + pass_duration) as u64,
        is_active: true,
        grace_period_end: (now + pass_duration + grace_period) as u64,
        times_renewed: 0,
    }
}

/// The bookkeeping of a pass renewed at `now`: the window is recomputed from
/// the renewal time alone, never extended from the prior expiry.
pub open spec fn spec_renewed(
    ext: PassExtension,
    now: u64,
    pass_duration: u64,
    grace_period: u64,
) -> PassExtension {
    PassExtension {
        expires_at: (now + pass_duration) as u64,
        is_active: true,
        grace_period_end: (now + pass_duration + grace_period) as u64,
        times_renewed: (ext.times_renewed + 1) as u32,
    }
}

impl PassExtension {
    /// The grace window never ends before the pass expires.
    pub open spec fn wf(&self) -> bool {
        self.expires_at <= self.grace_period_end
    }

    /// A fresh pass window starting at `current_time`: it expires after
    /// `pass_duration` and stays renewable for `grace_period` beyond that.
    pub fn new(current_time: u64, pass_duration: u64, grace_period: u64) -> (r: Self)
        requires
            current_time + pass_duration + grace_period <= u64::MAX,
        ensures
            r == spec_fresh(current_time, pass_duration, grace_period),
            r.expires_at == current_time + pass_duration,
            r.grace_period_end == current_time + pass_duration + grace_period,
            r.is_active,
            r.times_renewed == 0,
            r.wf(),
    {
        let expires_at = current_time + pass_duration;
        let grace_period_end = expires_at + grace_period;
        PassExtension { expires_at, is_active: true, grace_period_end, times_renewed: 0 }
    }

    /// Derives the status of this pass at `current_time`.
    pub fn status(&self, current_time: u64) -> (s: PassStatus)
        ensures
            s == spec_status(self.expires_at, self.grace_period_end, current_time),
    {
        if current_time < self.expires_at {
            PassStatus::Active
        } else if current_time <= self.grace_period_end {
            PassStatus::InGracePeriod
        } else {
            PassStatus::Expired
        }
    }

    /// Resets the window to start at `current_time`, exactly as a fresh mint
    /// would: time left on the old window is discarded, never added.
    pub fn renew(&mut self, current_time: u64, pass_duration: u64, grace_period: u64)
        requires
            current_time + pass_duration + grace_period <= u64::MAX,
            old(self).times_renewed < u32::MAX,
        ensures
            *final(self) == spec_renewed(*old(self), current_time, pass_duration, grace_period),
            final(self).expires_at == current_time + pass_duration,
            final(self).grace_period_end == current_time + pass_duration + grace_period,
            final(self).is_active,
            final(self).times_renewed == old(self).times_renewed + 1,
            final(self).wf(),
    {
        self.expires_at = current_time + pass_duration;
        self.grace_period_end = self.expires_at + grace_period;
        self.is_active = true;
        self.times_renewed = self.times_renewed + 1;
    }
}

/// One live pass: its identifier, its owner and its expiry bookkeeping.
#[derive(Clone, Debug)]
pub struct Pass {
    pub token_id: String,
    pub owner: String,
    pub extension: PassExtension,
}

/// The registry of a deployed collection: configuration, the identifier
/// counter and every live pass.
#[derive(Clone, Debug)]
pub struct PassCollection {
    pub config: Config,
    pub token_counter: u64,
    pub tokens: Vec<Pass>,
}

/// Some pass in `tokens` carries the identifier `id`.
pub open spec fn spec_has_token(tokens: Seq<Pass>, id: Seq<char>) -> bool {
    exists|i: int| 0 <= i < tokens.len() && (#[trigger] tokens[i]).token_id@ == id
}

/// The position of the pass carrying `id`; meaningful only when one exists,
/// and unique under the registry invariant.
pub open spec fn spec_token_index(tokens: Seq<Pass>, id: Seq<char>) -> int {
    choose|i: int| 0 <= i < tokens.len() && (#[trigger] tokens[i]).token_id@ == id
}

/// The identifier of the pass minted for `serial` under `symbol`: the
/// lowercased symbol, a dash, and the serial in decimal.
pub open spec fn spec_token_id(symbol: Seq<char>, serial: nat) -> Seq<char> {
    spec_lower(symbol) + seq!['-'] + dec_digits(serial)
}

impl PassCollection {
    /// The registry invariant: a valid configuration, well-formed windows and
    /// no two passes sharing an identifier.
    pub open spec fn wf(&self) -> bool {
        &&& self.config.wf()
        &&& forall|i: int| 0 <= i < self.tokens@.len()
            ==> (#[trigger] self.tokens@[i]).extension.wf()
        &&& forall|i: int, j: int|
            0 <= i < j < self.tokens@.len()
                ==> (#[trigger] self.tokens@[i]).token_id@ != (
                #[trigger] self.tokens@[j]).token_id@
    }

    /// Looks a pass up by identifier, returning its position.
    pub fn find_token(&self, token_id: &String) -> (r: Option<usize>)
        ensures
            match r {
                Some(i) => i < self.tokens@.len() && self.tokens@[i as int].token_id@
                    == token_id@,
                None => !spec_has_token(self.tokens@, token_id@),
            },
    {
        let n = self.tokens.len();
        let mut i: usize = 0;
        while i < n
            invariant
                n == self.tokens@.len(),
                0 <= i <= n,
                forall|j: int| 0 <= j < i ==> (#[trigger] self.tokens@[j]).token_id@
                    != token_id@,
            decreases n - i,
        {
            if self.tokens[i].token_id == *token_id {
                return Some(i);
            }
            i = i + 1;
        }
        None
    }
}

/// Under the registry invariant, the position of a pass carrying `id` is
/// the one `spec_token_index` names: identifiers pin positions uniquely.
pub proof fn lemma_token_index_unique(tokens: Seq<Pass>, i: int, id: Seq<char>)
    requires
        forall|a: int, b: int|
            0 <= a < b < tokens.len()
                ==> (#[trigger] tokens[a]).token_id@ != (#[trigger] tokens[b]).token_id@,
        0 <= i < tokens.len(),
        tokens[i].token_id@ == id,
    ensures
        spec_has_token(tokens, id),
        spec_token_index(tokens, id) == i,
{
    assert(spec_has_token(tokens, id));
    let j = spec_token_index(tokens, id);
    if i < j {
        assert(tokens[i].token_id@ != tokens[j].token_id@);
    } else if j < i {
        assert(tokens[j].token_id@ != tokens[i].token_id@);
    }
}

/// The lifecycle of a pass whose window starts at `start`, stated for every
/// observation time: the pass is `Active` at mint time and strictly before
/// it expires, `InGracePeriod` from `expires_at` through `grace_period_end`
/// (in particular over `expires_at + 1 ..= grace_period_end`), and `Expired`
/// at every later time.  A zero duration is excluded: such a pass is born
/// already at its expiry instant.
pub proof fn lemma_fresh_pass_status(start: u64, duration: u64, grace: u64, now: u64)
    requires
        start + duration + grace <= u64::MAX,
        duration > 0,
    ensures
        spec_status(spec_fresh(start, duration, grace).expires_at,
            spec_fresh(start, duration, grace).grace_period_end, start) == PassStatus::Active,
        now < start + duration ==> spec_status(spec_fresh(start, duration, grace).expires_at,
            spec_fresh(start, duration, grace).grace_period_end, now) == PassStatus::Active,
        start + duration <= now <= start + duration + grace ==> spec_status(
            spec_fresh(start, duration, grace).expires_at,
            spec_fresh(start, duration, grace).grace_period_end, now)
            == PassStatus::InGracePeriod,
        now > start + duration + grace ==> spec_status(
            spec_fresh(start, duration, grace).expires_at,
            spec_fresh(start, duration, grace).grace_period_end, now) == PassStatus::Expired,
{
}

/// Renewal discards whatever remained of the old window: the renewed window
/// does not depend on the bookkeeping it replaces, and it equals the window
/// of a pass freshly minted at the renewal time.
pub proof fn lemma_renewal_discards_remaining(
    e1: PassExtension,
    e2: PassExtension,
    now: u64,
    duration: u64,
    grace: u64,
)
    ensures
        spec_renewed(e1, now, duration, grace).expires_at == spec_renewed(
            e2, now, duration, grace).expires_at,
        spec_renewed(e1, now, duration, grace).grace_period_end == spec_renewed(
            e2, now, duration, grace).grace_period_end,
        spec_renewed(e1, now, duration, grace).expires_at == spec_fresh(
            now, duration, grace).expires_at,
        spec_renewed(e1, now, duration, grace).grace_period_end == spec_fresh(
            now, duration, grace).grace_period_end,
{
}

/// Builds the identifier for the pass minted with serial number `serial`.
pub fn make_token_id(symbol: &String, serial: u64) -> (r: String)
    requires
        spec_symbol_ok(symbol@),
    ensures
        r@ == spec_token_id(symbol@, serial as nat),
{
    let mut r = lower_ascii(symbol.as_str());
    r.append("-");
    let dec = u64_to_dec(serial);
    r.append(dec.as_str());
    proof {
        reveal_strlit("-");
        assert(("-")@ =~= seq!['-']);
        assert(r@ =~= spec_token_id(symbol@, serial as nat));
    }
    r
}

} // verus!
