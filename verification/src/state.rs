//! Sale records, progress counters and the status resolver.

use vstd::prelude::*;

use crate::error::{is_sell_err, ContractError};

verus! {

/// Immutable terms of one sale, fixed at creation.
///
/// Accounts and asset identifiers are carried as plain strings; the logic
/// only ever compares them for equality.
#[derive(Debug, PartialEq, Eq)]
pub struct Sale {
    pub id: u64,
    pub created_at: u64,
    pub owner: String,
    pub referrer: Option<String>,
    pub start: u64,
    pub end: u64,
    pub token_addr: String,
    pub token_sale_amt: u128,
    pub cur_info: String,
    pub soft_cap: u128,
    pub hard_cap: u128,
    pub max_cur_alloc_per: Option<u128>,
    pub wl_end_time: Option<u64>,
    pub owner_allocation: u128,
    pub token_name: String,
    pub token_symbol: String,
    pub token_project: String,
    pub token_description: String,
    pub token_marketing: String,
    pub token_logo: String,
}

/// Lifecycle phase of a sale, derived from its terms, its progress and the
/// current time; never stored.
#[derive(Clone, Copy, Debug, PartialEq, Eq, Structural)]
pub enum SaleStatus {
    NotStarted,
    Ongoing,
    Ended,
    Filled,
    Failed,
}

/// Cumulative counters of one sale, shared by all participants.
#[derive(Clone, Copy, Debug, PartialEq, Eq, Structural)]
pub struct SaleProgress {
    pub token_sold: u128,
    pub cur_raised: u128,
    pub token_claimed: u128,
    pub is_excess_sent: bool,
    pub cur_excess: u128,
    pub token_excess: u128,
}

/// Per-(account, sale) ledger entry, created lazily on first contribution.
#[derive(Clone, Copy, Debug, PartialEq, Eq, Structural)]
pub struct SaleProgressPersonal {
    pub is_claimed: bool,
    pub is_refunded: bool,
    pub token_got: u128,
    pub cur_spent: u128,
}

/// Currency the caller hands over with a participation: an asset identifier
/// and an amount.
#[derive(Debug, PartialEq, Eq)]
pub struct ContributedAsset {
    pub info: String,
    pub amount: u128,
}

/// Well-formed sale terms: the owner's reserved allocation leaves purchasable
/// headroom under the hard cap, the soft cap does not exceed the hard cap,
/// and the time window is non-empty.
pub open spec fn sale_wf(sale: Sale) -> bool {
    &&& sale.owner_allocation < sale.hard_cap
    &&& sale.soft_cap <= sale.hard_cap
    &&& sale.start < sale.end
}

/// Currency capacity open to buyers: the hard cap minus the owner's reserved
/// allocation.
pub open spec fn purchasable_cap(sale: Sale) -> int {
    sale.hard_cap - sale.owner_allocation
}

/// Well-formed progress counters for a sale.
///
/// The first two bounds are the aggregate invariants of the sale; the third
/// records that tokens are sold at no better than the sale's linear rate,
/// which every contribution preserves because entitlements round down.
pub open spec fn progress_wf(sale: Sale, prog: SaleProgress) -> bool {
    &&& prog.token_sold <= sale.token_sale_amt
    &&& prog.cur_raised <= sale.hard_cap
    &&& prog.token_sold * purchasable_cap(sale) <= prog.cur_raised * sale.token_sale_amt
}

/// Well-formed ledger entry: personal totals never exceed the aggregate
/// counters, and the two terminal flags are mutually exclusive.
pub open spec fn personal_wf(prog: SaleProgress, pers: SaleProgressPersonal) -> bool {
    &&& pers.token_got <= prog.token_sold
    &&& pers.cur_spent <= prog.cur_raised
    &&& !(pers.is_claimed && pers.is_refunded)
}

/// Status of a sale as a pure function of its record, its progress and the
/// current time.  The first matching rule wins.
pub open spec fn spec_status(sale: Sale, prog: SaleProgress, now: u64) -> SaleStatus {
    if sale.start > now {
        SaleStatus::NotStarted
    } else if prog.token_sold == sale.token_sale_amt && prog.cur_raised == sale.hard_cap {
        SaleStatus::Filled
    } else if now > sale.end && prog.cur_raised < sale.soft_cap {
        SaleStatus::Failed
    } else if now >= sale.start && sale.end >= now {
        SaleStatus::Ongoing
    } else {
        SaleStatus::Ended
    }
}

impl Sale {
    /// Derives the sale's lifecycle phase; reads nothing but its three
    /// inputs and writes nothing.
    pub fn status(&self, progress: &SaleProgress, now: u64) -> (s: SaleStatus)
        ensures
            s == spec_status(*self, *progress, now),
    {
        if self.start > now {
            return SaleStatus::NotStarted;
        }

        if progress.token_sold == self.token_sale_amt && progress.cur_raised == self.hard_cap {
            return SaleStatus::Filled;
        }

        if now > self.end && progress.cur_raised < self.soft_cap {
            return SaleStatus::Failed;
        }

        if now >= self.start && self.end >= now {
            return SaleStatus::Ongoing;
        }

        SaleStatus::Ended
    }
}

/// The status resolver is deterministic: two evaluations on identical
/// inputs yield the same phase.
pub proof fn lemma_status_deterministic(
    sale1: Sale,
    prog1: SaleProgress,
    now1: u64,
    sale2: Sale,
    prog2: SaleProgress,
    now2: u64,
)
    requires
        sale1 == sale2,
        prog1 == prog2,
        now1 == now2,
    ensures
        spec_status(sale1, prog1, now1) == spec_status(sale2, prog2, now2),
{
}

impl SaleProgress {
    /// Fresh progress for a newly created sale: every counter at zero and
    /// nothing sent yet.
    pub fn new() -> (prog: SaleProgress)
        ensures
            prog.token_sold == 0,
            prog.cur_raised == 0,
            prog.token_claimed == 0,
            !prog.is_excess_sent,
            prog.cur_excess == 0,
            prog.token_excess == 0,
    {
        SaleProgress {
            token_sold: 0,
            cur_raised: 0,
            token_claimed: 0,
            is_excess_sent: false,
            cur_excess: 0,
            token_excess: 0,
        }
    }
}

impl Default for SaleProgress {
    /// Same value as `SaleProgress::new`.
    fn default() -> (prog: SaleProgress)
        ensures
            prog.token_sold == 0,
            prog.cur_raised == 0,
            prog.token_claimed == 0,
            !prog.is_excess_sent,
            prog.cur_excess == 0,
            prog.token_excess == 0,
    {
        SaleProgress::new()
    }
}

impl SaleProgressPersonal {
    /// Fresh ledger entry for an account's first contribution.
    pub fn new() -> (pers: SaleProgressPersonal)
        ensures
            !pers.is_claimed,
            !pers.is_refunded,
            pers.token_got == 0,
            pers.cur_spent == 0,
    {
        SaleProgressPersonal { is_claimed: false, is_refunded: false, token_got: 0, cur_spent: 0 }
    }
}

impl Default for SaleProgressPersonal {
    /// Same value as `SaleProgressPersonal::new`.
    fn default() -> (pers: SaleProgressPersonal)
        ensures
            !pers.is_claimed,
            !pers.is_refunded,
            pers.token_got == 0,
            pers.cur_spent == 0,
    {
        SaleProgressPersonal::new()
    }
}

/// Terms a would-be sale owner submits at creation, before validation.
#[derive(Debug, PartialEq, Eq)]
pub struct SellParam {
    pub referrer: Option<String>,
    pub start: u64,
    pub end: u64,
    pub token_sale_amt: u128,
    pub cur_info: String,
    pub soft_cap: u128,
    pub hard_cap: u128,
    pub max_cur_alloc_per: Option<u128>,
    pub owner_allocation: u128,
    pub token_name: String,
    pub token_symbol: String,
    pub token_project: String,
    pub token_description: String,
    pub token_marketing: String,
    pub token_logo: String,
    pub wl_end_time: Option<u64>,
}

impl SellParam {
    /// Validates the time window: the end must come after the start and the
    /// start must not lie in the past.
    pub fn assert_start_end(&self, now: u64) -> (r: Result<(), ContractError>)
        ensures
            self.end <= self.start ==> (r matches Err(e) && is_sell_err(
                e,
                "Invalid end date, must be after start"@,
            )),
            self.end > self.start && self.start < now ==> (r matches Err(e) && is_sell_err(
                e,
                "Invalid start date, cannot be in the past"@,
            )),
            self.end > self.start && self.start >= now ==> r is Ok,
    {
        if !(self.end > self.start) {
            return Err(ContractError::sell("Invalid end date, must be after start"));
        }
        if !(self.start >= now) {
            return Err(ContractError::sell("Invalid start date, cannot be in the past"));
        }
        Ok(())
    }
}

impl Sale {
    /// Builds the immutable sale record from validated creation terms.
    ///
    /// The caller passes the referrer account it validated out of
    /// `param.referrer`, and the identifiers its host environment resolved
    /// for the owner and the token contract.
    pub fn from_param(
        param: SellParam,
        id: u64,
        now: u64,
        owner: String,
        token_addr: String,
        referrer: Option<String>,
    ) -> (sale: Sale)
        ensures
            sale.id == id,
            sale.created_at == now,
            sale.owner == owner,
            sale.referrer == referrer,
            sale.start == param.start,
            sale.end == param.end,
            sale.token_addr == token_addr,
            sale.token_sale_amt == param.token_sale_amt,
            sale.cur_info == param.cur_info,
            sale.soft_cap == param.soft_cap,
            sale.hard_cap == param.hard_cap,
            sale.max_cur_alloc_per == param.max_cur_alloc_per,
            sale.wl_end_time == param.wl_end_time,
            sale.owner_allocation == param.owner_allocation,
            sale.token_name == param.token_name,
            sale.token_symbol == param.token_symbol,
            sale.token_project == param.token_project,
            sale.token_description == param.token_description,
            sale.token_marketing == param.token_marketing,
            sale.token_logo == param.token_logo,
    {
        Sale {
            id,
            created_at: now,
            owner,
            referrer,
            start: param.start,
            end: param.end,
            token_addr,
            owner_allocation: param.owner_allocation,
            token_name: param.token_name,
            token_symbol: param.token_symbol,
            token_project: param.token_project,
            token_description: param.token_description,
            token_marketing: param.token_marketing,
            token_logo: param.token_logo,
            token_sale_amt: param.token_sale_amt,
            cur_info: param.cur_info,
            soft_cap: param.soft_cap,
            hard_cap: param.hard_cap,
            max_cur_alloc_per: param.max_cur_alloc_per,
            wl_end_time: param.wl_end_time,
        }
    }
}

impl Clone for Sale {
    /// Field-for-field copy of the record.
    fn clone(&self) -> (other: Sale)
        ensures
            other == *self,
    {
        Sale {
            id: self.id,
            created_at: self.created_at,
            owner: self.owner.clone(),
            referrer: match &self.referrer {
                Some(r) => Some(r.clone()),
                None => None,
            },
            start: self.start,
            end: self.end,
            token_addr: self.token_addr.clone(),
            token_sale_amt: self.token_sale_amt,
            cur_info: self.cur_info.clone(),
            soft_cap: self.soft_cap,
            hard_cap: self.hard_cap,
            max_cur_alloc_per: self.max_cur_alloc_per,
            wl_end_time: self.wl_end_time,
            owner_allocation: self.owner_allocation,
            token_name: self.token_name.clone(),
            token_symbol: self.token_symbol.clone(),
            token_project: self.token_project.clone(),
            token_description: self.token_description.clone(),
            token_marketing: self.token_marketing.clone(),
            token_logo: self.token_logo.clone(),
        }
    }
}

/// Global configuration of the sale factory.
#[derive(Debug, PartialEq, Eq)]
pub struct Config {
    pub min_cap: [u128; 2],
    pub min_token_sale_amt: u128,
    pub token_code_id: u64,
    pub fee_percentage: u128,
}

impl Config {
    /// Replaces every configurable field at once.
    pub fn update(
        &mut self,
        min_cap: [u128; 2],
        min_token_sale_amt: u128,
        token_code_id: u64,
        fee_percentage: u128,
    )
        ensures
            final(self).min_cap == min_cap,
            final(self).min_token_sale_amt == min_token_sale_amt,
            final(self).token_code_id == token_code_id,
            final(self).fee_percentage == fee_percentage,
    {
        self.min_cap = min_cap;
        self.min_token_sale_amt = min_token_sale_amt;
        self.token_code_id = token_code_id;
        self.fee_percentage = fee_percentage;
    }
}

/// For every sale whose progress is well formed, the sold total never
/// exceeds the token sale amount and the raised total never exceeds the
/// hard cap.
pub proof fn lemma_progress_bounds(sale: Sale, prog: SaleProgress)
    requires
        progress_wf(sale, prog),
    ensures
        prog.token_sold <= sale.token_sale_amt,
        prog.cur_raised <= sale.hard_cap,
{
}

/// For every well-formed ledger entry, the claimed and refunded flags are
/// never simultaneously true.
pub proof fn lemma_claim_refund_exclusive(prog: SaleProgress, pers: SaleProgressPersonal)
    requires
        personal_wf(prog, pers),
    ensures
        !(pers.is_claimed && pers.is_refunded),
{
}

/// A fresh sale begins well formed: zero progress satisfies the aggregate
/// invariants, and a fresh ledger entry satisfies the personal ones, so the
/// preservation clauses of the engines keep both along every sequence of
/// calls.
pub proof fn lemma_fresh_state_wf(sale: Sale, prog: SaleProgress, pers: SaleProgressPersonal)
    requires
        sale_wf(sale),
        prog == (SaleProgress {
            token_sold: 0,
            cur_raised: 0,
            token_claimed: 0,
            is_excess_sent: false,
            cur_excess: 0,
            token_excess: 0,
        }),
        pers == (SaleProgressPersonal {
            is_claimed: false,
            is_refunded: false,
            token_got: 0,
            cur_spent: 0,
        }),
    ensures
        progress_wf(sale, prog),
        personal_wf(prog, pers),
{
}

/// Failure is terminal for a sale's counters: once some time reports Failed,
/// no time can report Ended or Filled while the counters stand.  Settlement
/// never changes the counters the status reads, so the refund window and the
/// claim window of one sale never overlap.
pub proof fn lemma_failed_excludes_claimable(
    sale: Sale,
    prog: SaleProgress,
    now1: u64,
    now2: u64,
)
    requires
        spec_status(sale, prog, now1) is Failed,
    ensures
        !(spec_status(sale, prog, now2) is Ended),
        !(spec_status(sale, prog, now2) is Filled),
{
}

/// Conversely, once some time reports Ended or Filled, no time can report
/// Failed while the counters stand: the soft cap was met.
pub proof fn lemma_claimable_excludes_failed(
    sale: Sale,
    prog: SaleProgress,
    now1: u64,
    now2: u64,
)
    requires
        spec_status(sale, prog, now1) is Ended || spec_status(sale, prog, now1) is Filled,
    ensures
        !(spec_status(sale, prog, now2) is Failed),
{
}

} // verus!
