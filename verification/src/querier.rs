//! Read-only queries over sale records.

use vstd::prelude::*;
use vstd::math::min;

use crate::state::{spec_status, Sale, SaleProgress, SaleProgressPersonal, SaleStatus};

verus! {

/// One sale with its progress and the status derived for the query's time.
pub struct SaleResponse {
    pub sale: Sale,
    pub progress: SaleProgress,
    pub status: SaleStatus,
}

/// A page of sale responses.
pub struct SalesResponse {
    pub sales: Vec<SaleResponse>,
}

/// Answers a single-sale query: pairs the stored record and progress the
/// caller read with the status derived at `now`.
pub fn query_sale(sale: Sale, progress: SaleProgress, now: u64) -> (r: SaleResponse)
    ensures
        r.sale == sale,
        r.progress == progress,
        r.status == spec_status(sale, progress, now),
{
    let status = sale.status(&progress, now);
    SaleResponse { sale, progress, status }
}

/// Answers a listing query: pairs each stored record with its progress and
/// derives each status at `now`, keeping at most `limit` entries.
pub fn query_sales(
    sales: &Vec<Sale>,
    progress: &Vec<SaleProgress>,
    limit: usize,
    now: u64,
) -> (r: SalesResponse)
    ensures
        r.sales@.len() == min(limit as int, min(sales@.len() as int, progress@.len() as int)),
        forall|j: int|
            0 <= j < r.sales@.len() ==> {
                &&& (#[trigger] r.sales@[j]).sale == sales@[j]
                &&& r.sales@[j].progress == progress@[j]
                &&& r.sales@[j].status == spec_status(sales@[j], progress@[j], now)
            },
{
    let mut n = sales.len();
    if progress.len() < n {
        n = progress.len();
    }
    if limit < n {
        n = limit;
    }
    let mut out: Vec<SaleResponse> = Vec::new();
    let mut i: usize = 0;
    while i < n
        invariant
            i <= n,
            n <= sales@.len(),
            n <= progress@.len(),
            n == min(limit as int, min(sales@.len() as int, progress@.len() as int)),
            out@.len() == i,
            forall|j: int|
                0 <= j < i ==> {
                    &&& (#[trigger] out@[j]).sale == sales@[j]
                    &&& out@[j].progress == progress@[j]
                    &&& out@[j].status == spec_status(sales@[j], progress@[j], now)
                },
        decreases n - i,
    {
        let sale_j = sales[i].clone();
        let prog_j = progress[i];
        let status = sale_j.status(&prog_j, now);
        out.push(SaleResponse { sale: sale_j, progress: prog_j, status });
        i = i + 1;
    }
    SalesResponse { sales: out }
}

/// Answers a personal-progress query: the stored ledger entry, or a fresh
/// zero entry when the account never participated.
pub fn query_progress(entry: Option<SaleProgressPersonal>) -> (p: SaleProgressPersonal)
    ensures
        entry matches Some(e) ==> p == e,
        entry is None ==> p == (SaleProgressPersonal {
            is_claimed: false,
            is_refunded: false,
            token_got: 0,
            cur_spent: 0,
        }),
{
    match entry {
        Some(e) => e,
        None => SaleProgressPersonal::new(),
    }
}

} // verus!
