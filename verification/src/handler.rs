//! Participation and settlement engines.
//!
//! Each operation takes the persisted state the caller read for one sale,
//! validates the call against the status resolver, mutates the aggregate and
//! personal counters atomically with respect to that call, and returns the
//! transfer instructions the dispatch layer must execute.  The operations
//! never move assets themselves.

use vstd::prelude::*;
use vstd::arithmetic::div_mod::{lemma_fundamental_div_mod, lemma_mod_bound};
use vstd::arithmetic::mul::lemma_mul_is_commutative;

use crate::error::{is_buy_err, is_claim_err, is_refund_err, is_whitelist_err, ContractError};
use crate::math::mul_ratio_floor;
use crate::state::{
    personal_wf, progress_wf, purchasable_cap, sale_wf, spec_status, ContributedAsset, Sale,
    SaleProgress, SaleProgressPersonal, SaleStatus,
};

verus! {

/// One outbound transfer the dispatch layer must execute after the call
/// commits: send `amount` of the asset named `asset` to `recipient`.
#[derive(Debug, PartialEq, Eq)]
pub struct TransferInstruction {
    pub recipient: String,
    pub asset: String,
    pub amount: u128,
}

/// Raw token entitlement of a contribution: the contributed amount times the
/// sale's token supply, floor-divided by the purchasable currency capacity.
pub open spec fn token_entitlement(sale: Sale, amount: u128) -> int {
    amount * sale.token_sale_amt / purchasable_cap(sale)
}

/// The configured per-account currency cap would be exceeded.  The check
/// deliberately compares the incoming amount against the sale-wide raised
/// total, not the buyer's own cumulative spend.
pub open spec fn over_account_cap(sale: Sale, prog: SaleProgress, amount: u128) -> bool {
    match sale.max_cur_alloc_per {
        Some(cap) => amount + prog.cur_raised > cap,
        None => false,
    }
}

/// A whitelist window is configured and has already closed, so membership is
/// required to participate.
pub open spec fn whitelist_enforced(sale: Sale, now: u64) -> bool {
    match sale.wl_end_time {
        Some(wl_end) => wl_end <= now,
        None => false,
    }
}

/// The contribution does not fit as-is: its token entitlement would push the
/// sold total past the sale amount, or its currency would push the raised
/// total past the hard cap.
pub open spec fn clamp_needed(sale: Sale, prog: SaleProgress, amount: u128) -> bool {
    ||| token_entitlement(sale, amount) + prog.token_sold > sale.token_sale_amt
    ||| amount + prog.cur_raised > sale.hard_cap
}

/// Every validation gate of a participation passes: the currency matches,
/// the buyer is not the owner, the sale is ongoing, the per-account cap is
/// respected and the whitelist (when enforced) admits the buyer.
pub open spec fn participation_admitted(
    sale: Sale,
    prog: SaleProgress,
    buyer: Seq<char>,
    cur_info: Seq<char>,
    amount: u128,
    whitelisted: bool,
    now: u64,
) -> bool {
    &&& cur_info == sale.cur_info@
    &&& buyer != sale.owner@
    &&& spec_status(sale, prog, now) is Ongoing
    &&& !over_account_cap(sale, prog, amount)
    &&& (whitelist_enforced(sale, now) ==> whitelisted)
}

/// Total currency sent back by a list of transfer instructions.
pub open spec fn total_transferred(msgs: Seq<TransferInstruction>) -> int
    decreases msgs.len(),
{
    if msgs.len() == 0 {
        0
    } else {
        msgs[0].amount + total_transferred(msgs.drop_first())
    }
}

/// Entitlements round down, so selling `tb` tokens for `amount` currency
/// keeps the sold total at no better than the sale's linear rate.
proof fn lemma_rate_preserved(
    t_amt: int,
    cap: int,
    sold: int,
    raised: int,
    amount: int,
    tb: int,
)
    requires
        0 < cap,
        0 <= t_amt,
        0 <= sold,
        0 <= raised,
        0 <= amount,
        tb == amount * t_amt / cap,
        sold * cap <= raised * t_amt,
    ensures
        (sold + tb) * cap <= (raised + amount) * t_amt,
{
    lemma_fundamental_div_mod(amount * t_amt, cap);
    lemma_mod_bound(amount * t_amt, cap);
    assert(cap * tb <= amount * t_amt);
    assert((sold + tb) * cap <= (raised + amount) * t_amt) by (nonlinear_arith)
        requires
            cap * tb <= amount * t_amt,
            sold * cap <= raised * t_amt,
    ;
}

/// When a contribution triggers clamping, it covers the remaining
/// purchasable capacity, so clamping never consumes more than was sent.
proof fn lemma_partial_fill_covers(
    t_amt: int,
    cap: int,
    hard: int,
    sold: int,
    raised: int,
    amount: int,
    tb: int,
)
    requires
        0 < cap <= hard,
        0 <= sold <= t_amt,
        0 <= raised <= cap,
        0 <= amount,
        tb == amount * t_amt / cap,
        sold * cap <= raised * t_amt,
        tb + sold > t_amt || amount + raised > hard,
    ensures
        amount >= cap - raised,
{
    if amount + raised > hard {
        // The currency side of the trigger: linear, since cap <= hard.
    } else {
        lemma_fundamental_div_mod(amount * t_amt, cap);
        lemma_mod_bound(amount * t_amt, cap);
        assert(cap * tb <= amount * t_amt);
        assert(amount >= cap - raised) by (nonlinear_arith)
            requires
                0 < cap,
                0 <= t_amt,
                0 <= amount,
                0 <= raised,
                sold <= t_amt,
                cap * tb <= amount * t_amt,
                sold * cap <= raised * t_amt,
                tb + sold > t_amt,
        ;
    }
}

/// Applies a buyer's contribution to a sale.
///
/// The caller hands in the sale record, the aggregate and personal counters
/// it read for this call, whether the buyer is in the sale's whitelist, and
/// the current time.  On success the counters are updated together and the
/// returned instructions carry any unspent remainder back to the buyer; on
/// rejection nothing changes.
pub fn execute_participate(
    sale: &Sale,
    prog: &mut SaleProgress,
    pers: &mut SaleProgressPersonal,
    buyer: &String,
    cur: &ContributedAsset,
    allow_partial: bool,
    whitelisted: bool,
    now: u64,
) -> (r: Result<Vec<TransferInstruction>, ContractError>)
    requires
        sale_wf(*sale),
        progress_wf(*sale, *old(prog)),
        personal_wf(*old(prog), *old(pers)),
        token_entitlement(*sale, cur.amount) <= u128::MAX,
        participation_admitted(
            *sale,
            *old(prog),
            buyer@,
            cur.info@,
            cur.amount,
            whitelisted,
            now,
        ) && allow_partial && clamp_needed(*sale, *old(prog), cur.amount)
            ==> old(prog).cur_raised <= purchasable_cap(*sale),
    ensures
        cur.info@ != sale.cur_info@ ==> (r matches Err(e) && is_buy_err(
            e,
            "Currency token mismatched"@,
        )),
        cur.info@ == sale.cur_info@ && buyer@ == sale.owner@ ==> (r matches Err(e)
            && is_buy_err(e, "Sale owner cannot participate"@)),
        cur.info@ == sale.cur_info@ && buyer@ != sale.owner@ ==> {
            let status = spec_status(*sale, *old(prog), now);
            &&& status is NotStarted ==> r == Err::<Vec<TransferInstruction>, ContractError>(
                ContractError::NotStarted,
            )
            &&& (status is Failed || status is Ended) ==> r == Err::<
                Vec<TransferInstruction>,
                ContractError,
            >(ContractError::AlreadyEnded)
            &&& status is Filled ==> r == Err::<Vec<TransferInstruction>, ContractError>(
                ContractError::AlreadyFilled,
            )
            &&& status is Ongoing && over_account_cap(*sale, *old(prog), cur.amount) ==> (
                r matches Err(e) && is_buy_err(e, "Token bought exceed maximum allowed per account"@))
            &&& status is Ongoing && !over_account_cap(*sale, *old(prog), cur.amount)
                && whitelist_enforced(*sale, now) && !whitelisted ==> (r matches Err(e)
                && is_whitelist_err(e, "Buyer address is not whitelisted"@))
        },
        participation_admitted(*sale, *old(prog), buyer@, cur.info@, cur.amount, whitelisted, now)
            ==> {
            let clamp = clamp_needed(*sale, *old(prog), cur.amount);
            &&& clamp && !allow_partial ==> (r matches Err(e) && is_buy_err(
                e,
                "Token bought exceed sale amount"@,
            ))
            &&& clamp && allow_partial ==> (r matches Ok(msgs) && {
                &&& final(prog).token_sold == sale.token_sale_amt
                &&& final(prog).cur_raised == purchasable_cap(*sale)
                &&& final(pers).token_got == old(pers).token_got + (sale.token_sale_amt
                    - old(prog).token_sold)
                &&& final(pers).cur_spent == old(pers).cur_spent + (purchasable_cap(*sale)
                    - old(prog).cur_raised)
                &&& msgs@.len() == 1
                &&& msgs@[0].recipient@ == buyer@
                &&& msgs@[0].asset@ == cur.info@
                &&& msgs@[0].amount == cur.amount - (purchasable_cap(*sale)
                    - old(prog).cur_raised)
            })
            &&& !clamp ==> (r matches Ok(msgs) && {
                &&& final(prog).token_sold == old(prog).token_sold + token_entitlement(
                    *sale,
                    cur.amount,
                )
                &&& final(prog).cur_raised == old(prog).cur_raised + cur.amount
                &&& final(pers).token_got == old(pers).token_got + token_entitlement(
                    *sale,
                    cur.amount,
                )
                &&& final(pers).cur_spent == old(pers).cur_spent + cur.amount
                &&& msgs@.len() == 0
            })
        },
        r is Err ==> *final(prog) == *old(prog) && *final(pers) == *old(pers),
        r is Ok ==> progress_wf(*sale, *final(prog)) && personal_wf(*final(prog), *final(pers)),
        r is Ok ==> {
            &&& final(prog).token_claimed == old(prog).token_claimed
            &&& final(prog).is_excess_sent == old(prog).is_excess_sent
            &&& final(prog).cur_excess == old(prog).cur_excess
            &&& final(prog).token_excess == old(prog).token_excess
            &&& final(pers).is_claimed == old(pers).is_claimed
            &&& final(pers).is_refunded == old(pers).is_refunded
        },
        r matches Ok(msgs) ==> old(pers).cur_spent + cur.amount == final(pers).cur_spent
            + total_transferred(msgs@),
{
    let mut msgs: Vec<TransferInstruction> = Vec::new();

    if !(cur.info == sale.cur_info) {
        return Err(ContractError::buy("Currency token mismatched"));
    }
    if *buyer == sale.owner {
        return Err(ContractError::buy("Sale owner cannot participate"));
    }

    let snapshot: SaleProgress = *prog;
    let status = sale.status(&snapshot, now);
    match status {
        SaleStatus::NotStarted => Err(ContractError::NotStarted),
        SaleStatus::Failed | SaleStatus::Ended => Err(ContractError::AlreadyEnded),
        SaleStatus::Filled => Err(ContractError::AlreadyFilled),
        SaleStatus::Ongoing => {
            let denom = sale.hard_cap - sale.owner_allocation;
            let token_bought = mul_ratio_floor(cur.amount, sale.token_sale_amt, denom);

            match sale.max_cur_alloc_per {
                Some(cap) => {
                    if prog.cur_raised > cap || cur.amount > cap - prog.cur_raised {
                        return Err(
                            ContractError::buy("Token bought exceed maximum allowed per account"),
                        );
                    }
                },
                None => {},
            }

            match sale.wl_end_time {
                Some(wl_end) => {
                    if wl_end <= now && !whitelisted {
                        return Err(ContractError::whitelist("Buyer address is not whitelisted"));
                    }
                },
                None => {},
            }

            let remaining_tokens = sale.token_sale_amt - prog.token_sold;
            let remaining_cur = sale.hard_cap - prog.cur_raised;
            if token_bought > remaining_tokens || cur.amount > remaining_cur {
                if allow_partial {
                    let pt_token_bought_amt = sale.token_sale_amt - prog.token_sold;
                    let pt_cur_spent = denom - prog.cur_raised;
                    proof {
                        lemma_partial_fill_covers(
                            sale.token_sale_amt as int,
                            denom as int,
                            sale.hard_cap as int,
                            prog.token_sold as int,
                            prog.cur_raised as int,
                            cur.amount as int,
                            token_bought as int,
                        );
                        lemma_mul_is_commutative(
                            sale.token_sale_amt as int,
                            denom as int,
                        );
                    }
                    let refund_amt = cur.amount - pt_cur_spent;

                    prog.token_sold = prog.token_sold + pt_token_bought_amt;
                    prog.cur_raised = prog.cur_raised + pt_cur_spent;
                    pers.token_got = pers.token_got + pt_token_bought_amt;
                    pers.cur_spent = pers.cur_spent + pt_cur_spent;

                    msgs.push(
                        TransferInstruction {
                            recipient: buyer.clone(),
                            asset: cur.info.clone(),
                            amount: refund_amt,
                        },
                    );
                    proof {
                        reveal_with_fuel(total_transferred, 2);
                        assert(msgs@.drop_first().len() == 0);
                    }
                    Ok(msgs)
                } else {
                    Err(ContractError::buy("Token bought exceed sale amount"))
                }
            } else {
                proof {
                    lemma_rate_preserved(
                        sale.token_sale_amt as int,
                        denom as int,
                        prog.token_sold as int,
                        prog.cur_raised as int,
                        cur.amount as int,
                        token_bought as int,
                    );
                }
                prog.token_sold = prog.token_sold + token_bought;
                prog.cur_raised = prog.cur_raised + cur.amount;
                pers.token_got = pers.token_got + token_bought;
                pers.cur_spent = pers.cur_spent + cur.amount;
                Ok(msgs)
            }
        },
    }
}

/// Settles a sale in the caller's favour once it has Ended or Filled.
///
/// The sale owner collects the reserved token allocation together with the
/// whole raised currency, exactly once; a participant collects the tokens
/// bought, exactly once.  A participant whose entry was already refunded is
/// rejected: the claimed and refunded flags are mutually exclusive per
/// ledger entry, whatever the status reports.  `token_addr` names the token
/// contract the sale instantiated.  On rejection nothing changes.
pub fn execute_claim(
    sale: &Sale,
    prog: &mut SaleProgress,
    pers: &mut Option<SaleProgressPersonal>,
    sender: &String,
    token_addr: &String,
    now: u64,
) -> (r: Result<Vec<TransferInstruction>, ContractError>)
    requires
        (*old(pers)) matches Some(p) ==> ((!p.is_claimed && !p.is_refunded && sender@
            != sale.owner@ && (spec_status(*sale, *old(prog), now) is Ended || spec_status(
            *sale,
            *old(prog),
            now,
        ) is Filled)) ==> old(prog).token_claimed + p.token_got <= u128::MAX),
    ensures
        spec_status(*sale, *old(prog), now) is NotStarted ==> r == Err::<
            Vec<TransferInstruction>,
            ContractError,
        >(ContractError::NotStarted),
        spec_status(*sale, *old(prog), now) is Ongoing ==> r == Err::<
            Vec<TransferInstruction>,
            ContractError,
        >(ContractError::Ongoing),
        spec_status(*sale, *old(prog), now) is Failed ==> r == Err::<
            Vec<TransferInstruction>,
            ContractError,
        >(ContractError::Failed),
        (spec_status(*sale, *old(prog), now) is Ended || spec_status(*sale, *old(prog), now)
            is Filled) && sender@ == sale.owner@ ==> {
            &&& old(prog).is_excess_sent ==> (r matches Err(e) && is_claim_err(
                e,
                "Already claim currency"@,
            ))
            &&& !old(prog).is_excess_sent ==> (r matches Ok(msgs) && {
                &&& final(prog).is_excess_sent
                &&& final(prog).token_sold == old(prog).token_sold
                &&& final(prog).cur_raised == old(prog).cur_raised
                &&& final(prog).token_claimed == old(prog).token_claimed
                &&& final(prog).cur_excess == old(prog).cur_excess
                &&& final(prog).token_excess == old(prog).token_excess
                &&& *final(pers) == *old(pers)
                &&& msgs@.len() == 2
                &&& msgs@[0].recipient@ == sender@
                &&& msgs@[0].asset@ == token_addr@
                &&& msgs@[0].amount == sale.owner_allocation
                &&& msgs@[1].recipient@ == sender@
                &&& msgs@[1].asset@ == sale.cur_info@
                &&& msgs@[1].amount == old(prog).cur_raised
            })
        },
        (spec_status(*sale, *old(prog), now) is Ended || spec_status(*sale, *old(prog), now)
            is Filled) && sender@ != sale.owner@ ==> {
            &&& (*old(pers)) is None ==> r == Err::<Vec<TransferInstruction>, ContractError>(
                ContractError::ParticipationNotFound,
            )
            &&& (*old(pers)) matches Some(p) ==> {
                &&& p.is_claimed ==> (r matches Err(e) && is_claim_err(e, "Already claim token"@))
                &&& !p.is_claimed && p.is_refunded ==> (r matches Err(e) && is_claim_err(
                    e,
                    "Already refunded to participant"@,
                ))
                &&& !p.is_claimed && !p.is_refunded ==> (r matches Ok(msgs) && {
                    &&& (*final(pers)) matches Some(q) && q == (SaleProgressPersonal {
                        is_claimed: true,
                        ..p
                    })
                    &&& final(prog).token_claimed == old(prog).token_claimed + p.token_got
                    &&& final(prog).token_sold == old(prog).token_sold
                    &&& final(prog).cur_raised == old(prog).cur_raised
                    &&& final(prog).is_excess_sent == old(prog).is_excess_sent
                    &&& final(prog).cur_excess == old(prog).cur_excess
                    &&& final(prog).token_excess == old(prog).token_excess
                    &&& msgs@.len() == 1
                    &&& msgs@[0].recipient@ == sender@
                    &&& msgs@[0].asset@ == token_addr@
                    &&& msgs@[0].amount == p.token_got
                })
            }
        },
        r is Err ==> *final(prog) == *old(prog) && *final(pers) == *old(pers),
        progress_wf(*sale, *old(prog)) ==> progress_wf(*sale, *final(prog)),
        (*old(pers)) matches Some(p) && !(p.is_claimed && p.is_refunded) ==> ((*final(pers))
            matches Some(q) && !(q.is_claimed && q.is_refunded)),
        (*old(pers)) is None ==> (*final(pers)) is None,
{
    let mut msgs: Vec<TransferInstruction> = Vec::new();
    let snapshot: SaleProgress = *prog;
    match sale.status(&snapshot, now) {
        SaleStatus::NotStarted => Err(ContractError::NotStarted),
        SaleStatus::Ongoing => Err(ContractError::Ongoing),
        SaleStatus::Failed => Err(ContractError::Failed),
        SaleStatus::Ended | SaleStatus::Filled => {
            if *sender == sale.owner {
                if prog.is_excess_sent {
                    return Err(ContractError::claim("Already claim currency"));
                }
                prog.is_excess_sent = true;
                msgs.push(
                    TransferInstruction {
                        recipient: sender.clone(),
                        asset: token_addr.clone(),
                        amount: sale.owner_allocation,
                    },
                );
                msgs.push(
                    TransferInstruction {
                        recipient: sender.clone(),
                        asset: sale.cur_info.clone(),
                        amount: prog.cur_raised,
                    },
                );
                Ok(msgs)
            } else {
                let entry_opt: Option<SaleProgressPersonal> = *pers;
                match entry_opt {
                    None => Err(ContractError::ParticipationNotFound),
                    Some(entry) => {
                        if entry.is_claimed {
                            return Err(ContractError::claim("Already claim token"));
                        }
                        if entry.is_refunded {
                            return Err(ContractError::claim("Already refunded to participant"));
                        }
                        let mut updated = entry;
                        updated.is_claimed = true;
                        *pers = Some(updated);
                        prog.token_claimed = prog.token_claimed + entry.token_got;
                        msgs.push(
                            TransferInstruction {
                                recipient: sender.clone(),
                                asset: token_addr.clone(),
                                amount: entry.token_got,
                            },
                        );
                        Ok(msgs)
                    },
                }
            }
        },
    }
}

/// Settles a Failed sale: the owner takes the whole unsold token supply
/// back, exactly once; a participant takes the currency spent back, exactly
/// once.  On rejection nothing changes.
pub fn execute_refund(
    sale: &Sale,
    prog: &mut SaleProgress,
    pers: &mut Option<SaleProgressPersonal>,
    sender: &String,
    now: u64,
) -> (r: Result<Vec<TransferInstruction>, ContractError>)
    ensures
        spec_status(*sale, *old(prog), now) is NotStarted ==> r == Err::<
            Vec<TransferInstruction>,
            ContractError,
        >(ContractError::NotStarted),
        spec_status(*sale, *old(prog), now) is Ongoing ==> r == Err::<
            Vec<TransferInstruction>,
            ContractError,
        >(ContractError::Ongoing),
        (spec_status(*sale, *old(prog), now) is Ended || spec_status(*sale, *old(prog), now)
            is Filled) ==> r == Err::<Vec<TransferInstruction>, ContractError>(
            ContractError::Ended,
        ),
        spec_status(*sale, *old(prog), now) is Failed && sender@ == sale.owner@ ==> {
            &&& old(prog).is_excess_sent ==> (r matches Err(e) && is_refund_err(
                e,
                "Already refunded excess token"@,
            ))
            &&& !old(prog).is_excess_sent ==> (r matches Ok(msgs) && {
                &&& final(prog).is_excess_sent
                &&& final(prog).token_excess == sale.token_sale_amt
                &&& final(prog).token_sold == old(prog).token_sold
                &&& final(prog).cur_raised == old(prog).cur_raised
                &&& final(prog).token_claimed == old(prog).token_claimed
                &&& final(prog).cur_excess == old(prog).cur_excess
                &&& *final(pers) == *old(pers)
                &&& msgs@.len() == 1
                &&& msgs@[0].recipient@ == sender@
                &&& msgs@[0].asset@ == sale.token_addr@
                &&& msgs@[0].amount == sale.token_sale_amt
            })
        },
        spec_status(*sale, *old(prog), now) is Failed && sender@ != sale.owner@ ==> {
            &&& (*old(pers)) is None ==> r == Err::<Vec<TransferInstruction>, ContractError>(
                ContractError::ParticipationNotFound,
            )
            &&& (*old(pers)) matches Some(p) ==> {
                &&& (p.is_refunded || p.is_claimed) ==> (r matches Err(e) && is_refund_err(
                    e,
                    "Already refunded or claimed to participant"@,
                ))
                &&& !(p.is_refunded || p.is_claimed) ==> (r matches Ok(msgs) && {
                    &&& (*final(pers)) matches Some(q) && q == (SaleProgressPersonal {
                        is_refunded: true,
                        ..p
                    })
                    &&& *final(prog) == *old(prog)
                    &&& msgs@.len() == 1
                    &&& msgs@[0].recipient@ == sender@
                    &&& msgs@[0].asset@ == sale.cur_info@
                    &&& msgs@[0].amount == p.cur_spent
                })
            }
        },
        r is Err ==> *final(prog) == *old(prog) && *final(pers) == *old(pers),
        progress_wf(*sale, *old(prog)) ==> progress_wf(*sale, *final(prog)),
        (*old(pers)) matches Some(p) && !(p.is_claimed && p.is_refunded) ==> ((*final(pers)) matches Some(q)
            && !(q.is_claimed && q.is_refunded)),
        (*old(pers)) is None ==> (*final(pers)) is None,
{
    let mut msgs: Vec<TransferInstruction> = Vec::new();
    let snapshot: SaleProgress = *prog;
    match sale.status(&snapshot, now) {
        SaleStatus::NotStarted => Err(ContractError::NotStarted),
        SaleStatus::Ongoing => Err(ContractError::Ongoing),
        SaleStatus::Ended | SaleStatus::Filled => Err(ContractError::Ended),
        SaleStatus::Failed => {
            if *sender == sale.owner {
                if prog.is_excess_sent {
                    return Err(ContractError::refund("Already refunded excess token"));
                }
                let total_token = sale.token_sale_amt;
                msgs.push(
                    TransferInstruction {
                        recipient: sender.clone(),
                        asset: sale.token_addr.clone(),
                        amount: total_token,
                    },
                );
                prog.is_excess_sent = true;
                prog.token_excess = total_token;
                Ok(msgs)
            } else {
                let entry_opt: Option<SaleProgressPersonal> = *pers;
                match entry_opt {
                    None => Err(ContractError::ParticipationNotFound),
                    Some(entry) => {
                        if entry.is_refunded || entry.is_claimed {
                            return Err(
                                ContractError::refund("Already refunded or claimed to participant"),
                            );
                        }
                        msgs.push(
                            TransferInstruction {
                                recipient: sender.clone(),
                                asset: sale.cur_info.clone(),
                                amount: entry.cur_spent,
                            },
                        );
                        let mut updated = entry;
                        updated.is_refunded = true;
                        *pers = Some(updated);
                        Ok(msgs)
                    },
                }
            }
        },
    }
}

} // verus!
