use absolute_fi::error::ContractError;
use absolute_fi::handler::execute_participate;
use absolute_fi::state::{ContributedAsset, Sale, SaleProgress, SaleProgressPersonal, SaleStatus};

fn sample_sale() -> Sale {
    Sale {
        id: 1,
        created_at: 5,
        owner: "owner".to_string(),
        referrer: None,
        start: 10,
        end: 20,
        token_addr: "token".to_string(),
        token_sale_amt: 1000,
        cur_info: "cur".to_string(),
        soft_cap: 50,
        hard_cap: 100,
        max_cur_alloc_per: None,
        wl_end_time: None,
        owner_allocation: 0,
        token_name: "Name".to_string(),
        token_symbol: "SYM".to_string(),
        token_project: "proj".to_string(),
        token_description: "desc".to_string(),
        token_marketing: "mark".to_string(),
        token_logo: "logo".to_string(),
    }
}

fn progress(token_sold: u128, cur_raised: u128) -> SaleProgress {
    SaleProgress {
        token_sold,
        cur_raised,
        token_claimed: 0,
        is_excess_sent: false,
        cur_excess: 0,
        token_excess: 0,
    }
}

fn asset(amount: u128) -> ContributedAsset {
    ContributedAsset { info: "cur".to_string(), amount }
}

#[test]
fn reject_when_contribution_exceeds_hard_cap() {
    // token_sale_amt=1000, hard_cap=100, owner_allocation=0; contributing 60
    // when 50 is already raised would push the total to 110 > 100.
    let sale = sample_sale();
    let mut prog = progress(500, 50);
    let mut pers = SaleProgressPersonal::new();
    let buyer = "alice".to_string();
    let r = execute_participate(&sale, &mut prog, &mut pers, &buyer, &asset(60), false, false, 15);
    assert_eq!(r, Err(ContractError::Buy("Token bought exceed sale amount".to_string())));
    // Nothing changed.
    assert_eq!(prog, progress(500, 50));
    assert_eq!(pers, SaleProgressPersonal::new());
}

#[test]
fn partial_fill_clamps_and_refunds_remainder() {
    // Same sale: contributing 60 with allow_partial consumes 50, credits 500
    // tokens and returns 10 to the buyer.
    let sale = sample_sale();
    let mut prog = progress(500, 50);
    let mut pers = SaleProgressPersonal::new();
    let buyer = "alice".to_string();
    let r = execute_participate(&sale, &mut prog, &mut pers, &buyer, &asset(60), true, false, 15);
    let msgs = r.unwrap();
    assert_eq!(prog.cur_raised, 100);
    assert_eq!(prog.token_sold, 1000);
    assert_eq!(pers.cur_spent, 50);
    assert_eq!(pers.token_got, 500);
    assert_eq!(msgs.len(), 1);
    assert_eq!(msgs[0].recipient, "alice".to_string());
    assert_eq!(msgs[0].asset, "cur".to_string());
    assert_eq!(msgs[0].amount, 10);
}

#[test]
fn partial_fill_conserves_contributed_currency() {
    // purchasable capacity 90 (hard cap 100, owner allocation 10); raised 85,
    // sold 900.  A contribution of 20 triggers clamping: 5 consumed, 15 back.
    let mut sale = sample_sale();
    sale.owner_allocation = 10;
    let mut prog = progress(900, 85);
    let mut pers = SaleProgressPersonal::new();
    let buyer = "alice".to_string();
    let contributed: u128 = 20;
    let r = execute_participate(
        &sale, &mut prog, &mut pers, &buyer, &asset(contributed), true, false, 15,
    );
    let msgs = r.unwrap();
    assert_eq!(pers.cur_spent, 5);
    assert_eq!(msgs[0].amount, 15);
    assert_eq!(pers.cur_spent + msgs[0].amount, contributed);
    assert_eq!(prog.token_sold, 1000);
    assert_eq!(prog.cur_raised, 90);
    assert_eq!(pers.token_got, 100);
}

#[test]
fn full_contribution_credits_linear_entitlement() {
    let sale = sample_sale();
    let mut prog = progress(0, 0);
    let mut pers = SaleProgressPersonal::new();
    let buyer = "alice".to_string();
    let r = execute_participate(&sale, &mut prog, &mut pers, &buyer, &asset(10), false, false, 15);
    let msgs = r.unwrap();
    assert!(msgs.is_empty());
    // 10 * 1000 / 100 = 100 tokens.
    assert_eq!(prog.token_sold, 100);
    assert_eq!(prog.cur_raised, 10);
    assert_eq!(pers.token_got, 100);
    assert_eq!(pers.cur_spent, 10);
}

#[test]
fn entitlement_rounds_down() {
    // purchasable capacity 90: 7 * 1000 / 90 = 77 (floor of 77.8).
    let mut sale = sample_sale();
    sale.owner_allocation = 10;
    let mut prog = progress(0, 0);
    let mut pers = SaleProgressPersonal::new();
    let buyer = "alice".to_string();
    let r = execute_participate(&sale, &mut prog, &mut pers, &buyer, &asset(7), false, false, 15);
    assert!(r.is_ok());
    assert_eq!(prog.token_sold, 77);
    assert_eq!(pers.token_got, 77);
}

#[test]
fn reject_currency_mismatch() {
    let sale = sample_sale();
    let mut prog = progress(0, 0);
    let mut pers = SaleProgressPersonal::new();
    let buyer = "alice".to_string();
    let wrong = ContributedAsset { info: "other".to_string(), amount: 10 };
    let r = execute_participate(&sale, &mut prog, &mut pers, &buyer, &wrong, false, false, 15);
    assert_eq!(r, Err(ContractError::Buy("Currency token mismatched".to_string())));
}

#[test]
fn reject_owner_participation() {
    let sale = sample_sale();
    let mut prog = progress(0, 0);
    let mut pers = SaleProgressPersonal::new();
    let buyer = "owner".to_string();
    let r = execute_participate(&sale, &mut prog, &mut pers, &buyer, &asset(10), false, false, 15);
    assert_eq!(r, Err(ContractError::Buy("Sale owner cannot participate".to_string())));
}

#[test]
fn reject_before_start_and_after_end() {
    let sale = sample_sale();
    let mut prog = progress(0, 0);
    let mut pers = SaleProgressPersonal::new();
    let buyer = "alice".to_string();
    let r = execute_participate(&sale, &mut prog, &mut pers, &buyer, &asset(10), false, false, 9);
    assert_eq!(r, Err(ContractError::NotStarted));
    // After the window with the soft cap met: Ended.
    let mut prog = progress(600, 60);
    let r = execute_participate(&sale, &mut prog, &mut pers, &buyer, &asset(10), false, false, 21);
    assert_eq!(r, Err(ContractError::AlreadyEnded));
    // After the window below the soft cap: Failed, same rejection.
    let mut prog = progress(100, 10);
    let r = execute_participate(&sale, &mut prog, &mut pers, &buyer, &asset(10), false, false, 21);
    assert_eq!(r, Err(ContractError::AlreadyEnded));
}

#[test]
fn reject_when_already_filled() {
    let sale = sample_sale();
    let mut prog = progress(1000, 100);
    let mut pers = SaleProgressPersonal::new();
    let buyer = "alice".to_string();
    let r = execute_participate(&sale, &mut prog, &mut pers, &buyer, &asset(10), false, false, 15);
    assert_eq!(r, Err(ContractError::AlreadyFilled));
}

#[test]
fn reject_over_per_account_cap() {
    // The cap check compares the contribution against the sale-wide raised
    // total: 40 + 50 > 80.
    let mut sale = sample_sale();
    sale.max_cur_alloc_per = Some(80);
    let mut prog = progress(500, 50);
    let mut pers = SaleProgressPersonal::new();
    let buyer = "alice".to_string();
    let r = execute_participate(&sale, &mut prog, &mut pers, &buyer, &asset(40), false, false, 15);
    assert_eq!(
        r,
        Err(ContractError::Buy("Token bought exceed maximum allowed per account".to_string()))
    );
    // Under the cap the contribution goes through.
    let r = execute_participate(&sale, &mut prog, &mut pers, &buyer, &asset(30), false, false, 15);
    assert!(r.is_ok());
    assert_eq!(prog.cur_raised, 80);
}

#[test]
fn whitelist_enforced_after_window_closes() {
    let mut sale = sample_sale();
    sale.wl_end_time = Some(12);
    let mut prog = progress(0, 0);
    let mut pers = SaleProgressPersonal::new();
    let buyer = "alice".to_string();
    // The whitelist window has closed and the buyer is not a member.
    let r = execute_participate(&sale, &mut prog, &mut pers, &buyer, &asset(10), false, false, 15);
    assert_eq!(r, Err(ContractError::Whitelist("Buyer address is not whitelisted".to_string())));
    // A member may still participate.
    let r = execute_participate(&sale, &mut prog, &mut pers, &buyer, &asset(10), false, true, 15);
    assert!(r.is_ok());
}

#[test]
fn whitelist_not_enforced_while_window_open() {
    let mut sale = sample_sale();
    sale.wl_end_time = Some(18);
    let mut prog = progress(0, 0);
    let mut pers = SaleProgressPersonal::new();
    let buyer = "alice".to_string();
    // Before the whitelist end time everyone may participate.
    let r = execute_participate(&sale, &mut prog, &mut pers, &buyer, &asset(10), false, false, 15);
    assert!(r.is_ok());
}

#[test]
fn repeated_contributions_accumulate_in_ledger() {
    let sale = sample_sale();
    let mut prog = progress(0, 0);
    let mut pers = SaleProgressPersonal::new();
    let buyer = "alice".to_string();
    execute_participate(&sale, &mut prog, &mut pers, &buyer, &asset(10), false, false, 15)
        .unwrap();
    execute_participate(&sale, &mut prog, &mut pers, &buyer, &asset(20), false, false, 16)
        .unwrap();
    assert_eq!(pers.cur_spent, 30);
    assert_eq!(pers.token_got, 300);
    assert_eq!(prog.cur_raised, 30);
    assert_eq!(prog.token_sold, 300);
}

#[test]
fn exact_fill_reaches_filled_without_clamping() {
    let sale = sample_sale();
    let mut prog = progress(500, 50);
    let mut pers = SaleProgressPersonal::new();
    let buyer = "alice".to_string();
    // Exactly the remaining capacity: no clamping, no refund.
    let msgs =
        execute_participate(&sale, &mut prog, &mut pers, &buyer, &asset(50), false, false, 15)
            .unwrap();
    assert!(msgs.is_empty());
    assert_eq!(prog.token_sold, 1000);
    assert_eq!(prog.cur_raised, 100);
    assert_eq!(sale.status(&prog, 15), SaleStatus::Filled);
}

#[test]
fn entitlement_survives_wide_intermediate_products() {
    // amount * token_sale_amt overflows a u128; the ratio is computed through
    // a 256-bit intermediate, so the entitlement is still exact.
    let mut sale = sample_sale();
    let big: u128 = 1 << 64;
    sale.token_sale_amt = big;
    sale.hard_cap = big;
    sale.soft_cap = big;
    let mut prog = progress(0, 0);
    let mut pers = SaleProgressPersonal::new();
    let buyer = "alice".to_string();
    let r = execute_participate(
        &sale, &mut prog, &mut pers, &buyer, &asset(big), false, false, 15,
    );
    assert!(r.is_ok());
    assert_eq!(pers.token_got, big);
    assert_eq!(prog.token_sold, big);
    assert_eq!(prog.cur_raised, big);
}
