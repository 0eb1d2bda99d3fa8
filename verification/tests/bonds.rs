use profit_rat::bonds::{
    bond_choice_label, bond_yield_periods, issuance_in_guild, bot_bond_policy, bot_offer_gate, bot_offer_outcome,
    check_bond_request, evaluate_bot_bond_purchase, exposure_budget, plan_bond_escrow,
    plan_bond_maturity, plan_bond_purchase, record_auto_buy, saturating_difference,
    start_auto_buy, BondIssuanceRow, BondPurchaseReceipt, BotBondEvaluation, BotBondPolicy,
    CreateBondRequest,
};
use profit_rat::clock::render_instant;
use profit_rat::config::{BondPolicyConfig, BotPolicyConfig};
use profit_rat::error::{AppError, ErrorKind};

const SECOND: i128 = 1_000_000_000;
const NOW: i128 = 1_780_000_000 * SECOND;

fn bond_policy() -> BondPolicyConfig {
    BondPolicyConfig {
        enabled: true,
        default_yield_period_seconds: 3_600,
        max_yield_bps: 5_000,
        min_maturity_seconds: 3_600,
        max_maturity_seconds: 7_776_000,
        max_open_issuances_per_user: 10,
        worker_interval_seconds: 60,
    }
}

fn bot_policy() -> BotPolicyConfig {
    BotPolicyConfig {
        auto_claim: true,
        auto_accept_loans: true,
        startup_announcement_channel_name: "bots".to_string(),
        startup_announcement_fallback_channel_name: "general".to_string(),
        max_loan_interest_bps: 500,
        min_loan_duration_seconds: 3_600,
        auto_buy_bonds: true,
        min_bond_yield_bps: 100,
        max_bond_yield_bps: 500,
        min_bond_maturity_seconds: 3_600,
        max_bond_maturity_seconds: 86_400,
        max_bond_price_mana: 5_000,
        max_bond_purchase_quantity: 1,
        max_total_bond_exposure_mana: 20_000,
        worker_interval_seconds: 60,
    }
}

fn request(title: &str, price: i64, total: i64) -> CreateBondRequest {
    CreateBondRequest {
        guild_id: "guild-a".to_string(),
        issuer_user_id: "seller".to_string(),
        issuer_display_name: "Seller".to_string(),
        title: title.to_string(),
        description: None,
        price_per_bond_mana: price,
        total_bonds: total,
        yield_bps: 400,
        yield_period_seconds: Some(3_600),
        matures_at: NOW + 2 * 3_600 * SECOND,
    }
}

fn issuance_from(request: &CreateBondRequest, id: i64, payout: i64, escrow: i64) -> BondIssuanceRow {
    BondIssuanceRow {
        id,
        guild_id: request.guild_id.clone(),
        issuer_discord_user_id: request.issuer_user_id.clone(),
        title: request.title.clone(),
        price_per_bond_mana: request.price_per_bond_mana,
        payout_per_bond_mana: payout,
        total_bonds: request.total_bonds,
        remaining_bonds: request.total_bonds,
        escrow_reserved_mana: escrow,
        yield_bps: request.yield_bps,
        yield_period_seconds: request.yield_period_seconds.unwrap(),
        matures_at: render_instant(request.matures_at).expect("renderable"),
        status: "open".to_string(),
    }
}

fn offer_to_bot(issuance: &BondIssuanceRow, bot_balance: i64) -> profit_rat::bonds::BotBondOfferOutcome {
    let bonds = bond_policy();
    let bot = bot_policy();
    if let Some(outcome) = bot_offer_gate(&bonds, &bot) {
        return outcome;
    }
    let policy = bot_bond_policy(&bot);
    let budget = exposure_budget(policy.max_total_exposure_mana, 0);
    let evaluation =
        evaluate_bot_bond_purchase(issuance, "bot", budget, &policy, false, bot_balance, NOW)
            .expect("evaluate");
    let receipt = match evaluation.approved_quantity {
        Some(quantity) => {
            let purchase =
                plan_bond_purchase(issuance, "bot", quantity, bot_balance).expect("purchase");
            Some(BondPurchaseReceipt {
                issuance_id: issuance.id,
                title: issuance.title.clone(),
                quantity,
                spent_mana: purchase.cost_mana,
                payout_at_maturity_mana: purchase.payout_at_maturity_mana,
                remaining_bonds: purchase.remaining_bonds,
                buyer_balance_mana: bot_balance - purchase.cost_mana,
            })
        }
        None => None,
    };
    bot_offer_outcome(evaluation, receipt)
}

#[test]
fn sell_bond_to_bot_accepts_eligible_bond() {
    let req = request("Treasury Note", 1_000, 3);
    let period = check_bond_request(&bond_policy(), &req, 0, NOW).expect("create bond");
    assert_eq!(period, 3_600);
    let issuance = issuance_from(&req, 1, 1_082, 3_246);
    let outcome = offer_to_bot(&issuance, 100_000);
    assert!(outcome.accepted);
    assert_eq!(outcome.quantity, 1);
    assert!(outcome.receipt.is_some());
}

#[test]
fn sell_bond_to_bot_rejects_expensive_bond() {
    let req = request("Too Rich For Rat", 6_000, 2);
    check_bond_request(&bond_policy(), &req, 0, NOW).expect("create bond");
    let issuance = issuance_from(&req, 2, 6_490, 12_980);
    let outcome = offer_to_bot(&issuance, 100_000);
    assert!(!outcome.accepted);
    assert_eq!(outcome.quantity, 0);
    assert!(outcome.reason.contains("above the bot limit"));
    assert_eq!(outcome.reason, "price 6000 is above the bot limit of 5000");
}

#[test]
fn bond_request_rules_refuse_each_bad_field() {
    let policy = bond_policy();
    let mut req = request("   ", 1_000, 3);
    let err = check_bond_request(&policy, &req, 0, NOW).unwrap_err();
    assert!(matches!(err, AppError::Validation(ref m) if m == "bond title cannot be empty"));
    req.title = "Note".to_string();
    req.price_per_bond_mana = 0;
    let err = check_bond_request(&policy, &req, 0, NOW).unwrap_err();
    assert!(matches!(err, AppError::Validation(ref m) if m == "bond price must be positive"));
    req.price_per_bond_mana = 10;
    req.total_bonds = -1;
    let err = check_bond_request(&policy, &req, 0, NOW).unwrap_err();
    assert!(matches!(err, AppError::Validation(ref m) if m == "total bonds must be positive"));
    req.total_bonds = 1;
    req.yield_bps = 5_001;
    let err = check_bond_request(&policy, &req, 0, NOW).unwrap_err();
    assert!(matches!(err, AppError::Validation(ref m) if m == "yield_bps must be between 0 and 5000"));
    req.yield_bps = 10;
    req.matures_at = NOW + 60 * SECOND;
    let err = check_bond_request(&policy, &req, 0, NOW).unwrap_err();
    assert!(matches!(err, AppError::Validation(ref m)
        if m == "maturity must be between 3600 and 7776000 seconds from now"));
    req.matures_at = NOW + 7_200 * SECOND;
    let err = check_bond_request(&policy, &req, 10, NOW).unwrap_err();
    assert!(matches!(err, AppError::Conflict(ref m)
        if m == "you already have the maximum number of open bond issuances (10)"));
    req.yield_period_seconds = Some(0);
    let err = check_bond_request(&policy, &req, 0, NOW).unwrap_err();
    assert!(matches!(err, AppError::Validation(ref m) if m == "yield period must be positive"));
    req.yield_period_seconds = None;
    assert_eq!(check_bond_request(&policy, &req, 0, NOW).unwrap(), 3_600);
    let mut off = bond_policy();
    off.enabled = false;
    let err = check_bond_request(&off, &req, 0, NOW).unwrap_err();
    assert!(matches!(err, AppError::Conflict(ref m) if m == "bonds are disabled by server policy"));
}

#[test]
fn yield_periods_round_up_and_never_fall_below_one() {
    assert_eq!(bond_yield_periods(3_600, NOW + 7_200 * SECOND, NOW), 2);
    assert_eq!(bond_yield_periods(3_600, NOW + 7_201 * SECOND, NOW), 3);
    assert_eq!(bond_yield_periods(3_600, NOW - 100 * SECOND, NOW), 1);
}

#[test]
fn escrow_covers_every_bond_and_must_be_affordable() {
    assert_eq!(plan_bond_escrow(1_082, 3, 100_000).unwrap(), 3_246);
    let err = plan_bond_escrow(1_082, 3, 3_000).unwrap_err();
    assert!(matches!(err, AppError::Conflict(ref m)
        if m == "issuer needs 3246 available to reserve full bond payout escrow"));
    let err = plan_bond_escrow(0, 3, 100_000).unwrap_err();
    assert!(matches!(err, AppError::Validation(ref m) if m == "bond payout must be positive"));
    let err = plan_bond_escrow(i64::MAX, 3, i64::MAX).unwrap_err();
    assert!(matches!(err, AppError::Validation(ref m) if m == "bond escrow was too large"));
}

#[test]
fn purchase_moves_price_and_shrinks_supply() {
    let req = request("Note", 1_000, 3);
    let issuance = issuance_from(&req, 7, 1_082, 3_246);
    let p = plan_bond_purchase(&issuance, "buyer", 2, 5_000).unwrap();
    assert_eq!(p.cost_mana, 2_000);
    assert_eq!(p.payout_at_maturity_mana, 2_164);
    assert_eq!(p.remaining_bonds, 1);
    let err = plan_bond_purchase(&issuance, "buyer", 4, 5_000).unwrap_err();
    assert!(matches!(err, AppError::Conflict(ref m) if m == "only 3 bonds remain in that issuance"));
    let err = plan_bond_purchase(&issuance, "seller", 1, 5_000).unwrap_err();
    assert!(matches!(err, AppError::Validation(ref m) if m == "you cannot buy your own bond issuance"));
    let err = plan_bond_purchase(&issuance, "buyer", 2, 1_999).unwrap_err();
    assert!(matches!(err, AppError::Conflict(ref m)
        if m == "you do not have enough balance to buy those bonds"));
    let err = plan_bond_purchase(&issuance, "buyer", 0, 5_000).unwrap_err();
    assert!(matches!(err, AppError::Validation(ref m) if m == "bond quantity must be positive"));
    let mut closed = issuance.clone();
    closed.status = "matured".to_string();
    let err = plan_bond_purchase(&closed, "buyer", 1, 5_000).unwrap_err();
    assert!(matches!(err, AppError::Conflict(ref m)
        if m == "bond issuance #7 is not open; current status is matured"));
}

#[test]
fn maturity_pays_holders_and_refunds_unsold_escrow() {
    let req = request("Note", 1_000, 5);
    let mut issuance = issuance_from(&req, 9, 1_100, 5_500);
    issuance.remaining_bonds = 1;
    let m = plan_bond_maturity(&issuance, &vec![3, 1]).unwrap();
    assert!(m.settles);
    assert_eq!(m.payouts, vec![3_300, 1_100]);
    assert_eq!(m.holders_paid, 2);
    assert_eq!(m.total_paid_mana, 4_400);
    assert_eq!(m.issuer_refund_mana, 1_100);
    assert_eq!(m.escrow_remaining_mana, 0);
    let mut matured = issuance.clone();
    matured.status = "matured".to_string();
    let m = plan_bond_maturity(&matured, &vec![3, 1]).unwrap();
    assert!(!m.settles);
    assert_eq!(m.total_paid_mana, 0);
    let mut huge = issuance.clone();
    huge.payout_per_bond_mana = i64::MAX;
    let err = plan_bond_maturity(&huge, &vec![2]).unwrap_err();
    assert!(matches!(err, AppError::Validation(ref m) if m == "bond maturity payout was too large"));
    huge.remaining_bonds = 3;
    let err = plan_bond_maturity(&huge, &vec![1]).unwrap_err();
    assert!(matches!(err, AppError::Validation(ref m) if m == "bond refund was too large"));
}

#[test]
fn bot_declines_for_each_of_its_limits() {
    let req = request("Note", 1_000, 3);
    let issuance = issuance_from(&req, 3, 1_082, 3_246);
    let policy = bot_bond_policy(&bot_policy());
    let reason = |i: &BondIssuanceRow, buyer: &str, budget: i64, holds: bool, balance: i64| {
        evaluate_bot_bond_purchase(i, buyer, budget, &policy, holds, balance, NOW)
            .unwrap()
            .reason
    };
    assert_eq!(reason(&issuance, "seller", 100, false, 100_000), "the bot will not buy its own bond issuance");
    assert_eq!(reason(&issuance, "bot", 0, false, 100_000), "the bot has already hit its bond exposure limit");
    assert_eq!(reason(&issuance, "bot", 5_000, true, 100_000), "the bot already holds this bond issuance");
    let mut low = issuance.clone();
    low.yield_bps = 50;
    assert_eq!(reason(&low, "bot", 5_000, false, 100_000), "yield 50 bps is below the bot minimum of 100 bps");
    low.yield_bps = 900;
    assert_eq!(reason(&low, "bot", 5_000, false, 100_000), "yield 900 bps is above the bot maximum of 500 bps");
    let mut far = issuance.clone();
    far.matures_at = render_instant(NOW + 200_000 * SECOND).unwrap();
    assert_eq!(reason(&far, "bot", 5_000, false, 100_000), "maturity 200000s is longer than the bot maximum of 86400s");
    assert_eq!(reason(&issuance, "bot", 500, false, 100_000),
        "the bot cannot currently afford even one bond under its balance and exposure limits");
    let ok = evaluate_bot_bond_purchase(&issuance, "bot", 5_000, &policy, false, 100_000, NOW).unwrap();
    assert_eq!(ok.approved_quantity, Some(1));
    assert_eq!(ok.reason, "accepted 1 bond(s) because yield, price, maturity, and exposure limits all passed");
    let mut broken = issuance.clone();
    broken.matures_at = "soon".to_string();
    let err = evaluate_bot_bond_purchase(&broken, "bot", 5_000, &policy, false, 100_000, NOW).unwrap_err();
    assert!(matches!(err, AppError::Other(ref m) if m == "invalid RFC3339 timestamp: soon"));
    assert_eq!(err.error_kind(), ErrorKind::Other);
}

#[test]
fn bot_offer_gate_follows_configuration() {
    let mut bonds = bond_policy();
    bonds.enabled = false;
    let out = bot_offer_gate(&bonds, &bot_policy()).unwrap();
    assert_eq!(out.reason, "bot bond buying is disabled because bonds are disabled in config");
    let mut bot = bot_policy();
    bot.auto_buy_bonds = false;
    let out = bot_offer_gate(&bond_policy(), &bot).unwrap();
    assert_eq!(out.reason, "the bot is not buying bonds right now");
    assert!(bot_offer_gate(&bond_policy(), &bot_policy()).is_none());
    let declined = bot_offer_outcome(BotBondEvaluation::reject("no".to_string()), None);
    assert!(!declined.accepted && declined.quantity == 0 && declined.receipt.is_none());
}

#[test]
fn auto_buy_budget_counts_down_to_zero() {
    let policy = BotBondPolicy {
        min_yield_bps: 0,
        max_yield_bps: 1_000,
        min_maturity_seconds: 0,
        max_maturity_seconds: 100_000,
        max_price_mana: 10_000,
        max_purchase_quantity: 2,
        max_total_exposure_mana: 5_000,
    };
    assert_eq!(start_auto_buy(true, &policy, 1_000), Some(4_000));
    assert_eq!(start_auto_buy(false, &policy, 0), None);
    assert_eq!(start_auto_buy(true, &policy, 5_000), None);
    let step = record_auto_buy(4_000, 0, 2_000, 2);
    assert_eq!(step.purchased, 2);
    assert_eq!(step.budget, 0);
    assert!(step.done);
    let step = record_auto_buy(4_000, 1, 1_000, 1);
    assert_eq!((step.budget, step.purchased, step.done), (3_000, 2, false));
    assert_eq!(exposure_budget(10, i64::MIN), i64::MAX);
    assert_eq!(saturating_difference(i64::MIN, 1), i64::MIN);
}

#[test]
fn bond_choice_label_lists_id_supply_and_payout() {
    assert_eq!(bond_choice_label(4, 2, 1_100, "Note"), "#4 [2 left | 1100 payout] Note");
}

#[test]
fn issuances_are_seen_only_by_their_server() {
    let issuance = issuance_from(&request("Note", 100, 5), 9, 110, 550);
    assert_eq!(issuance_in_guild("guild-a", 9, Some(issuance.clone())).unwrap().id, 9);
    for (guild, found) in [("guild-b", Some(issuance)), ("guild-a", None)] {
        match issuance_in_guild(guild, 9, found) {
            Err(AppError::NotFound(m)) => assert_eq!(m, "bond issuance 9 was not found"),
            other => panic!("unexpected {other:?}"),
        }
    }
}
