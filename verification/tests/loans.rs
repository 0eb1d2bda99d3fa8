use profit_rat::clock::render_instant;
use profit_rat::config::LoanPolicyConfig;
use profit_rat::error::AppError;
use profit_rat::social::{
    auto_repay_payment, check_loan_decline, loan_in_guild, loan_auto_acceptable, loan_direction, money_loan_closed,
    normalize_duration, normalize_interest_bps, plan_auto_repayments, plan_loan_acceptance,
    plan_money_donation, plan_money_loan_offer, plan_repayment, repayment_due, DueMoneyLoan,
    LoanAcceptance, LoanRecord, LoanRepayment,
};

const SECOND: i128 = 1_000_000_000;
const NOW: i128 = 1_780_000_000 * SECOND;
const STARTING_BALANCE: i64 = 100_000;

fn loan_policy() -> LoanPolicyConfig {
    LoanPolicyConfig {
        allow_money_loans: true,
        allow_share_loans: true,
        allow_partial_repayment: true,
        allow_early_repayment: true,
        allow_interest: true,
        default_interest_bps: 0,
        max_interest_bps: 2_500,
        default_duration_seconds: 86_400,
        max_duration_seconds: 2_592_000,
        max_open_loans_per_user: 10,
    }
}

fn offered_loan(status: &str) -> LoanRecord {
    let policy = loan_policy();
    let offer = plan_money_loan_offer(
        &policy, 1, 60, "lender", "bot", 1_000, Some(500), Some(3_600), STARTING_BALANCE, NOW,
    )
    .expect("offer");
    LoanRecord {
        id: 1,
        guild_id: "guild-a".to_string(),
        asset_type: "money".to_string(),
        market_id: None,
        option_id: None,
        lender_discord_user_id: "lender".to_string(),
        borrower_discord_user_id: "bot".to_string(),
        principal_mana: Some(offer.principal_mana),
        repayment_mana: Some(offer.repayment_mana),
        interest_bps: offer.interest_bps,
        due_at: render_instant(offer.due_at).unwrap(),
        status: status.to_string(),
        expires_at: render_instant(offer.expires_at).unwrap(),
    }
}

fn settle_bot_debt(loan: &LoanRecord) -> (u64, i64, String, i64) {
    let accepted = plan_loan_acceptance(loan, "bot", NOW + SECOND, STARTING_BALANCE).expect("accept");
    let principal = match accepted {
        LoanAcceptance::Money { principal_mana } => principal_mana,
        LoanAcceptance::Shares { .. } => panic!("money loan expected"),
    };
    let bot_balance = STARTING_BALANCE + principal;
    let due = vec![DueMoneyLoan {
        loan_id: loan.id,
        asset_type: loan.asset_type.clone(),
        repayment_mana: loan.repayment_mana,
        already_repaid_mana: 0,
    }];
    let (payments, summary) = plan_auto_repayments(&due, bot_balance, true);
    let repaid: i64 = payments.iter().map(|p| p.payment_mana).sum();
    let status = if money_loan_closed(loan.repayment_mana, repaid) { "repaid" } else { "active" };
    (summary.repaid_loans, summary.total_paid_mana, status.to_string(), repaid)
}

#[test]
fn auto_repay_due_money_loans_reduces_bot_debt() {
    let loan = offered_loan("pending");
    let (repaid_loans, total_paid, status, repaid) = settle_bot_debt(&loan);
    assert_eq!(repaid_loans, 1);
    assert!(total_paid >= 1_050);
    assert_eq!(status, "repaid");
    assert_eq!(repaid, 1_050);
}

#[test]
fn auto_repay_defaulted_money_loans_restores_old_bot_debt() {
    let loan = offered_loan("pending");
    let (_, _, _, _) = settle_bot_debt(&loan);
    let mut defaulted = offered_loan("defaulted");
    defaulted.id = 2;
    let due = vec![DueMoneyLoan {
        loan_id: defaulted.id,
        asset_type: defaulted.asset_type.clone(),
        repayment_mana: defaulted.repayment_mana,
        already_repaid_mana: 0,
    }];
    let (payments, summary) = plan_auto_repayments(&due, STARTING_BALANCE + 1_000, true);
    assert_eq!(summary.repaid_loans, 1);
    assert!(summary.total_paid_mana >= 1_050);
    assert_eq!(payments.len(), 1);
    assert_eq!(payments[0].payment_mana, 1_050);
    assert!(money_loan_closed(defaulted.repayment_mana, 1_050));
    assert_eq!(summary.loan_ids, vec![2]);
}

#[test]
fn loan_offer_owes_rounded_up_interest() {
    assert_eq!(repayment_due(1_000, 500), 1_050);
    assert_eq!(repayment_due(1_001, 1), 1_002);
    assert_eq!(repayment_due(1_000, 0), 1_000);
    let offer = plan_money_loan_offer(
        &loan_policy(), 1, 10, "lender", "borrower", 200, None, None, 1_000, NOW,
    )
    .unwrap();
    assert_eq!(offer.repayment_mana, 200);
    assert_eq!(offer.expires_at, NOW + 30 * SECOND);
    assert_eq!(offer.due_at, NOW + 86_400 * SECOND);
}

#[test]
fn loan_offers_are_refused_for_each_rule() {
    let policy = loan_policy();
    let err = plan_money_loan_offer(&policy, 1, 60, "a", "a", 10, None, None, 100, NOW).unwrap_err();
    assert!(matches!(err, AppError::Validation(ref m) if m == "you cannot create a loan with yourself"));
    let err = plan_money_loan_offer(&policy, 50, 60, "a", "b", 10, None, None, 100, NOW).unwrap_err();
    assert!(matches!(err, AppError::Validation(ref m) if m == "loan principal is too small"));
    let err = plan_money_loan_offer(&policy, 1, 60, "a", "b", 10, Some(3_000), None, 100, NOW).unwrap_err();
    assert!(matches!(err, AppError::Validation(ref m) if m == "interest_bps must be between 0 and 2500"));
    let err = plan_money_loan_offer(&policy, 1, 60, "a", "b", 10, None, Some(0), 100, NOW).unwrap_err();
    assert!(matches!(err, AppError::Validation(ref m) if m == "loan duration must be between 1 and 2592000 seconds"));
    let err = plan_money_loan_offer(&policy, 1, 60, "a", "b", 1_000, None, None, 100, NOW).unwrap_err();
    assert!(matches!(err, AppError::Conflict(ref m) if m == "lender does not currently have enough balance"));
    let mut closed = loan_policy();
    closed.allow_money_loans = false;
    let err = plan_money_loan_offer(&closed, 1, 60, "a", "b", 10, None, None, 100, NOW).unwrap_err();
    assert!(matches!(err, AppError::Conflict(ref m) if m == "money loans are disabled by server policy"));
    let mut no_interest = loan_policy();
    no_interest.allow_interest = false;
    let err = normalize_interest_bps(&no_interest, Some(5)).unwrap_err();
    assert!(matches!(err, AppError::Conflict(ref m) if m == "interest is disabled by server policy"));
    assert_eq!(normalize_duration(&loan_policy(), Some(60)).unwrap(), 60);
}

#[test]
fn acceptance_requires_a_live_offer_addressed_to_the_borrower() {
    let loan = offered_loan("pending");
    let err = plan_loan_acceptance(&loan, "someone", NOW, STARTING_BALANCE).unwrap_err();
    assert!(matches!(err, AppError::Conflict(ref m) if m == "that loan offer is not addressed to you"));
    let err = plan_loan_acceptance(&loan, "bot", NOW + 61 * SECOND, STARTING_BALANCE).unwrap_err();
    assert!(matches!(err, AppError::Conflict(ref m) if m == "that loan offer already expired"));
    let err = plan_loan_acceptance(&loan, "bot", NOW, 10).unwrap_err();
    assert!(matches!(err, AppError::Conflict(ref m) if m == "lender no longer has enough balance"));
    let declined = offered_loan("declined");
    let err = check_loan_decline(&declined, "bot").unwrap_err();
    assert!(matches!(err, AppError::Conflict(ref m) if m == "loan offer #1 is already declined"));
    assert!(check_loan_decline(&loan, "bot").is_ok());
}

#[test]
fn repayment_pays_down_what_is_owed() {
    let loan = offered_loan("active");
    match plan_repayment(&loan, "bot", 0, Some(50), 1_000, true).unwrap() {
        LoanRepayment::Money { payment_mana, remaining_mana } => {
            assert_eq!(payment_mana, 50);
            assert_eq!(remaining_mana, 1_000);
        }
        LoanRepayment::Shares { .. } => panic!("money repayment expected"),
    }
    match plan_repayment(&loan, "bot", 1_000, Some(500), 1_000, true).unwrap() {
        LoanRepayment::Money { remaining_mana, .. } => assert_eq!(remaining_mana, 0),
        LoanRepayment::Shares { .. } => panic!("money repayment expected"),
    }
    let err = plan_repayment(&loan, "bot", 0, Some(50), 1_000, false).unwrap_err();
    assert!(matches!(err, AppError::Conflict(ref m) if m == "partial repayment is disabled by server policy"));
    let err = plan_repayment(&loan, "lender", 0, Some(50), 1_000, true).unwrap_err();
    assert!(matches!(err, AppError::Conflict(ref m) if m == "only the borrower can repay that loan"));
    let err = plan_repayment(&loan, "bot", 0, None, 1_000, true).unwrap_err();
    assert!(matches!(err, AppError::Validation(ref m) if m == "money repayment requires `amount_mana`"));
    let err = plan_repayment(&loan, "bot", 0, Some(2_000), 1_000, true).unwrap_err();
    assert!(matches!(err, AppError::Conflict(ref m) if m == "borrower does not have enough balance"));
}

#[test]
fn automatic_payments_respect_partial_policy() {
    assert_eq!(auto_repay_payment(true, 300, 1_000), 300);
    assert_eq!(auto_repay_payment(false, 300, 1_000), 0);
    assert_eq!(auto_repay_payment(false, 3_000, 1_000), 1_000);
    let loans = vec![
        DueMoneyLoan { loan_id: 1, asset_type: "money".to_string(), repayment_mana: Some(700), already_repaid_mana: 0 },
        DueMoneyLoan { loan_id: 2, asset_type: "shares".to_string(), repayment_mana: None, already_repaid_mana: 0 },
        DueMoneyLoan { loan_id: 3, asset_type: "money".to_string(), repayment_mana: Some(700), already_repaid_mana: 200 },
    ];
    let (payments, summary) = plan_auto_repayments(&loans, 1_000, true);
    assert_eq!(payments.len(), 2);
    assert_eq!(payments[0].payment_mana, 700);
    assert_eq!(payments[1].payment_mana, 300);
    assert_eq!(summary.total_paid_mana, 1_000);
    assert_eq!(summary.loan_ids, vec![1, 3]);
}

#[test]
fn bot_accepts_only_cheap_long_money_loans() {
    let created = "2026-06-01T00:00:00+00:00";
    let due = "2026-06-01T02:00:00+00:00";
    assert_eq!(loan_auto_acceptable("money", 400, created, due, 500, 3_600).unwrap(), true);
    assert_eq!(loan_auto_acceptable("money", 600, created, due, 500, 3_600).unwrap(), false);
    assert_eq!(loan_auto_acceptable("shares", 0, created, due, 500, 3_600).unwrap(), false);
    assert_eq!(loan_auto_acceptable("money", 0, created, due, 500, 10_000).unwrap(), false);
    let err = loan_auto_acceptable("money", 0, "yesterday", due, 500, 3_600).unwrap_err();
    assert!(matches!(err, AppError::Other(ref m) if m == "invalid RFC3339 timestamp: yesterday"));
    assert_eq!(loan_direction("a", "a"), "lent");
    assert_eq!(loan_direction("a", "b"), "borrowed");
}

#[test]
fn donations_move_exactly_the_amount() {
    assert_eq!(plan_money_donation(true, 1, "a", "b", 40, 100).unwrap(), 40);
    let err = plan_money_donation(true, 1, "a", "b", 400, 100).unwrap_err();
    assert!(matches!(err, AppError::Conflict(ref m) if m == "you do not have enough balance for that donation"));
    let err = plan_money_donation(true, 5, "a", "b", 4, 100).unwrap_err();
    assert!(matches!(err, AppError::Validation(ref m) if m == "money donations must be at least 5"));
    let err = plan_money_donation(false, 1, "a", "b", 4, 100).unwrap_err();
    assert!(matches!(err, AppError::Conflict(ref m) if m == "money donations are disabled by server policy"));
    let err = plan_money_donation(true, 1, "a", "a", 4, 100).unwrap_err();
    assert!(matches!(err, AppError::Validation(ref m) if m == "you cannot donate money to yourself"));
}

#[test]
fn loans_are_seen_only_by_their_server_and_repaid_only_while_active() {
    let loan = offered_loan("active");
    assert_eq!(loan_in_guild("guild-a", 1, Some(loan.clone()), "loan").unwrap().id, 1);
    for (guild, found) in [("guild-b", Some(loan.clone())), ("guild-a", None)] {
        match loan_in_guild(guild, 1, found, "loan") {
            Err(AppError::NotFound(m)) => assert_eq!(m, "loan 1 was not found"),
            other => panic!("unexpected {other:?}"),
        }
    }
    for status in ["pending", "declined", "expired", "repaid", "defaulted"] {
        match plan_repayment(&offered_loan(status), "bot", 0, Some(10), 1_000, true) {
            Err(AppError::Conflict(m)) => assert_eq!(m, format!("loan #1 is not active; current status is {status}")),
            other => panic!("unexpected {other:?}"),
        }
    }
}
