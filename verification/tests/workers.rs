use profit_rat::config::BotPolicyConfig;
use profit_rat::error::AppError;
use profit_rat::jobs::{
    announcement_channel, chore_round, defaulted_repayment_title, due_repayment_title, due_repayment_window,
    is_quiet_claim_failure, loan_ids_line, named_text_channel, next_behavior_step,
    repayment_announcement_guild, repayment_description, tracked_market_description,
    tracked_market_title, worker_period_seconds, BehaviorStep, ChannelInfo,
};
use profit_rat::market::{MarketResolutionAnnouncement, MarketStatus, MarketType};
use profit_rat::social::AutoRepaySummary;

fn bot(claim: bool, loans: bool, bonds: bool) -> BotPolicyConfig {
    BotPolicyConfig {
        auto_claim: claim,
        auto_accept_loans: loans,
        startup_announcement_channel_name: "bots".to_string(),
        startup_announcement_fallback_channel_name: "general".to_string(),
        max_loan_interest_bps: 500,
        min_loan_duration_seconds: 3_600,
        auto_buy_bonds: bonds,
        min_bond_yield_bps: 100,
        max_bond_yield_bps: 500,
        min_bond_maturity_seconds: 3_600,
        max_bond_maturity_seconds: 86_400,
        max_bond_price_mana: 5_000,
        max_bond_purchase_quantity: 1,
        max_total_bond_exposure_mana: 20_000,
        worker_interval_seconds: 60,
    }
}

fn run(policy: &BotPolicyConfig) -> Vec<BehaviorStep> {
    let mut steps = Vec::new();
    let mut done = None;
    loop {
        let next = next_behavior_step(policy, done);
        if next == BehaviorStep::Finished {
            return steps;
        }
        steps.push(next);
        done = Some(next);
    }
}

#[test]
fn chores_run_in_order_when_enabled() {
    assert_eq!(
        run(&bot(true, true, true)),
        vec![
            BehaviorStep::Claim,
            BehaviorStep::AcceptLoans,
            BehaviorStep::RepayDueLoans,
            BehaviorStep::RepayDefaultedLoans,
            BehaviorStep::BuyBonds
        ]
    );
    assert_eq!(
        run(&bot(false, false, false)),
        vec![BehaviorStep::RepayDueLoans, BehaviorStep::RepayDefaultedLoans]
    );
    assert_eq!(next_behavior_step(&bot(true, true, true), Some(BehaviorStep::Finished)), BehaviorStep::Finished);
}

#[test]
fn worker_periods_have_floors() {
    assert_eq!(worker_period_seconds(120, 30), 120);
    assert_eq!(worker_period_seconds(5, 30), 30);
    assert_eq!(worker_period_seconds(-4, 15), 15);
    assert_eq!(due_repayment_window(60), 65);
}

#[test]
fn repayment_announcements() {
    let summary = AutoRepaySummary { repaid_loans: 2, total_paid_mana: 1_100, loan_ids: vec![3, 8] };
    assert_eq!(repayment_announcement_guild(&summary, "123"), Some(123));
    assert_eq!(repayment_announcement_guild(&summary, "guild-a"), None);
    let nothing = AutoRepaySummary { repaid_loans: 0, total_paid_mana: 0, loan_ids: vec![] };
    assert_eq!(repayment_announcement_guild(&nothing, "123"), None);
    assert_eq!(loan_ids_line(&vec![3, 8]), "#3, #8");
    assert_eq!(
        repayment_description(&summary, "**1,100 mana**"),
        "**Loans repaid:** `2`\n**Loan IDs:** #3, #8\n**Total paid:** **1,100 mana**"
    );
    assert_eq!(due_repayment_title(), "🤝 Rat Repaid Loans");
    assert_eq!(defaulted_repayment_title(), "💸 Rat Cleared Defaulted Loans");
    assert!(is_quiet_claim_failure(&AppError::Conflict("cooldown".to_string())));
    assert!(!is_quiet_claim_failure(&AppError::Validation("x".to_string())));
}

#[test]
fn tracked_market_announcements() {
    let a = MarketResolutionAnnouncement {
        channel_id: 1,
        market_id: 7,
        question: "Rain?".to_string(),
        status: MarketStatus::Settled,
        market_type: MarketType::Manifold,
        winning_option: Some("YES".to_string()),
        total_payout: 40,
        external_url: Some("https://m.example/rain".to_string()),
    };
    assert_eq!(tracked_market_title(MarketStatus::Settled, 7), "🔔 Tracked Market Settled #7");
    assert_eq!(tracked_market_title(MarketStatus::Closed, 7), "🔄 Tracked Market Update #7");
    assert_eq!(
        tracked_market_description(&a, "**40 mana**"),
        "🛰️ **Rain?**\n**Market:** #7\n**Status:** 💸 **Settled**\n**Winning option:** 🟢 **YES**\n**Total payout:** **40 mana**\n**Source:** https://m.example/rain"
    );
}

#[test]
fn announcement_channels_are_chosen_by_name() {
    let channels = vec![
        ChannelInfo { id: 1, is_text: false, name: "bots".to_string() },
        ChannelInfo { id: 2, is_text: true, name: "General".to_string() },
        ChannelInfo { id: 3, is_text: true, name: "Bots".to_string() },
    ];
    assert_eq!(named_text_channel(&channels, " bots "), Some(3));
    assert_eq!(named_text_channel(&channels, "general"), Some(2));
    assert_eq!(named_text_channel(&channels, "   "), None);
    assert_eq!(named_text_channel(&channels, "news"), None);
    assert_eq!(announcement_channel(None, Some(2), Some(9)), Some(2));
    assert_eq!(announcement_channel(None, None, Some(9)), Some(9));
}

#[test]
fn each_round_claims_first_and_always_repays() {
    assert_eq!(
        chore_round(&bot(true, true, true)),
        vec![
            BehaviorStep::Claim,
            BehaviorStep::AcceptLoans,
            BehaviorStep::RepayDueLoans,
            BehaviorStep::RepayDefaultedLoans,
            BehaviorStep::BuyBonds,
        ]
    );
    assert_eq!(
        chore_round(&bot(false, false, false)),
        vec![BehaviorStep::RepayDueLoans, BehaviorStep::RepayDefaultedLoans]
    );
    for (c, l, b) in [(true, false, true), (false, true, false)] {
        assert_eq!(chore_round(&bot(c, l, b)), run(&bot(c, l, b)));
    }
}
