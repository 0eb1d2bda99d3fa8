use profit_rat::error::AppError;
use profit_rat::manifold::{
    classify_resolution, market_api_url, market_reference, outcome_kind, snapshot_status,
    ManifoldAnswerRef, MarketReference, OutcomeKind,
};
use profit_rat::market::{
    find_option_index, market_not_found, validate_market_request, ExternalMarketStatus,
    ExternalResolution, MarketStatus, MarketType,
};
use profit_rat::resolution::{
    check_add_resolver, check_native_resolution, check_remove_resolver, external_settlement,
    market_choice_label, market_status_filter, plan_external_settlement, plan_native_resolution,
    plan_refund_credits, plan_reversal, plan_winner_credits, resolution_announcement,
    reversal_note, winning_option_label, ExternalSettlement, OptionRef, PolledMarket,
    ResolutionChoice, ResolutionEvent, ResolvableMarket, SettlementPosition,
};
use profit_rat::trading::{
    check_buy, check_sell, check_share_offer_market, check_share_offer_terms,
    plan_share_offer_acceptance, share_offer_choice_label, share_offer_expiry, snapshot_is_stale,
    BuyRequest, ShareOfferRecord,
};

const SECOND: i128 = 1_000_000_000;

fn native_market(status: MarketStatus, revision: i64) -> ResolvableMarket {
    ResolvableMarket {
        id: 5,
        guild_id: "guild-a".to_string(),
        creator_discord_user_id: "creator".to_string(),
        market_type: MarketType::Native,
        status,
        resolution_revision: revision,
        resolved_option_id: None,
    }
}

fn options() -> Vec<OptionRef> {
    vec![
        OptionRef { id: 11, label: "YES".to_string(), external_option_id: Some("a1".to_string()) },
        OptionRef { id: 12, label: "NO".to_string(), external_option_id: Some("a2".to_string()) },
    ]
}

fn position(user: &str, option_id: i64, payout: i64, spent: i64, received: i64) -> SettlementPosition {
    SettlementPosition {
        discord_user_id: user.to_string(),
        option_id,
        payout_if_wins: payout,
        total_spent_mana: spent,
        total_received_mana: received,
    }
}

fn positions() -> Vec<SettlementPosition> {
    vec![
        position("ann", 11, 30, 20, 0),
        position("bob", 12, 50, 40, 10),
        position("ann", 12, 5, 7, 0),
        position("cat", 11, 12, 5, 9),
    ]
}

#[test]
fn winner_resolution_pays_the_winning_holders() {
    let plan = plan_native_resolution(
        &native_market(MarketStatus::Open, 0),
        "guild-a",
        "creator",
        false,
        &options(),
        &ResolutionChoice::Winner("yes".to_string()),
        &positions(),
        false,
    )
    .unwrap();
    assert_eq!(plan.new_status, MarketStatus::Settled);
    assert_eq!(plan.new_option_id, Some(11));
    assert_eq!(plan.new_revision, 1);
    assert_eq!(plan.total_amount, 42);
    assert_eq!(plan.credits.len(), 2);
    assert_eq!(plan.credits[0].discord_user_id, "ann");
    assert_eq!(plan.credits[1].amount_mana, 12);
    assert_eq!(plan.note, "winner=YES");
    assert_eq!(plan.action_type, "resolve_winner");
}

#[test]
fn refund_resolution_returns_net_spending_per_member() {
    let plan = plan_native_resolution(
        &native_market(MarketStatus::Settled, 1),
        "guild-a",
        "delegate",
        true,
        &options(),
        &ResolutionChoice::RefundNa,
        &positions(),
        true,
    )
    .unwrap();
    assert_eq!(plan.new_status, MarketStatus::Cancelled);
    assert_eq!(plan.new_option_id, None);
    assert_eq!(plan.new_revision, 2);
    assert_eq!(plan.action_type, "edit_refund_na");
    assert_eq!(plan.note, "resolved as N/A with refunds");
    assert_eq!(plan.total_amount, 57);
    assert_eq!(plan.credits.len(), 2);
    assert_eq!((plan.credits[0].discord_user_id.as_str(), plan.credits[0].amount_mana), ("ann", 27));
    assert_eq!((plan.credits[1].discord_user_id.as_str(), plan.credits[1].amount_mana), ("bob", 30));
}

#[test]
fn resolution_is_refused_to_outsiders_and_at_the_wrong_time() {
    let opts = options();
    let pos = positions();
    let choice = ResolutionChoice::RefundNa;
    let refusal = |m: &ResolvableMarket, guild: &str, actor: &str, delegate: bool, edit: bool| {
        plan_native_resolution(m, guild, actor, delegate, &opts, &choice, &pos, edit).unwrap_err()
    };
    let open = native_market(MarketStatus::Open, 0);
    assert!(matches!(refusal(&open, "guild-b", "creator", false, false),
        AppError::NotFound(ref m) if m == "market 5 was not found in this server"));
    assert!(matches!(refusal(&open, "guild-a", "someone", false, false),
        AppError::Validation(ref m) if m == "only the market creator or a delegated market mod can resolve this market"));
    assert!(matches!(refusal(&open, "guild-a", "creator", false, true),
        AppError::Conflict(ref m) if m.starts_with("market is not resolved yet")));
    let done = native_market(MarketStatus::Cancelled, 1);
    assert!(matches!(refusal(&done, "guild-a", "creator", false, false),
        AppError::Conflict(ref m) if m.starts_with("market is already resolved")));
    let mut mirrored = native_market(MarketStatus::Open, 0);
    mirrored.market_type = MarketType::Manifold;
    assert!(matches!(refusal(&mirrored, "guild-a", "creator", false, false),
        AppError::Validation(ref m) if m == "use `/msync` for manifold-tracked markets"));
    let err = plan_native_resolution(&open, "guild-a", "creator", false, &opts,
        &ResolutionChoice::Winner("maybe".to_string()), &pos, false).unwrap_err();
    assert!(matches!(err, AppError::NotFound(ref m) if m == "option `maybe` was not found"));
    assert!(check_native_resolution(&open, "guild-a", "creator", false, false).is_ok());
}

#[test]
fn credits_helpers_match_the_plans() {
    let (credits, total) = plan_winner_credits(&positions(), 12);
    assert_eq!(total, 55);
    assert_eq!(credits.len(), 2);
    let (refunds, refund_total) = plan_refund_credits(&vec![position("x", 1, 0, 5, 9)]);
    assert!(refunds.is_empty());
    assert_eq!(refund_total, 0);
}

#[test]
fn reversal_negates_each_event() {
    let events = vec![
        ResolutionEvent { discord_user_id: "ann".to_string(), related_option_id: Some(11), amount_mana: 30 },
        ResolutionEvent { discord_user_id: "bob".to_string(), related_option_id: None, amount_mana: -4 },
    ];
    let back = plan_reversal(&events);
    assert_eq!(back.len(), 2);
    assert_eq!(back[0].amount_mana, -30);
    assert_eq!(back[0].related_option_id, Some(11));
    assert_eq!(back[1].amount_mana, 4);
    assert_eq!(back[1].discord_user_id, "bob");
    assert_eq!(reversal_note(3), "reversed revision 3");
}

#[test]
fn manifold_resolutions_settle_mirrored_markets() {
    let opts = options();
    assert_eq!(external_settlement(&None, &opts), ExternalSettlement::StaysOpen);
    assert_eq!(external_settlement(&Some(ExternalResolution::BinaryNo), &opts), ExternalSettlement::PayWinner(12));
    assert_eq!(
        external_settlement(&Some(ExternalResolution::MultipleChoice { winning_outcome_id: "a1".to_string() }), &opts),
        ExternalSettlement::PayWinner(11)
    );
    assert_eq!(
        external_settlement(&Some(ExternalResolution::MultipleChoice { winning_outcome_id: "zz".to_string() }), &opts),
        ExternalSettlement::Cancel
    );
    assert_eq!(external_settlement(&Some(ExternalResolution::Cancelled), &opts), ExternalSettlement::Cancel);
    assert_eq!(
        external_settlement(&Some(ExternalResolution::Ambiguous("?".to_string())), &opts),
        ExternalSettlement::NeedsManualReview
    );
    let plan = plan_external_settlement(&Some(ExternalResolution::BinaryYes), &opts, &positions());
    assert_eq!(plan.status, MarketStatus::Settled);
    assert_eq!(plan.winner_option_id, Some(11));
    assert_eq!(plan.total_paid_mana, 42);
    let plan = plan_external_settlement(&Some(ExternalResolution::Cancelled), &opts, &positions());
    assert_eq!(plan.status, MarketStatus::Cancelled);
    assert!(plan.credits.is_empty());
}

#[test]
fn resolver_delegation_is_for_the_creator_only() {
    let m = native_market(MarketStatus::Open, 0);
    assert!(check_add_resolver(&m, "guild-a", "creator", "mod").is_ok());
    assert!(matches!(check_add_resolver(&m, "guild-a", "mod", "x").unwrap_err(),
        AppError::Validation(ref s) if s == "only the market creator can manage resolver permissions"));
    assert!(matches!(check_add_resolver(&m, "guild-a", "creator", "creator").unwrap_err(),
        AppError::Validation(ref s) if s == "the market creator already has resolve power"));
    assert!(matches!(check_remove_resolver(&m, "guild-a", "creator", "creator").unwrap_err(),
        AppError::Validation(ref s) if s == "the market creator's own resolve power cannot be removed"));
    let mut mirrored = m.clone();
    mirrored.market_type = MarketType::Manifold;
    assert!(matches!(check_add_resolver(&mirrored, "guild-a", "creator", "mod").unwrap_err(),
        AppError::Validation(ref s) if s == "resolver delegation is only used for native markets"));
}

#[test]
fn announcements_report_settled_markets() {
    let market = PolledMarket {
        id: 5,
        channel_id: "123".to_string(),
        question: "Will it rain?".to_string(),
        status: MarketStatus::Settled,
        market_type: MarketType::Manifold,
        resolved_option_id: Some(12),
        external_url: None,
    };
    let a = resolution_announcement(market.clone(), &options(), 99).unwrap().unwrap();
    assert_eq!(a.channel_id, 123);
    assert_eq!(a.total_payout, 99);
    assert_eq!(a.winning_option.as_deref(), Some("NO"));
    let mut open = market.clone();
    open.status = MarketStatus::Open;
    assert!(resolution_announcement(open, &options(), 99).unwrap().is_none());
    let mut broken = market.clone();
    broken.channel_id = "general".to_string();
    assert!(matches!(resolution_announcement(broken, &options(), 0).unwrap_err(),
        AppError::External(ref s) if s == "invalid channel id stored for market 5"));
    assert_eq!(winning_option_label(Some(99), &options()), None);
    assert_eq!(market_status_filter(None).as_deref(), Some("open"));
    assert_eq!(market_status_filter(Some("all".to_string())), None);
    assert_eq!(market_choice_label(5, "native", "open", "Q?"), "#5 [native|open] Q?");
}

fn labels() -> Vec<String> {
    vec!["Yes".to_string(), "No".to_string()]
}

#[test]
fn trades_need_an_open_market_and_a_known_option() {
    let buy = BuyRequest {
        user_id: "u".to_string(),
        display_name: "U".to_string(),
        market_id: 1,
        option_label: "NO".to_string(),
        amount_mana: 10,
    };
    assert_eq!(check_buy(&buy, MarketStatus::Open, &labels(), 10).unwrap(), 1);
    assert!(matches!(check_buy(&buy, MarketStatus::Closed, &labels(), 10).unwrap_err(),
        AppError::Conflict(ref s) if s == "market is not open for trading"));
    assert!(matches!(check_buy(&buy, MarketStatus::Open, &labels(), 9).unwrap_err(),
        AppError::Conflict(ref s) if s == "insufficient fake mana balance"));
    let mut odd = buy.clone();
    odd.option_label = "maybe".to_string();
    assert!(matches!(check_buy(&odd, MarketStatus::Open, &labels(), 10).unwrap_err(),
        AppError::NotFound(ref s) if s == "option `maybe` was not found"));
    odd.amount_mana = 0;
    assert!(matches!(check_buy(&odd, MarketStatus::Open, &labels(), 10).unwrap_err(),
        AppError::Validation(ref s) if s == "buy amount must be positive"));
    assert_eq!(check_sell(MarketStatus::Open, &labels(), "yes", true, true).unwrap(), 0);
    assert!(matches!(check_sell(MarketStatus::Open, &labels(), "yes", true, false).unwrap_err(),
        AppError::Conflict(ref s) if s == "cannot sell more shares than you hold"));
    assert!(matches!(check_sell(MarketStatus::Open, &labels(), "yes", false, true).unwrap_err(),
        AppError::Validation(ref s) if s == "sell shares must be positive"));
    assert!(matches!(check_share_offer_terms("a", "a", true, 5).unwrap_err(),
        AppError::Validation(ref s) if s == "you cannot sell shares to yourself"));
    assert!(matches!(check_share_offer_terms("a", "b", true, 0).unwrap_err(),
        AppError::Validation(ref s) if s == "offer price must be positive"));
    assert!(matches!(check_share_offer_market(MarketStatus::Open, &labels(), "no", false).unwrap_err(),
        AppError::Conflict(ref s) if s == "you cannot offer more shares than you currently hold"));
    assert_eq!(share_offer_expiry(0, 0), SECOND);
    assert_eq!(share_offer_expiry(0, 60), 60 * SECOND);
    assert_eq!(find_option_index(&labels(), "NO").unwrap(), 1);
}

fn offer(status: &str) -> ShareOfferRecord {
    ShareOfferRecord {
        id: 4,
        market_id: 1,
        option_id: 11,
        seller_discord_user_id: "seller".to_string(),
        buyer_discord_user_id: "buyer".to_string(),
        price_mana: 300,
        status: status.to_string(),
        expires_at: "2026-06-01T00:01:00+00:00".to_string(),
    }
}

#[test]
fn share_offer_acceptance_checks_everything_in_order() {
    let before = profit_rat::clock::parse_rfc3339_utc("2026-06-01T00:00:00+00:00").unwrap();
    let p = offer("pending");
    let lapses = plan_share_offer_acceptance(&p, "buyer", before, Some(MarketStatus::Open), true, 300).unwrap();
    assert_eq!(lapses, before + 60 * SECOND);
    let err = |o: &ShareOfferRecord, who: &str, now: i128, st: Option<MarketStatus>, holds: bool, bal: i64| {
        plan_share_offer_acceptance(o, who, now, st, holds, bal).unwrap_err()
    };
    assert!(matches!(err(&offer("declined"), "buyer", before, Some(MarketStatus::Open), true, 300),
        AppError::Conflict(ref s) if s == "share offer #4 is already declined"));
    assert!(matches!(err(&p, "other", before, Some(MarketStatus::Open), true, 300),
        AppError::Conflict(ref s) if s == "that offer is not addressed to you"));
    assert!(matches!(err(&p, "buyer", before + 60 * SECOND, Some(MarketStatus::Open), true, 300),
        AppError::Conflict(ref s) if s == "that share offer already expired"));
    assert!(matches!(err(&p, "buyer", before, None, true, 300),
        AppError::NotFound(ref s) if s == "market 1 was not found"));
    assert!(matches!(err(&p, "buyer", before, Some(MarketStatus::Closed), true, 300),
        AppError::Conflict(ref s) if s == "market is no longer open for share transfers"));
    assert!(matches!(err(&p, "buyer", before, Some(MarketStatus::Open), false, 300),
        AppError::Conflict(ref s) if s == "seller no longer holds enough shares for that offer"));
    assert!(matches!(err(&p, "buyer", before, Some(MarketStatus::Open), true, 299),
        AppError::Conflict(ref s) if s == "you do not have enough fake mana to accept that offer"));
    assert!(matches!(market_not_found(9), AppError::NotFound(ref s) if s == "market 9 was not found"));
    assert_eq!(
        share_offer_choice_label(4, "Will the rat economy survive until the end of the year?", "YES", "Seller", 300),
        "#4 Will the rat economy survive until t... YES from Seller for 300"
    );
}

#[test]
fn snapshots_go_stale_after_their_ttl() {
    let t = profit_rat::clock::parse_rfc3339_utc("2026-06-01T00:00:00+00:00").unwrap();
    assert!(snapshot_is_stale(None, t, 60));
    assert!(snapshot_is_stale(Some("garbage"), t, 60));
    assert!(!snapshot_is_stale(Some("2026-06-01T00:00:00+00:00"), t + 59 * SECOND, 60));
    assert!(snapshot_is_stale(Some("2026-06-01T00:00:00+00:00"), t + 60 * SECOND, 60));
}

#[test]
fn manifold_links_name_markets() {
    match market_reference("https://manifold.markets/rat/will-it-rain").unwrap() {
        MarketReference::Slug(s) => assert_eq!(s, "will-it-rain"),
        other => panic!("unexpected {other:?}"),
    }
    match market_reference("rat/will-it-snow").unwrap() {
        MarketReference::Slug(s) => assert_eq!(s, "will-it-snow"),
        other => panic!("unexpected {other:?}"),
    }
    match market_reference("abc123").unwrap() {
        MarketReference::Id(s) => assert_eq!(s, "abc123"),
        other => panic!("unexpected {other:?}"),
    }
    assert!(matches!(market_reference("https://").unwrap_err(), AppError::Url(ref s) if s == "empty host"));
    assert_eq!(
        market_api_url("https://api.manifold.markets/v0//", &MarketReference::Id("x".to_string())),
        "https://api.manifold.markets/v0/market/x"
    );
    assert_eq!(
        market_api_url("https://api.manifold.markets/v0", &MarketReference::Slug("s".to_string())),
        "https://api.manifold.markets/v0/slug/s"
    );
}

#[test]
fn manifold_resolutions_are_classified() {
    let answers = vec![
        ManifoldAnswerRef { id: "a1".to_string(), number: 0 },
        ManifoldAnswerRef { id: "a2".to_string(), number: 1 },
    ];
    assert!(matches!(classify_resolution(Some("YES"), None), Some(ExternalResolution::BinaryYes)));
    assert!(matches!(classify_resolution(Some("CANCEL"), None), Some(ExternalResolution::Cancelled)));
    assert!(classify_resolution(None, Some(&answers)).is_none());
    match classify_resolution(Some("1"), Some(&answers)) {
        Some(ExternalResolution::MultipleChoice { winning_outcome_id }) => assert_eq!(winning_outcome_id, "a2"),
        other => panic!("unexpected {other:?}"),
    }
    match classify_resolution(Some("a1"), Some(&answers)) {
        Some(ExternalResolution::MultipleChoice { winning_outcome_id }) => assert_eq!(winning_outcome_id, "a1"),
        other => panic!("unexpected {other:?}"),
    }
    match classify_resolution(Some("MKT"), Some(&answers)) {
        Some(ExternalResolution::Ambiguous(s)) => assert_eq!(s, "MKT"),
        other => panic!("unexpected {other:?}"),
    }
    assert_eq!(snapshot_status(None, &None), ExternalMarketStatus::Open);
    assert_eq!(snapshot_status(Some(true), &None), ExternalMarketStatus::Resolved);
    assert_eq!(outcome_kind("BINARY", true).unwrap(), OutcomeKind::Binary);
    assert_eq!(outcome_kind("DEPENDENT_MULTIPLE_CHOICE", false).unwrap(), OutcomeKind::MultipleChoice);
    assert!(matches!(outcome_kind("BINARY", false).unwrap_err(),
        AppError::External(ref s) if s == "manifold binary market did not include probability"));
    assert!(matches!(outcome_kind("NUMERIC", true).unwrap_err(),
        AppError::External(ref s) if s == "unsupported manifold market type `NUMERIC`"));
}

#[test]
fn market_requests_are_validated() {
    let two = vec!["A".to_string(), "B".to_string()];
    assert!(validate_market_request("Will it rain?", &two).is_ok());
    assert!(matches!(validate_market_request("  ", &two).unwrap_err(),
        AppError::Validation(ref s) if s == "market question cannot be empty"));
    assert!(matches!(validate_market_request("Q", &vec!["A".to_string()]).unwrap_err(),
        AppError::Validation(ref s) if s == "markets must have between 2 and 10 options"));
    assert!(matches!(validate_market_request("Q", &vec!["A".to_string(), " ".to_string()]).unwrap_err(),
        AppError::Validation(ref s) if s == "market options cannot be empty"));
    assert!(matches!(validate_market_request(&"x".repeat(201), &two).unwrap_err(),
        AppError::Validation(ref s) if s == "market question must be 200 characters or fewer"));
    assert_eq!(MarketType::from_str("manifold"), MarketType::Manifold);
    assert_eq!(MarketStatus::from_str("needs_manual_review").as_str(), "needs_manual_review");
    assert_eq!(MarketStatus::from_str("bogus"), MarketStatus::Open);
}

#[test]
fn editing_a_resolution_pays_only_the_new_outcome() {
    let mut balances = std::collections::BTreeMap::from([
        ("ann".to_string(), 100i64),
        ("bob".to_string(), 200i64),
        ("cat".to_string(), 300i64),
    ]);
    let before = balances.clone();
    let first = plan_native_resolution(&native_market(MarketStatus::Open, 0), "guild-a", "creator", false,
        &options(), &ResolutionChoice::Winner("YES".to_string()), &positions(), false).unwrap();
    for c in &first.credits {
        *balances.get_mut(&c.discord_user_id).unwrap() += c.amount_mana;
    }
    let events = first
        .credits
        .iter()
        .map(|c| ResolutionEvent { discord_user_id: c.discord_user_id.clone(), related_option_id: Some(11), amount_mana: c.amount_mana })
        .collect::<Vec<_>>();
    for e in plan_reversal(&events) {
        *balances.get_mut(&e.discord_user_id).unwrap() += e.amount_mana;
    }
    assert_eq!(balances, before);
    let edit = plan_native_resolution(&native_market(MarketStatus::Settled, first.new_revision), "guild-a", "creator",
        false, &options(), &ResolutionChoice::Winner("NO".to_string()), &positions(), true).unwrap();
    for c in &edit.credits {
        *balances.get_mut(&c.discord_user_id).unwrap() += c.amount_mana;
    }
    assert_eq!(edit.new_revision, 2);
    assert_eq!(edit.new_option_id, Some(12));
    assert_eq!(edit.total_amount, 55);
    assert_eq!(balances["ann"], 105);
    assert_eq!(balances["bob"], 250);
    assert_eq!(balances["cat"], 300);
}
