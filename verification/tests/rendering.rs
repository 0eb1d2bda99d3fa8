use profit_rat::config::{
    env_i64, normalize_for_sqlite_url, resolve_currency, resolve_discord_token, resolve_loan_policy,
    resolve_manifold, sqlite_url_for, validate_for_runtime, CurrencyConfig, CurrencyPosition,
    NegativeStyle, PartialCurrencyConfig, PartialLoanPolicyConfig, PartialManifoldConfig,
};
use profit_rat::config::{
    load_settings, EnvironmentSettings, PartialSettings, resolve_bond_policy, resolve_bot_policy, resolve_economy_policy, resolve_transfer_policy,
    PartialBondPolicyConfig, PartialBotPolicyConfig, PartialPolicyConfig, PartialTransferPolicyConfig,
};
use profit_rat::error::AppError;
use profit_rat::market::{MarketStatus, MarketType};
use profit_rat::ui::{
    currency_mark, discord_timestamp, leaderboard_line, leaderboard_medal, market_color, market_emoji,
    market_id_line, money, money_plain, option_emoji, parse_holder_metric, status_badge, type_badge,
    ui_safe_trim, with_separator, HolderMetric, LeaderboardEntry,
};

fn currency() -> CurrencyConfig {
    CurrencyConfig {
        code: "MANA".to_string(),
        display_name: "Fake Mana".to_string(),
        singular: "mana".to_string(),
        plural: "mana".to_string(),
        symbol: "$".to_string(),
        textual_symbol: "mana".to_string(),
        emoji: "💰".to_string(),
        custom_emoji: String::new(),
        image_symbol_path: String::new(),
        image_symbol_url: String::new(),
        position: CurrencyPosition::Suffix,
        space_between: true,
        show_symbol: false,
        show_textual_symbol: true,
        show_code: false,
        use_emoji_in_embeds: true,
        use_emoji_in_plaintext: false,
        decimals: 0,
        thousands_separator: ",".to_string(),
        negative_style: NegativeStyle::Minus,
        short_suffixes: false,
    }
}

#[test]
fn amounts_are_grouped_and_labelled() {
    let c = currency();
    assert_eq!(money_plain(&c, 1_234_567, true, "1.2m"), "💰 1,234,567 mana");
    assert_eq!(money_plain(&c, 1_234_567, false, "1.2m"), "1,234,567 mana");
    assert_eq!(money(&c, -5, "5"), "**💰 -5 mana**");
    let mut p = currency();
    p.negative_style = NegativeStyle::Parens;
    p.show_symbol = true;
    p.position = CurrencyPosition::Prefix;
    p.space_between = false;
    assert_eq!(money_plain(&p, -1_000, false, "1.0k"), "$(1,000)");
    let mut s = currency();
    s.short_suffixes = true;
    s.show_code = true;
    s.custom_emoji = ":rat:".to_string();
    assert_eq!(money_plain(&s, 1_500, true, "1.5k"), ":rat: 1.5k MANA");
    let mut one = currency();
    one.show_textual_symbol = false;
    one.singular = "coin".to_string();
    one.plural = "coins".to_string();
    assert_eq!(money_plain(&one, 1, false, "1"), "1 coin");
    assert_eq!(money_plain(&one, 2, false, "2"), "2 coins");
    assert_eq!(currency_mark(&s), ":rat:");
}

#[test]
fn numbers_and_badges_render() {
    assert_eq!(with_separator(1_234_567, ","), "1,234,567");
    assert_eq!(with_separator(999, ","), "999");
    assert_eq!(with_separator(1_000, " "), "1 000");
    assert_eq!(with_separator(0, ","), "0");
    assert_eq!(market_id_line(42), "#42");
    assert_eq!(status_badge(MarketStatus::NeedsManualReview), "🟠 **Needs Review**");
    assert_eq!(type_badge(MarketType::Manifold), "🛰️ **Manifold Mirror**");
    assert_eq!(market_emoji(MarketType::Native), "📈");
    assert_eq!(option_emoji("yes"), "🟢");
    assert_eq!(option_emoji("No"), "🔴");
    assert_eq!(option_emoji("Maybe"), "🔹");
    assert_eq!(market_color(MarketType::Manifold, MarketStatus::Settled), (26, 188, 156));
    assert_eq!(market_color(MarketType::Native, MarketStatus::Open), (46, 204, 113));
    assert_eq!(discord_timestamp(1_700_000_000), "<t:1700000000:F> (<t:1700000000:R>)");
    assert_eq!(ui_safe_trim("abcdef", 3), "abc...");
    assert_eq!(ui_safe_trim("abc", 3), "abc");
}

#[test]
fn holder_metric_and_leaderboard() {
    assert_eq!(parse_holder_metric(None).unwrap(), HolderMetric::Shares);
    assert_eq!(parse_holder_metric(Some(" VALUE ")).unwrap(), HolderMetric::Value);
    assert!(matches!(parse_holder_metric(Some("cash")).unwrap_err(),
        AppError::Validation(ref s) if s == "metric must be either `shares` or `value`"));
    assert_eq!(HolderMetric::Value.label(), "value");
    assert_eq!(leaderboard_medal(0), "🥇");
    assert_eq!(leaderboard_medal(7), "🐀");
    let entry = LeaderboardEntry { discord_user_id: "u9".to_string(), display_name: None, balance_mana: 5 };
    assert_eq!(leaderboard_line(3, &entry, "**5 mana**"), "🐀 **4. u9** — **5 mana**");
}

#[test]
fn settings_merge_with_later_files_winning() {
    let base = PartialLoanPolicyConfig {
        allow_money_loans: Some(false),
        allow_share_loans: None,
        allow_partial_repayment: None,
        allow_early_repayment: None,
        allow_interest: None,
        default_interest_bps: Some(10),
        max_interest_bps: None,
        default_duration_seconds: None,
        max_duration_seconds: None,
        max_open_loans_per_user: None,
    };
    let mut local = PartialLoanPolicyConfig::empty();
    local.default_interest_bps = Some(20);
    let merged = base.merge(local);
    assert_eq!(merged.allow_money_loans, Some(false));
    assert_eq!(merged.default_interest_bps, Some(20));
    let policy = resolve_loan_policy(merged);
    assert!(!policy.allow_money_loans);
    assert!(policy.allow_share_loans);
    assert_eq!(policy.default_interest_bps, 20);
    assert_eq!(policy.max_interest_bps, 2_500);
    let manifold = resolve_manifold(
        PartialManifoldConfig { api_base_url: None, snapshot_ttl_seconds: None, poll_interval_seconds: Some(30) },
        Some("http://localhost".to_string()),
    );
    assert_eq!(manifold.api_base_url, "http://localhost");
    assert_eq!(manifold.poll_interval_seconds, 30);
    assert_eq!(manifold.snapshot_ttl_seconds, 60);
}

#[test]
fn currency_defaults_fill_gaps() {
    let empty = PartialCurrencyConfig {
        code: None,
        display_name: None,
        singular: None,
        plural: None,
        symbol: None,
        textual_symbol: None,
        emoji: None,
        custom_emoji: None,
        image_symbol_path: None,
        image_symbol_url: None,
        position: Some("prefix".to_string()),
        space_between: None,
        show_symbol: None,
        show_textual_symbol: None,
        show_code: None,
        use_emoji_in_embeds: None,
        use_emoji_in_plaintext: None,
        decimals: None,
        thousands_separator: None,
        negative_style: None,
        short_suffixes: None,
    };
    let c = resolve_currency(empty);
    assert_eq!(c.code, "MANA");
    assert_eq!(c.emoji, "💰");
    assert_eq!(c.position, CurrencyPosition::Prefix);
    assert_eq!(c.negative_style, NegativeStyle::Minus);
    assert!(c.short_suffixes);
    assert_eq!(c.thousands_separator, ",");
}

#[test]
fn environment_values_and_paths() {
    assert_eq!(env_i64("STARTING_BALANCE", None, 1_000).unwrap(), 1_000);
    assert_eq!(env_i64("STARTING_BALANCE", Some("250"), 1_000).unwrap(), 250);
    assert!(matches!(env_i64("STARTING_BALANCE", Some("lots"), 1_000).unwrap_err(),
        AppError::Config(ref s) if s == "failed to parse `STARTING_BALANCE` as i64"));
    assert_eq!(resolve_discord_token(Some("  ".to_string()), Some("abc".to_string())), "abc");
    assert_eq!(resolve_discord_token(None, None), "");
    assert!(matches!(validate_for_runtime(" ").unwrap_err(), AppError::MissingDiscordToken));
    assert!(validate_for_runtime("tok").is_ok());
    assert_eq!(normalize_for_sqlite_url("C:\\rat\\db.sqlite"), "C:/rat/db.sqlite");
    assert!(sqlite_url_for(".cache/discord-bot.sqlite").contains(".cache/discord-bot.sqlite"));
    assert_eq!(sqlite_url_for(".cache/discord-bot.sqlite"), "sqlite://.cache/discord-bot.sqlite");
}

fn economy(starting_balance: Option<i64>, claim_amount: Option<i64>, hourly_claim: Option<i64>) -> PartialPolicyConfig {
    PartialPolicyConfig {
        starting_balance,
        claim_amount,
        hourly_claim,
        claim_period_seconds: None,
        claim_cooldown_seconds: None,
        claim_period_name: None,
        share_offer_expiration_seconds: None,
        share_offer_cleanup_interval_seconds: None,
    }
}

#[test]
fn local_file_then_base_file_then_environment_then_default() {
    let base = economy(Some(5), None, Some(300));
    let local = economy(Some(7), None, None);
    let merged = base.merge(local);
    let rules = resolve_economy_policy(merged, Some("99"), Some("42"), None).unwrap();
    assert_eq!(rules.starting_balance, 7);
    assert_eq!(rules.claim_amount, 300);
    assert_eq!(rules.claim_period_seconds, 43_200);
    assert_eq!(rules.claim_period_name, "twice-daily login");
    assert_eq!(rules.share_offer_expiration_seconds, 60);
    assert_eq!(rules.share_offer_cleanup_interval_seconds, 15);
    let from_env = resolve_economy_policy(economy(None, None, None), Some("99"), Some("42"), Some("60")).unwrap();
    assert_eq!((from_env.starting_balance, from_env.claim_amount, from_env.claim_period_seconds), (99, 42, 60));
    let defaults = resolve_economy_policy(economy(None, None, None), None, None, None).unwrap();
    assert_eq!((defaults.starting_balance, defaults.claim_amount), (1_000, 10_000));
    match resolve_economy_policy(economy(None, None, None), None, Some("lots"), Some("soon")) {
        Err(AppError::Config(m)) => assert_eq!(m, "failed to parse `CLAIM_AMOUNT` as i64"),
        other => panic!("unexpected {other:?}"),
    }
    assert!(resolve_economy_policy(economy(Some(1), Some(2), None), Some("x"), Some("y"), None).is_ok());
}

#[test]
fn policy_tables_fill_their_defaults() {
    let transfers = PartialTransferPolicyConfig {
        allow_money_donations: None,
        allow_share_donations: Some(false),
        allow_money_offers: None,
        allow_share_offers: None,
        min_money_transfer: None,
        max_open_offers_per_user: Some(3),
    }
    .merge(PartialTransferPolicyConfig {
        allow_money_donations: Some(false),
        allow_share_donations: None,
        allow_money_offers: None,
        allow_share_offers: None,
        min_money_transfer: None,
        max_open_offers_per_user: None,
    });
    let t = resolve_transfer_policy(transfers);
    assert!(!t.allow_money_donations && !t.allow_share_donations && t.allow_money_offers && t.allow_share_offers);
    assert_eq!((t.min_money_transfer, t.max_open_offers_per_user), (1, 3));
    let bonds = resolve_bond_policy(PartialBondPolicyConfig {
        enabled: None,
        default_yield_period_seconds: None,
        max_yield_bps: Some(900),
        min_maturity_seconds: None,
        max_maturity_seconds: None,
        max_open_issuances_per_user: None,
        worker_interval_seconds: None,
    });
    assert!(bonds.enabled);
    assert_eq!((bonds.max_yield_bps, bonds.max_maturity_seconds, bonds.max_open_issuances_per_user), (900, 7_776_000, 10));
    let bot = resolve_bot_policy(PartialBotPolicyConfig {
        auto_claim: Some(false),
        auto_accept_loans: None,
        startup_announcement_channel_name: Some("news".to_string()),
        startup_announcement_fallback_channel_name: None,
        max_loan_interest_bps: None,
        min_loan_duration_seconds: None,
        auto_buy_bonds: None,
        min_bond_yield_bps: None,
        max_bond_yield_bps: None,
        min_bond_maturity_seconds: None,
        max_bond_maturity_seconds: None,
        max_bond_price_mana: None,
        max_bond_purchase_quantity: None,
        max_total_bond_exposure_mana: None,
        worker_interval_seconds: None,
    });
    assert!(!bot.auto_claim && bot.auto_accept_loans);
    assert_eq!(bot.startup_announcement_channel_name, "news");
    assert_eq!(bot.startup_announcement_fallback_channel_name, "general");
    assert_eq!((bot.max_bond_price_mana, bot.max_total_bond_exposure_mana), (5_000, 20_000));
}

fn no_settings() -> PartialSettings {
    PartialSettings {
        discord_token: None,
        cache_dir: None,
        database_url: None,
        policies: economy(None, None, None),
        transfers: PartialTransferPolicyConfig {
            allow_money_donations: None,
            allow_share_donations: None,
            allow_money_offers: None,
            allow_share_offers: None,
            min_money_transfer: None,
            max_open_offers_per_user: None,
        },
        loans: PartialLoanPolicyConfig::empty(),
        manifold: PartialManifoldConfig { api_base_url: None, snapshot_ttl_seconds: None, poll_interval_seconds: None },
        currency: resolve_currency_gaps(),
        bonds: PartialBondPolicyConfig {
            enabled: None,
            default_yield_period_seconds: None,
            max_yield_bps: None,
            min_maturity_seconds: None,
            max_maturity_seconds: None,
            max_open_issuances_per_user: None,
            worker_interval_seconds: None,
        },
        bot: PartialBotPolicyConfig {
            auto_claim: None,
            auto_accept_loans: None,
            startup_announcement_channel_name: None,
            startup_announcement_fallback_channel_name: None,
            max_loan_interest_bps: None,
            min_loan_duration_seconds: None,
            auto_buy_bonds: None,
            min_bond_yield_bps: None,
            max_bond_yield_bps: None,
            min_bond_maturity_seconds: None,
            max_bond_maturity_seconds: None,
            max_bond_price_mana: None,
            max_bond_purchase_quantity: None,
            max_total_bond_exposure_mana: None,
            worker_interval_seconds: None,
        },
    }
}

fn resolve_currency_gaps() -> PartialCurrencyConfig {
    PartialCurrencyConfig {
        code: None,
        display_name: None,
        singular: None,
        plural: None,
        symbol: None,
        textual_symbol: None,
        emoji: None,
        custom_emoji: None,
        image_symbol_path: None,
        image_symbol_url: None,
        position: None,
        space_between: None,
        show_symbol: None,
        show_textual_symbol: None,
        show_code: None,
        use_emoji_in_embeds: None,
        use_emoji_in_plaintext: None,
        decimals: None,
        thousands_separator: None,
        negative_style: None,
        short_suffixes: None,
    }
}

fn environment(starting_balance: Option<&str>) -> EnvironmentSettings {
    EnvironmentSettings {
        discord_token: Some("env-token".to_string()),
        cache_dir: None,
        database_url: None,
        manifold_api_base_url: None,
        starting_balance: starting_balance.map(str::to_string),
        claim_amount: None,
        claim_period_seconds: None,
    }
}

#[test]
fn local_file_overrides_base_file_in_the_whole_configuration() {
    let mut base = no_settings();
    base.policies.starting_balance = Some(5);
    base.cache_dir = Some("base-cache".to_string());
    base.bot.auto_claim = Some(false);
    base.loans.max_interest_bps = Some(100);
    let mut local = no_settings();
    local.policies.starting_balance = Some(7);
    local.discord_token = Some("local-token".to_string());
    local.loans.max_interest_bps = Some(200);
    let settings = load_settings(base, local, environment(Some("9"))).unwrap();
    assert_eq!(settings.economy.starting_balance, 7);
    assert_eq!(settings.cache_dir, "base-cache");
    assert_eq!(settings.discord_token, "local-token");
    assert!(!settings.bot.auto_claim);
    assert_eq!(settings.loans.max_interest_bps, 200);
    assert_eq!(settings.database_url, None);
    let fallback = load_settings(no_settings(), no_settings(), environment(Some("9"))).unwrap();
    assert_eq!((fallback.economy.starting_balance, fallback.cache_dir.as_str()), (9, ".cache"));
    assert_eq!(fallback.discord_token, "env-token");
    let defaults = load_settings(no_settings(), no_settings(), environment(None)).unwrap();
    assert_eq!(defaults.economy.starting_balance, 1_000);
    match load_settings(no_settings(), no_settings(), environment(Some("many"))) {
        Err(AppError::Config(m)) => assert_eq!(m, "failed to parse `STARTING_BALANCE` as i64"),
        other => panic!("unexpected {other:?}"),
    }
}
