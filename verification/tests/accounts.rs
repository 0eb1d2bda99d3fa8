use profit_rat::clock::{parse_rfc3339_utc, render_instant};
use profit_rat::error::AppError;
use profit_rat::market::GuildAccountRecord;
use profit_rat::users::{
    balance_summary, display_name_or_id, needs_display_name_update, next_claim_at, plan_account_claim,
    plan_claim,
};

const SECOND: i128 = 1_000_000_000;
const NOW: i128 = 1_780_000_000 * SECOND;
const STARTING_BALANCE: i64 = 1_000;
const CLAIM_AMOUNT: i64 = 10_000;
const CLAIM_PERIOD: i64 = 43_200;

#[test]
fn claim_enforces_cooldown() {
    let first = plan_claim(None, NOW, CLAIM_AMOUNT, CLAIM_PERIOD).expect("first claim");
    assert_eq!(STARTING_BALANCE + first.amount_mana, 11_000);
    let second = plan_claim(Some(NOW), NOW + SECOND, CLAIM_AMOUNT, CLAIM_PERIOD);
    assert!(second.is_err());
}

#[test]
fn cooldown_names_when_the_next_claim_opens() {
    let err = plan_claim(Some(NOW), NOW + SECOND, CLAIM_AMOUNT, CLAIM_PERIOD).unwrap_err();
    let next = render_instant(NOW + (CLAIM_PERIOD as i128) * SECOND).unwrap();
    match err {
        AppError::Conflict(m) => assert_eq!(m, format!("claim is on cooldown until {next}")),
        other => panic!("unexpected {other:?}"),
    }
    let later = plan_claim(Some(NOW), NOW + (CLAIM_PERIOD as i128) * SECOND, CLAIM_AMOUNT, CLAIM_PERIOD)
        .unwrap();
    assert_eq!(later.next_claim_at, NOW + 2 * (CLAIM_PERIOD as i128) * SECOND);
}

fn account(last_claim_at: Option<&str>) -> GuildAccountRecord {
    GuildAccountRecord {
        id: 1,
        guild_id: "guild-a".to_string(),
        discord_user_id: "u1".to_string(),
        display_name: Some("Test".to_string()),
        balance_mana: 11_000,
        total_claimed_mana: 10_000,
        last_claim_at: last_claim_at.map(|s| s.to_string()),
        created_at: "2026-06-01T00:00:00+00:00".to_string(),
        updated_at: "2026-06-01T00:00:00+00:00".to_string(),
    }
}

#[test]
fn stored_claim_time_drives_the_next_claim() {
    let stamp = "2026-06-01T00:00:00+00:00";
    let last = parse_rfc3339_utc(stamp).unwrap();
    let a = account(Some(stamp));
    assert_eq!(a.last_claim_at(), Some(last));
    assert_eq!(next_claim_at(&a, 60), Some(last + 60 * SECOND));
    assert!(plan_account_claim(&a, last + 59 * SECOND, CLAIM_AMOUNT, 60).is_err());
    assert!(plan_account_claim(&a, last + 60 * SECOND, CLAIM_AMOUNT, 60).is_ok());
    let unreadable = account(Some("not a time"));
    assert_eq!(unreadable.last_claim_at(), None);
    assert!(plan_account_claim(&unreadable, last, CLAIM_AMOUNT, 60).is_ok());
    let summary = balance_summary(&a, 60);
    assert_eq!(summary.balance_mana, 11_000);
    assert_eq!(summary.next_claim_at, Some(last + 60 * SECOND));
    assert_eq!(balance_summary(&account(None), 60).next_claim_at, None);
}

#[test]
fn display_names_fall_back_to_ids() {
    assert_eq!(display_name_or_id(None, "u1".to_string()), "u1");
    assert_eq!(display_name_or_id(Some("Rat".to_string()), "u1".to_string()), "Rat");
    assert!(needs_display_name_update(&None, "Rat"));
    assert!(needs_display_name_update(&Some("Old".to_string()), "Rat"));
    assert!(!needs_display_name_update(&Some("Rat".to_string()), "Rat"));
}
