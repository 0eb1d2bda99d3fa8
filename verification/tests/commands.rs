use profit_rat::admin::{guild_help_text, guild_summary_line, parse_admin_args, AdminCommand, GuildCounts};
use profit_rat::error::AppError;
use profit_rat::startup::{
    command_announcement, command_diff, join_texts, sorted_difference, sorted_unique, text_less,
    CommandDiff, CommandManifest,
};

fn manifest(version: &str, commands: &[&str], recorded_at: &str) -> CommandManifest {
    CommandManifest {
        version: version.to_string(),
        commands: commands.iter().map(|c| c.to_string()).collect(),
        recorded_at: recorded_at.to_string(),
    }
}

#[test]
fn manifest_diff_detects_added_commands() {
    let initial = manifest("0.1.0", &["/ping"], "2026-06-23T00:00:00Z");
    let diff = command_diff(None, &initial);
    assert!(diff.changed);
    assert!(diff.first_boot);

    let updated = manifest("0.1.1", &["/balance", "/ping"], "2026-06-23T00:05:00Z");
    let diff = command_diff(Some(initial), &updated);
    assert!(diff.changed);
    assert_eq!(diff.previous_version.as_deref(), Some("0.1.0"));
    assert_eq!(diff.added_commands, vec!["/balance".to_string()]);
    assert!(diff.removed_commands.is_empty());
}

#[test]
fn manifest_diff_stays_quiet_when_only_timestamp_changes() {
    let initial = manifest("0.1.0", &["/balance", "/ping"], "2026-06-23T00:00:00Z");
    let updated = manifest("0.1.0", &["/balance", "/ping"], "2026-06-23T00:10:00Z");
    let diff = command_diff(Some(initial), &updated);
    assert!(!diff.changed);
    assert!(!diff.first_boot);
    assert!(diff.added_commands.is_empty());
    assert!(diff.removed_commands.is_empty());
}

#[test]
fn manifest_diff_lists_removed_commands_sorted() {
    let before = manifest("0.2.0", &["/zeta", "/alpha", "/ping", "/alpha"], "t0");
    let after = manifest("0.2.0", &["/ping", "/beta"], "t1");
    let diff = command_diff(Some(before), &after);
    assert!(diff.changed);
    assert_eq!(diff.previous_version.as_deref(), Some("0.2.0"));
    assert_eq!(diff.added_commands, vec!["/beta".to_string()]);
    assert_eq!(diff.removed_commands, vec!["/alpha".to_string(), "/zeta".to_string()]);
    let same = CommandDiff::unchanged("0.2.0");
    assert_eq!(same.previous_version.as_deref(), Some("0.2.0"));
    assert!(!same.changed);
}

#[test]
fn catalog_is_sorted_without_repeats() {
    let names = vec!["/b".to_string(), "/a".to_string(), "/b".to_string(), "Context".to_string()];
    assert_eq!(sorted_unique(&names), vec!["/a".to_string(), "/b".to_string(), "Context".to_string()]);
    let a = vec!["/a".to_string(), "/b".to_string(), "/c".to_string()];
    let b = vec!["/b".to_string()];
    assert_eq!(sorted_difference(&a, &b), vec!["/a".to_string(), "/c".to_string()]);
    assert!(text_less("/a", "/b"));
    assert!(text_less("/a", "/ab"));
    assert!(!text_less("/b", "/b"));
    assert!(text_less("Z", "a"));
    assert_eq!(join_texts(&a, ", "), "/a, /b, /c");
}

#[test]
fn announcements_describe_the_change() {
    let first = command_diff(None, &manifest("1.0.0", &["/ping", "/help"], "t"));
    let (title, body) = command_announcement(&first);
    assert_eq!(title, "Profit Rat is online");
    assert_eq!(
        body,
        "**Version:** `1.0.0`\nSynced **2** slash commands for this server.\nUse `/list_commands` or `/tutorial` to explore the bot."
    );
    let change = command_diff(
        Some(manifest("1.0.0", &["/ping", "/help"], "t")),
        &manifest("1.1.0", &["/ping", "/bonds"], "u"),
    );
    let (title, body) = command_announcement(&change);
    assert_eq!(title, "Profit Rat command update");
    assert_eq!(
        body,
        "**Version:** `1.1.0`\n**Previous version:** `1.0.0`\n**New commands:** /bonds\n**Removed commands:** /help\nUse `/list_commands` to see the refreshed catalog."
    );
}

fn args(items: &[&str]) -> Vec<String> {
    items.iter().map(|a| a.to_string()).collect()
}

#[test]
fn admin_arguments_pick_a_command() {
    assert!(matches!(parse_admin_args(&args(&[])), Ok(AdminCommand::NotAdmin)));
    assert!(matches!(parse_admin_args(&args(&["-h"])), Ok(AdminCommand::GlobalHelp)));
    assert!(matches!(parse_admin_args(&args(&["guilds", "help"])), Ok(AdminCommand::GuildHelp)));
    assert!(matches!(parse_admin_args(&args(&["guilds", "list"])), Ok(AdminCommand::ListGuilds)));
    match parse_admin_args(&args(&["guilds", "delete", "42", "--confirm"])) {
        Ok(AdminCommand::DeleteGuild(g)) => assert_eq!(g, "42"),
        other => panic!("unexpected {other:?}"),
    }
    assert!(matches!(
        parse_admin_args(&args(&["guilds", "delete-all", "--confirm"])),
        Ok(AdminCommand::DeleteAllGuilds)
    ));
    match parse_admin_args(&args(&["guilds", "delete", "42"])) {
        Err(AppError::Validation(m)) => assert_eq!(
            m,
            "refusing to delete a guild without `--confirm`.\nusage: profit-rat guilds delete <guild_id> --confirm"
        ),
        other => panic!("unexpected {other:?}"),
    }
    match parse_admin_args(&args(&["guilds", "delete-all"])) {
        Err(AppError::Validation(m)) => assert!(m.starts_with("refusing to delete all guild data")),
        other => panic!("unexpected {other:?}"),
    }
    match parse_admin_args(&args(&["guilds", "list", "extra"])) {
        Err(AppError::Validation(m)) => assert_eq!(m, guild_help_text()),
        other => panic!("unexpected {other:?}"),
    }
    assert!(matches!(parse_admin_args(&args(&["serve"])), Ok(AdminCommand::NotAdmin)));
}

#[test]
fn guild_listing_line_names_every_count() {
    let c = GuildCounts {
        guild_id: "g".to_string(),
        accounts: 1,
        markets: 2,
        positions: 3,
        trades: 4,
        asset_offers: 5,
        legacy_share_offers: 6,
        loans: 7,
        economy_events: 8,
    };
    assert_eq!(
        guild_summary_line(&c),
        "- guild_id=g accounts=1 markets=2 positions=3 trades=4 asset_offers=5 legacy_share_offers=6 loans=7 economy_events=8"
    );
}
