//! The administrator's command line: which guild maintenance command the
//! arguments ask for, and the texts it prints.

use vstd::prelude::*;

use crate::error::{fails_with, AppError, ErrorKind};
use crate::text::{int_decimal, owned, push_int_decimal, push_str, str_eq};

verus! {

/// What the command-line arguments ask for.
#[derive(Clone, Debug)]
pub enum AdminCommand {
    /// The arguments are not an administrator command; the bot starts.
    NotAdmin,
    /// Print the general help.
    GlobalHelp,
    /// Print the help of the guild commands.
    GuildHelp,
    /// List the guild economies present.
    ListGuilds,
    /// Delete one guild's economy.
    DeleteGuild(String),
    /// Delete every guild's economy.
    DeleteAllGuilds,
}

/// The help of the guild commands.
pub open spec fn guild_help() -> Seq<char> {
    "Guild admin usage:\n  profit-rat guilds list\n  profit-rat guilds delete <guild_id> --confirm\n  profit-rat guilds delete-all --confirm"@
}

/// The help of the guild commands.
pub fn guild_help_text() -> (r: String)
    ensures
        r@ == guild_help(),
{
    owned(
        "Guild admin usage:\n  profit-rat guilds list\n  profit-rat guilds delete <guild_id> --confirm\n  profit-rat guilds delete-all --confirm",
    )
}

/// The general help.
pub fn global_help_text() -> (r: String)
    ensures
        r@ == "Profit Rat CLI\n\nUsage:\n  profit-rat guilds list\n  profit-rat guilds delete <guild_id> --confirm\n  profit-rat guilds delete-all --confirm\n  profit-rat guilds --help"@,
{
    owned(
        "Profit Rat CLI\n\nUsage:\n  profit-rat guilds list\n  profit-rat guilds delete <guild_id> --confirm\n  profit-rat guilds delete-all --confirm\n  profit-rat guilds --help",
    )
}

/// `arg` asks for help.
pub open spec fn is_help_flag(arg: Seq<char>) -> bool {
    arg == "--help"@ || arg == "-h"@ || arg == "help"@
}

/// The refusal to delete one guild without confirmation.
pub open spec fn unconfirmed_delete() -> Seq<char> {
    "refusing to delete a guild without `--confirm`.\nusage: profit-rat guilds delete <guild_id> --confirm"@
}

/// The refusal to delete every guild without confirmation.
pub open spec fn unconfirmed_delete_all() -> Seq<char> {
    "refusing to delete all guild data without `--confirm`.\nusage: profit-rat guilds delete-all --confirm"@
}

/// What the arguments ask for, or the validation message they are refused
/// with. The cases are tried in order: help; the guild help; listing;
/// deleting one guild with `--confirm`; deleting all with `--confirm`;
/// either deletion without it; any other guild command; anything else is
/// not an administrator command.
pub open spec fn admin_outcome(args: Seq<Seq<char>>, r: Result<AdminCommand, AppError>) -> bool {
    let n = args.len();
    if n == 0 {
        r matches Ok(AdminCommand::NotAdmin)
    } else if n == 1 && is_help_flag(args[0]) {
        r matches Ok(AdminCommand::GlobalHelp)
    } else if n == 2 && args[0] == "guilds"@ && is_help_flag(args[1]) {
        r matches Ok(AdminCommand::GuildHelp)
    } else if n == 2 && args[0] == "guilds"@ && args[1] == "list"@ {
        r matches Ok(AdminCommand::ListGuilds)
    } else if n == 4 && args[0] == "guilds"@ && args[1] == "delete"@ && args[3] == "--confirm"@ {
        r matches Ok(AdminCommand::DeleteGuild(g)) && g@ == args[2]
    } else if n == 3 && args[0] == "guilds"@ && args[1] == "delete-all"@ && args[2]
        == "--confirm"@ {
        r matches Ok(AdminCommand::DeleteAllGuilds)
    } else if n >= 2 && args[0] == "guilds"@ && args[1] == "delete"@ {
        fails_with(r, ErrorKind::Validation, unconfirmed_delete())
    } else if n >= 2 && args[0] == "guilds"@ && args[1] == "delete-all"@ {
        fails_with(r, ErrorKind::Validation, unconfirmed_delete_all())
    } else if args[0] == "guilds"@ {
        fails_with(r, ErrorKind::Validation, guild_help())
    } else {
        r matches Ok(AdminCommand::NotAdmin)
    }
}

/// Destructive commands need confirmation: the arguments only ever ask to
/// delete guild data when they end with `--confirm`.
pub proof fn lemma_deletion_needs_confirmation(args: Seq<Seq<char>>, r: Result<AdminCommand, AppError>)
    requires
        admin_outcome(args, r),
        r matches Ok(AdminCommand::DeleteGuild(_)) || r matches Ok(AdminCommand::DeleteAllGuilds),
    ensures
        args.len() > 0 && args.last() == "--confirm"@,
{
}

fn help_flag(arg: &str) -> (r: bool)
    ensures
        r == is_help_flag(arg@),
{
    str_eq(arg, "--help") || str_eq(arg, "-h") || str_eq(arg, "help")
}

/// Reads the administrator command the arguments (without the program
/// name) ask for.
pub fn parse_admin_args(args: &Vec<String>) -> (r: Result<AdminCommand, AppError>)
    ensures
        admin_outcome(args@.map_values(|a: String| a@), r),
{
    let ghost a = args@.map_values(|s: String| s@);
    let n = args.len();
    if n == 0 {
        return Ok(AdminCommand::NotAdmin);
    }
    assert(a[0] == args@[0]@);
    if n == 1 && help_flag(args[0].as_str()) {
        return Ok(AdminCommand::GlobalHelp);
    }
    let guilds = str_eq(args[0].as_str(), "guilds");
    if n >= 2 {
        assert(a[1] == args@[1]@);
    }
    if n == 2 && guilds && help_flag(args[1].as_str()) {
        return Ok(AdminCommand::GuildHelp);
    }
    if n == 2 && guilds && str_eq(args[1].as_str(), "list") {
        return Ok(AdminCommand::ListGuilds);
    }
    if n == 4 {
        assert(a[2] == args@[2]@);
        assert(a[3] == args@[3]@);
    }
    if n == 4 && guilds && str_eq(args[1].as_str(), "delete") && str_eq(args[3].as_str(), "--confirm") {
        return Ok(AdminCommand::DeleteGuild(args[2].clone()));
    }
    if n == 3 {
        assert(a[2] == args@[2]@);
    }
    if n == 3 && guilds && str_eq(args[1].as_str(), "delete-all") && str_eq(
        args[2].as_str(),
        "--confirm",
    ) {
        return Ok(AdminCommand::DeleteAllGuilds);
    }
    if n >= 2 && guilds && str_eq(args[1].as_str(), "delete") {
        return Err(
            AppError::Validation(
                owned(
                    "refusing to delete a guild without `--confirm`.\nusage: profit-rat guilds delete <guild_id> --confirm",
                ),
            ),
        );
    }
    if n >= 2 && guilds && str_eq(args[1].as_str(), "delete-all") {
        return Err(
            AppError::Validation(
                owned(
                    "refusing to delete all guild data without `--confirm`.\nusage: profit-rat guilds delete-all --confirm",
                ),
            ),
        );
    }
    if guilds {
        return Err(AppError::Validation(guild_help_text()));
    }
    Ok(AdminCommand::NotAdmin)
}

/// The error for a guild id that has no economy.
pub fn guild_not_found(guild_id: &str) -> (e: AppError)
    ensures
        e.kind() == ErrorKind::NotFound,
        e.message() == "guild economy `"@ + guild_id@ + "` was not found"@,
{
    let mut m = owned("guild economy `");
    push_str(&mut m, guild_id);
    push_str(&mut m, "` was not found");
    AppError::NotFound(m)
}

/// How much one guild economy holds, by table.
#[derive(Clone, Debug)]
pub struct GuildCounts {
    pub guild_id: String,
    pub accounts: i64,
    pub markets: i64,
    pub positions: i64,
    pub trades: i64,
    pub asset_offers: i64,
    pub legacy_share_offers: i64,
    pub loans: i64,
    pub economy_events: i64,
}

/// The listing line of one guild economy.
pub fn guild_summary_line(c: &GuildCounts) -> (r: String)
    ensures
        r@ == "- guild_id="@ + c.guild_id@ + " accounts="@ + int_decimal(c.accounts as int)
            + " markets="@ + int_decimal(c.markets as int) + " positions="@ + int_decimal(
            c.positions as int,
        ) + " trades="@ + int_decimal(c.trades as int) + " asset_offers="@ + int_decimal(
            c.asset_offers as int,
        ) + " legacy_share_offers="@ + int_decimal(c.legacy_share_offers as int) + " loans="@
            + int_decimal(c.loans as int) + " economy_events="@ + int_decimal(
            c.economy_events as int,
        ),
{
    let mut m = owned("- guild_id=");
    push_str(&mut m, c.guild_id.as_str());
    push_str(&mut m, " accounts=");
    push_int_decimal(&mut m, c.accounts);
    push_str(&mut m, " markets=");
    push_int_decimal(&mut m, c.markets);
    push_str(&mut m, " positions=");
    push_int_decimal(&mut m, c.positions);
    push_str(&mut m, " trades=");
    push_int_decimal(&mut m, c.trades);
    push_str(&mut m, " asset_offers=");
    push_int_decimal(&mut m, c.asset_offers);
    push_str(&mut m, " legacy_share_offers=");
    push_int_decimal(&mut m, c.legacy_share_offers);
    push_str(&mut m, " loans=");
    push_int_decimal(&mut m, c.loans);
    push_str(&mut m, " economy_events=");
    push_int_decimal(&mut m, c.economy_events);
    m
}

} // verus!
