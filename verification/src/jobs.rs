//! The decisions of the background workers: how often each runs, which of
//! the bot's own chores it does in a guild and in what order, where and
//! what it announces.

use vstd::prelude::*;

use crate::config::BotPolicyConfig;
use crate::error::{AppError, ErrorKind};
use crate::market::{MarketResolutionAnnouncement, MarketStatus};
use crate::social::AutoRepaySummary;
use crate::startup::{joined, texts};
use crate::text::{eq_ignore_ascii_case, eq_ignore_case, int_decimal, nat_decimal, owned, parse_u64, parse_u64_spec, push_int_decimal, push_nat_decimal, push_str, trim, trim_seq};
use crate::ui::{market_id_line, option_emoji, option_emoji_text, status_badge, status_badge_text};

verus! {

/// How many seconds a worker waits between runs: the configured interval,
/// but never less than `floor`.
pub fn worker_period_seconds(configured: i64, floor: i64) -> (r: u64)
    requires
        floor >= 0,
    ensures
        r == (if configured > floor {
            configured
        } else {
            floor
        }),
{
    if configured > floor {
        configured as u64
    } else {
        floor as u64
    }
}

/// One of the chores the bot does in each guild on every run.
#[derive(Clone, Copy, Debug, PartialEq, Eq, Structural)]
pub enum BehaviorStep {
    /// Claim its periodic payout.
    Claim,
    /// Accept the loan offers it finds acceptable.
    AcceptLoans,
    /// Repay its money loans falling due soon.
    RepayDueLoans,
    /// Repay its defaulted money loans.
    RepayDefaultedLoans,
    /// Buy the bonds it finds acceptable.
    BuyBonds,
    /// Nothing more this run.
    Finished,
}

/// The position of a chore in a run.
pub open spec fn step_rank(s: BehaviorStep) -> int {
    match s {
        BehaviorStep::Claim => 0,
        BehaviorStep::AcceptLoans => 1,
        BehaviorStep::RepayDueLoans => 2,
        BehaviorStep::RepayDefaultedLoans => 3,
        BehaviorStep::BuyBonds => 4,
        BehaviorStep::Finished => 5,
    }
}

/// Whether the policy has the bot do a chore: claiming, accepting loans
/// and buying bonds each have a switch; repayments always run.
pub open spec fn step_enabled(bot: BotPolicyConfig, s: BehaviorStep) -> bool {
    match s {
        BehaviorStep::Claim => bot.auto_claim,
        BehaviorStep::AcceptLoans => bot.auto_accept_loans,
        BehaviorStep::BuyBonds => bot.auto_buy_bonds,
        _ => true,
    }
}

/// The chores of one round in a guild, in order: claim (if enabled),
/// accept loans (if enabled), repay due loans, repay defaulted loans, buy
/// bonds (if enabled).
pub open spec fn chores(bot: BotPolicyConfig) -> Seq<BehaviorStep> {
    (if bot.auto_claim { seq![BehaviorStep::Claim] } else { Seq::empty() })
        + (if bot.auto_accept_loans { seq![BehaviorStep::AcceptLoans] } else { Seq::empty() })
        + seq![BehaviorStep::RepayDueLoans, BehaviorStep::RepayDefaultedLoans]
        + (if bot.auto_buy_bonds { seq![BehaviorStep::BuyBonds] } else { Seq::empty() })
}

/// The chores the bot does in a guild on each tick of its worker.
pub fn chore_round(bot: &BotPolicyConfig) -> (r: Vec<BehaviorStep>)
    ensures
        r@ == chores(*bot),
{
    let mut r: Vec<BehaviorStep> = Vec::new();
    if bot.auto_claim {
        r.push(BehaviorStep::Claim);
    }
    if bot.auto_accept_loans {
        r.push(BehaviorStep::AcceptLoans);
    }
    r.push(BehaviorStep::RepayDueLoans);
    r.push(BehaviorStep::RepayDefaultedLoans);
    if bot.auto_buy_bonds {
        r.push(BehaviorStep::BuyBonds);
    }
    assert(r@ =~= chores(*bot));
    r
}

/// Every round, a bot that claims claims first, and every bot repays its
/// loans that fall due, whatever else is turned off.
pub proof fn lemma_round_claims_first_and_repays_due_loans(bot: BotPolicyConfig)
    ensures
        bot.auto_claim ==> chores(bot)[0] == BehaviorStep::Claim,
        chores(bot).contains(BehaviorStep::RepayDueLoans),
        chores(bot).contains(BehaviorStep::RepayDefaultedLoans),
        !chores(bot).contains(BehaviorStep::Finished),
{
    let c = chores(bot);
    let k: int = (if bot.auto_claim { 1int } else { 0int }) + (if bot.auto_accept_loans { 1int } else { 0int });
    assert(c[k] == BehaviorStep::RepayDueLoans);
    assert(c[k + 1] == BehaviorStep::RepayDefaultedLoans);
    assert forall|i: int| 0 <= i < c.len() implies c[i] != BehaviorStep::Finished by {}
}

/// The chore the bot does next in a guild, after `done` (from the start
/// when `None`): the first enabled chore in the order claim, accept loans,
/// repay due loans, repay defaulted loans, buy bonds; `Finished` when none
/// is left.
pub fn next_behavior_step(bot: &BotPolicyConfig, done: Option<BehaviorStep>) -> (r: BehaviorStep)
    ensures
        step_enabled(*bot, r),
        done matches Some(d) ==> step_rank(d) < step_rank(r) || (d == BehaviorStep::Finished && r
            == BehaviorStep::Finished),
        forall|s: BehaviorStep|
            step_enabled(*bot, s) && step_rank(s) < step_rank(r) ==> (done matches Some(d)
                && step_rank(s) <= step_rank(d)),
{
    let from: u8 = match done {
        None => 0,
        Some(BehaviorStep::Claim) => 1,
        Some(BehaviorStep::AcceptLoans) => 2,
        Some(BehaviorStep::RepayDueLoans) => 3,
        Some(BehaviorStep::RepayDefaultedLoans) => 4,
        Some(BehaviorStep::BuyBonds) => 5,
        Some(BehaviorStep::Finished) => 5,
    };
    if from <= 0 && bot.auto_claim {
        return BehaviorStep::Claim;
    }
    if from <= 1 && bot.auto_accept_loans {
        return BehaviorStep::AcceptLoans;
    }
    if from <= 2 {
        return BehaviorStep::RepayDueLoans;
    }
    if from <= 3 {
        return BehaviorStep::RepayDefaultedLoans;
    }
    if from <= 4 && bot.auto_buy_bonds {
        return BehaviorStep::BuyBonds;
    }
    BehaviorStep::Finished
}

/// How far ahead the bot repays loans falling due: one worker interval
/// and five seconds.
pub fn due_repayment_window(worker_interval_seconds: i64) -> (r: i64)
    requires
        worker_interval_seconds <= i64::MAX - 5,
    ensures
        r == worker_interval_seconds + 5,
{
    worker_interval_seconds + 5
}

/// A failed claim that is not worth reporting: a claim still cooling down
/// is refused as a conflict.
pub fn is_quiet_claim_failure(error: &AppError) -> (r: bool)
    ensures
        r == (error.kind() == ErrorKind::Conflict),
{
    match error {
        AppError::Conflict(_) => true,
        _ => false,
    }
}

/// The guild to announce an automatic repayment in: only when something
/// was repaid and the guild id is a number.
pub fn repayment_announcement_guild(summary: &AutoRepaySummary, guild_id: &str) -> (r: Option<u64>)
    ensures
        r == (if summary.repaid_loans > 0 {
            parse_u64_spec(guild_id@)
        } else {
            None
        }),
{
    if summary.repaid_loans > 0 {
        parse_u64(guild_id)
    } else {
        None
    }
}

/// The title announcing the repayment of loans falling due.
pub fn due_repayment_title() -> (r: &'static str)
    ensures
        r@ == "🤝 Rat Repaid Loans"@,
{
    "🤝 Rat Repaid Loans"
}

/// The title announcing the repayment of defaulted loans.
pub fn defaulted_repayment_title() -> (r: &'static str)
    ensures
        r@ == "💸 Rat Cleared Defaulted Loans"@,
{
    "💸 Rat Cleared Defaulted Loans"
}

/// Loan ids as `#1, #2`.
pub open spec fn loan_ids_text(ids: Seq<i64>) -> Seq<char> {
    joined(ids.map_values(|id: i64| "#"@ + int_decimal(id as int)), ", "@)
}

/// Writes loan ids as `#1, #2`.
pub fn loan_ids_line(ids: &Vec<i64>) -> (r: String)
    ensures
        r@ == loan_ids_text(ids@),
{
    let mut parts: Vec<String> = Vec::new();
    let mut k: usize = 0;
    while k < ids.len()
        invariant
            k <= ids.len(),
            texts(parts@) == ids@.take(k as int).map_values(|id: i64| "#"@ + int_decimal(id as int)),
        decreases ids.len() - k,
    {
        let ghost before = texts(parts@);
        let mut p = owned("#");
        push_int_decimal(&mut p, ids[k]);
        let ghost item = p@;
        parts.push(p);
        proof {
            assert(ids@.take(k as int + 1) =~= ids@.take(k as int).push(ids@[k as int]));
            assert(texts(parts@) =~= before.push(item));
            assert(ids@.take(k as int).push(ids@[k as int]).map_values(
                |id: i64| "#"@ + int_decimal(id as int),
            ) =~= ids@.take(k as int).map_values(|id: i64| "#"@ + int_decimal(id as int)).push(item));
        }
        k = k + 1;
    }
    assert(ids@.take(k as int) =~= ids@);
    crate::startup::join_texts(&parts, ", ")
}

/// The text announcing an automatic repayment; `total_text` is the total
/// paid as money is written.
pub fn repayment_description(summary: &AutoRepaySummary, total_text: &str) -> (r: String)
    ensures
        r@ == "**Loans repaid:** `"@ + nat_decimal(summary.repaid_loans as nat) + "`\n**Loan IDs:** "@
            + loan_ids_text(summary.loan_ids@) + "\n**Total paid:** "@ + total_text@,
{
    let mut m = owned("**Loans repaid:** `");
    push_nat_decimal(&mut m, summary.repaid_loans);
    push_str(&mut m, "`\n**Loan IDs:** ");
    let ids = loan_ids_line(&summary.loan_ids);
    push_str(&mut m, ids.as_str());
    push_str(&mut m, "\n**Total paid:** ");
    push_str(&mut m, total_text);
    m
}

/// The title of the announcement about a tracked market that left the
/// open state.
pub fn tracked_market_title(status: MarketStatus, market_id: i64) -> (r: String)
    ensures
        r@ == match status {
            MarketStatus::Settled => "🔔 Tracked Market Settled "@,
            MarketStatus::Cancelled => "⚫ Tracked Market Cancelled "@,
            MarketStatus::NeedsManualReview => "🟠 Tracked Market Needs Review "@,
            _ => "🔄 Tracked Market Update "@,
        } + seq!['#'] + int_decimal(market_id as int),
{
    let mut m = match status {
        MarketStatus::Settled => owned("🔔 Tracked Market Settled "),
        MarketStatus::Cancelled => owned("⚫ Tracked Market Cancelled "),
        MarketStatus::NeedsManualReview => owned("🟠 Tracked Market Needs Review "),
        _ => owned("🔄 Tracked Market Update "),
    };
    let line = market_id_line(market_id);
    push_str(&mut m, line.as_str());
    m
}

/// The text of the announcement about a tracked market; `payout_text` is
/// its total payout as money is written.
pub open spec fn tracked_market_text(a: MarketResolutionAnnouncement, payout_text: Seq<char>) -> Seq<char> {
    "🛰️ **"@ + a.question@ + "**\n**Market:** "@ + seq!['#'] + int_decimal(a.market_id as int)
        + "\n**Status:** "@
        + status_badge_text(a.status) + match a.winning_option {
        Some(w) => "\n**Winning option:** "@ + option_emoji_text(w@) + " **"@ + w@ + "**"@,
        None => Seq::empty(),
    } + if a.total_payout > 0 {
        "\n**Total payout:** "@ + payout_text
    } else {
        Seq::empty()
    } + match a.external_url {
        Some(u) => "\n**Source:** "@ + u@,
        None => Seq::empty(),
    }
}

/// Writes the announcement about a tracked market that left the open
/// state: its question, id and status, then the winning option, the total
/// payout and the source when there are any.
pub fn tracked_market_description(a: &MarketResolutionAnnouncement, payout_text: &str) -> (r: String)
    ensures
        r@ == tracked_market_text(*a, payout_text@),
{
    let mut m = owned("🛰️ **");
    push_str(&mut m, a.question.as_str());
    push_str(&mut m, "**\n**Market:** ");
    let line = market_id_line(a.market_id);
    push_str(&mut m, line.as_str());
    push_str(&mut m, "\n**Status:** ");
    push_str(&mut m, status_badge(a.status));
    match &a.winning_option {
        Some(w) => {
            push_str(&mut m, "\n**Winning option:** ");
            push_str(&mut m, option_emoji(w.as_str()));
            push_str(&mut m, " **");
            push_str(&mut m, w.as_str());
            push_str(&mut m, "**");
        },
        None => {},
    }
    if a.total_payout > 0 {
        push_str(&mut m, "\n**Total payout:** ");
        push_str(&mut m, payout_text);
    }
    match &a.external_url {
        Some(u) => {
            push_str(&mut m, "\n**Source:** ");
            push_str(&mut m, u.as_str());
        },
        None => {},
    }
    m
}

/// A channel of a guild, as announcements choose among them.
#[derive(Clone, Debug)]
pub struct ChannelInfo {
    pub id: u64,
    /// It is a text channel.
    pub is_text: bool,
    pub name: String,
}

/// A text channel named `wanted` (trimmed, ASCII case ignored), if the
/// guild has one; none is looked for when the trimmed name is empty.
pub fn named_text_channel(channels: &Vec<ChannelInfo>, wanted: &str) -> (r: Option<u64>)
    ensures
        trim_seq(wanted@).len() == 0 ==> r is None,
        trim_seq(wanted@).len() > 0 ==> match r {
            Some(id) => exists|k: int|
                0 <= k < channels@.len() && #[trigger] channels@[k].id == id && channels@[k].is_text
                    && eq_ignore_case(channels@[k].name@, trim_seq(wanted@)),
            None => forall|k: int|
                0 <= k < channels@.len() ==> !(#[trigger] channels@[k].is_text && eq_ignore_case(
                    channels@[k].name@,
                    trim_seq(wanted@),
                )),
        },
{
    let name = trim(wanted);
    if name.unicode_len() == 0 {
        return None;
    }
    let mut k: usize = 0;
    while k < channels.len()
        invariant
            k <= channels.len(),
            name@ == trim_seq(wanted@),
            name@.len() > 0,
            forall|j: int|
                0 <= j < k ==> !(#[trigger] channels@[j].is_text && eq_ignore_case(
                    channels@[j].name@,
                    name@,
                )),
        decreases channels.len() - k,
    {
        if channels[k].is_text && eq_ignore_ascii_case(channels[k].name.as_str(), name) {
            return Some(channels[k].id);
        }
        k = k + 1;
    }
    None
}

/// Where the bot announces in a guild: the preferred channel, else the
/// fallback channel, else the channel of the guild's latest market.
pub fn announcement_channel(preferred: Option<u64>, fallback: Option<u64>, latest_market_channel: Option<
    u64,
>) -> (r: Option<u64>)
    ensures
        r == (if preferred is Some {
            preferred
        } else if fallback is Some {
            fallback
        } else {
            latest_market_channel
        }),
{
    match preferred {
        Some(c) => Some(c),
        None => match fallback {
            Some(c) => Some(c),
            None => latest_market_channel,
        },
    }
}

} // verus!
