//! Accounts and the periodic claim.

use vstd::prelude::*;

use crate::clock::{
    instant_in_range, instant_text, parse_instant, parsed_instant, render_instant, shift, shifted,
    MAX_SPAN_SECONDS,
};
use crate::error::{AppError, ErrorKind};
use crate::market::GuildAccountRecord;
use crate::text::{concat, owned, str_eq};

verus! {

/// What a successful claim pays and when the next one opens.
#[derive(Clone, Debug)]
pub struct ClaimPlan {
    pub amount_mana: i64,
    pub next_claim_at: i128,
}

/// When the claim after one made at `last` opens.
pub open spec fn next_claim_instant(last: int, period_seconds: int) -> int {
    shifted(last, period_seconds)
}

/// Whether a claim at `now` is still on cooldown after a claim at `last`.
pub open spec fn on_cooldown(last: Option<int>, now: int, period_seconds: int) -> bool {
    match last {
        Some(l) => now < next_claim_instant(l, period_seconds),
        None => false,
    }
}

/// The text of a cooldown refusal that ends at `next`.
pub open spec fn cooldown_message(next: int) -> Seq<char> {
    match instant_text(next) {
        Some(t) => "claim is on cooldown until "@ + t,
        None => "claim is on cooldown"@,
    }
}

/// Decides a claim made at `now` when the previous claim, if any, was made
/// at `last_claim_at`: refused while the period since the previous claim
/// runs, otherwise paid `claim_amount` with the next claim opening one
/// period after `now`.
pub fn plan_claim(
    last_claim_at: Option<i128>,
    now: i128,
    claim_amount: i64,
    claim_period_seconds: i64,
) -> (r: Result<ClaimPlan, AppError>)
    requires
        last_claim_at matches Some(l) ==> instant_in_range(l as int),
        instant_in_range(now as int),
        -MAX_SPAN_SECONDS <= claim_period_seconds <= MAX_SPAN_SECONDS,
    ensures
        match last_claim_at {
            Some(l) => on_cooldown(Some(l as int), now as int, claim_period_seconds as int),
            None => false,
        } ==> (r matches Err(e) && e.kind() == ErrorKind::Conflict && e.message()
            == cooldown_message(next_claim_instant(last_claim_at->0 as int, claim_period_seconds as int))),
        !on_cooldown(
            match last_claim_at {
                Some(l) => Some(l as int),
                None => None,
            },
            now as int,
            claim_period_seconds as int,
        ) ==> (r matches Ok(plan) && plan.amount_mana == claim_amount && plan.next_claim_at
            == next_claim_instant(now as int, claim_period_seconds as int)),
{
    if let Some(last) = last_claim_at {
        let next = shift(last, claim_period_seconds);
        if now < next {
            let message = match render_instant(next) {
                Some(t) => concat("claim is on cooldown until ", t.as_str()),
                None => owned("claim is on cooldown"),
            };
            return Err(AppError::Conflict(message));
        }
    }
    Ok(ClaimPlan { amount_mana: claim_amount, next_claim_at: shift(now, claim_period_seconds) })
}

impl GuildAccountRecord {
    /// The instant of the last claim; stored text that is not an RFC 3339
    /// timestamp reads as no claim.
    pub fn last_claim_at(&self) -> (r: Option<i128>)
        ensures
            match self.last_claim_at {
                Some(t) => match parsed_instant(t@) {
                    Some(v) => r == Some(v as i128),
                    None => r is None,
                },
                None => r is None,
            },
            r matches Some(v) ==> instant_in_range(v as int),
    {
        match &self.last_claim_at {
            Some(t) => parse_instant(t.as_str()),
            None => None,
        }
    }
}

/// Decides a claim for an account record: the stored last-claim text is
/// read first.
pub fn plan_account_claim(
    account: &GuildAccountRecord,
    now: i128,
    claim_amount: i64,
    claim_period_seconds: i64,
) -> (r: Result<ClaimPlan, AppError>)
    requires
        instant_in_range(now as int),
        -MAX_SPAN_SECONDS <= claim_period_seconds <= MAX_SPAN_SECONDS,
    ensures
        ({
            let last = match account.last_claim_at {
                Some(t) => parsed_instant(t@),
                None => None,
            };
            &&& on_cooldown(last, now as int, claim_period_seconds as int) ==> (r matches Err(e)
                && e.kind() == ErrorKind::Conflict && e.message() == cooldown_message(
                next_claim_instant(last->0, claim_period_seconds as int),
            ))
            &&& !on_cooldown(last, now as int, claim_period_seconds as int) ==> (r matches Ok(plan)
                && plan.amount_mana == claim_amount && plan.next_claim_at == next_claim_instant(
                now as int,
                claim_period_seconds as int,
            ))
        }),
{
    let last = account.last_claim_at();
    plan_claim(last, now, claim_amount, claim_period_seconds)
}

/// When an account may claim next: one period after its last claim, if it
/// has claimed.
pub fn next_claim_at(account: &GuildAccountRecord, claim_period_seconds: i64) -> (r: Option<i128>)
    requires
        -MAX_SPAN_SECONDS <= claim_period_seconds <= MAX_SPAN_SECONDS,
    ensures
        match account.last_claim_at {
            Some(t) => match parsed_instant(t@) {
                Some(v) => r == Some(next_claim_instant(v, claim_period_seconds as int) as i128),
                None => r is None,
            },
            None => r is None,
        },
{
    match account.last_claim_at() {
        Some(last) => Some(shift(last, claim_period_seconds)),
        None => None,
    }
}

/// The name shown for a member: their display name, or their id when they
/// have none.
pub fn display_name_or_id(display_name: Option<String>, user_id: String) -> (r: String)
    ensures
        r@ == match display_name {
            Some(n) => n@,
            None => user_id@,
        },
{
    match display_name {
        Some(n) => n,
        None => user_id,
    }
}

/// Whether an existing account's stored display name must be refreshed.
pub fn needs_display_name_update(stored: &Option<String>, display_name: &str) -> (r: bool)
    ensures
        r == !(stored matches Some(s) && s@ == display_name@),
{
    match stored {
        Some(s) => !str_eq(s.as_str(), display_name),
        None => true,
    }
}

/// Once a claim at `first` has been paid, a claim at any later instant
/// before one full period has passed is refused, and one at or after it is
/// paid.
pub proof fn lemma_claim_cooldown(first: int, later: int, period_seconds: int)
    ensures
        on_cooldown(Some(first), later, period_seconds) <==> later < first + period_seconds
            * 1_000_000_000,
{
}

/// A member's balance, what they have claimed in all, and when they may
/// claim next.
#[derive(Clone, Debug)]
pub struct BalanceSummary {
    pub balance_mana: i64,
    pub total_claimed_mana: i64,
    pub next_claim_at: Option<i128>,
}

/// What a claim paid.
#[derive(Clone, Debug)]
pub struct ClaimReceipt {
    pub amount_mana: i64,
    pub balance_mana: i64,
    pub next_claim_at: i128,
}

/// The balance summary of an account.
pub fn balance_summary(account: &GuildAccountRecord, claim_period_seconds: i64) -> (r: BalanceSummary)
    requires
        -MAX_SPAN_SECONDS <= claim_period_seconds <= MAX_SPAN_SECONDS,
    ensures
        r.balance_mana == account.balance_mana,
        r.total_claimed_mana == account.total_claimed_mana,
        match account.last_claim_at {
            Some(t) => match parsed_instant(t@) {
                Some(last) => r.next_claim_at == Some(next_claim_instant(last, claim_period_seconds as int) as i128),
                None => r.next_claim_at is None,
            },
            None => r.next_claim_at is None,
        },
{
    BalanceSummary {
        balance_mana: account.balance_mana,
        total_claimed_mana: account.total_claimed_mana,
        next_claim_at: next_claim_at(account, claim_period_seconds),
    }
}

} // verus!
