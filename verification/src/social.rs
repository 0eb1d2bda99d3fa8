//! Money moving between members: donations, loans with interest, their
//! acceptance, repayment, automatic repayment and default.

use vstd::prelude::*;

use crate::clock::{
    instant_in_range, parse_instant, parse_rfc3339_utc, parsed_instant, shift, shifted,
    span_whole_seconds, whole_seconds, MAX_SPAN_SECONDS,
};
use crate::config::LoanPolicyConfig;
use crate::error::{fails_with, AppError, ErrorKind};
use crate::text::{concat, decimal, int_decimal, owned, push_int_decimal, push_str, str_eq};

verus! {

/// An error's kind and text, as the contracts below describe refusals.
pub type Refusal = (ErrorKind, Seq<char>);

/// `r` is the refusal `f`, when there is one.
pub open spec fn refused_as<T>(r: Result<T, AppError>, f: Refusal) -> bool {
    fails_with(r, f.0, f.1)
}

/// Division rounding towards zero, as Rust's integer division.
pub open spec fn trunc_div(a: int, b: int) -> int {
    if a >= 0 {
        a / b
    } else {
        -((-a) / b)
    }
}

/// What a borrower owes on a money loan: the principal plus the interest,
/// rounded up to whole units of money.
pub open spec fn repayment_amount(principal: int, interest_bps: int) -> int {
    principal + trunc_div(principal * interest_bps + 9_999, 10_000)
}

/// The repayment of `principal` at `interest_bps` can be computed in 64-bit
/// arithmetic.
pub open spec fn repayment_fits(principal: int, interest_bps: int) -> bool {
    &&& i64::MIN <= principal * interest_bps
    &&& principal * interest_bps + 9_999 <= i64::MAX
    &&& i64::MIN <= repayment_amount(principal, interest_bps) <= i64::MAX
}

/// What a borrower owes on a money loan of `principal` at `interest_bps`.
pub fn repayment_due(principal: i64, interest_bps: i64) -> (r: i64)
    requires
        repayment_fits(principal as int, interest_bps as int),
    ensures
        r == repayment_amount(principal as int, interest_bps as int),
{
    principal + ((principal * interest_bps + 9_999) / 10_000)
}

/// With no interest a loan is repaid with exactly its principal; with
/// interest the amount owed is the principal plus at least the exact
/// interest and less than one unit more.
pub proof fn lemma_repayment_bounds(principal: int, interest_bps: int)
    requires
        principal >= 0,
        interest_bps >= 0,
    ensures
        repayment_amount(principal, 0) == principal,
        repayment_amount(principal, interest_bps) * 10_000 >= principal * 10_000 + principal
            * interest_bps,
        repayment_amount(principal, interest_bps) * 10_000 < principal * 10_000 + principal
            * interest_bps + 10_000,
        repayment_amount(principal, interest_bps) >= principal,
{
    assert(principal * interest_bps >= 0) by (nonlinear_arith)
        requires
            principal >= 0,
            interest_bps >= 0,
    ;
    let n = principal * interest_bps + 9_999;
    let q = n / 10_000;
    assert(q * 10_000 <= n < q * 10_000 + 10_000) by (nonlinear_arith)
        requires
            n >= 0,
            q == n / 10_000,
    ;
}

/// The interest rate a loan offer ends up with, or why it is refused.
pub open spec fn interest_refusal(policy: LoanPolicyConfig, requested: Option<i64>) -> Option<Refusal> {
    let value = requested.unwrap_or(policy.default_interest_bps);
    if !policy.allow_interest && value > 0 {
        Some((ErrorKind::Conflict, "interest is disabled by server policy"@))
    } else if value < 0 || value > policy.max_interest_bps {
        Some(
            (
                ErrorKind::Validation,
                "interest_bps must be between 0 and "@ + int_decimal(policy.max_interest_bps as int),
            ),
        )
    } else {
        None
    }
}

/// The interest rate of a loan offer: the one asked for, or the server
/// default; refused when interest is disabled and the rate is positive, or
/// when the rate is negative or above the server maximum.
pub fn normalize_interest_bps(policy: &LoanPolicyConfig, requested: Option<i64>) -> (r: Result<
    i64,
    AppError,
>)
    ensures
        match interest_refusal(*policy, requested) {
            Some(f) => refused_as(r, f),
            None => r == Ok::<i64, AppError>(requested.unwrap_or(policy.default_interest_bps)),
        },
{
    let value = match requested {
        Some(v) => v,
        None => policy.default_interest_bps,
    };
    if !policy.allow_interest && value > 0 {
        return Err(AppError::Conflict(owned("interest is disabled by server policy")));
    }
    if value < 0 || value > policy.max_interest_bps {
        let mut m = owned("interest_bps must be between 0 and ");
        push_int_decimal(&mut m, policy.max_interest_bps);
        return Err(AppError::Validation(m));
    }
    Ok(value)
}

/// Why a loan duration is refused, if it is.
pub open spec fn duration_refusal(policy: LoanPolicyConfig, requested: Option<i64>) -> Option<Refusal> {
    let value = requested.unwrap_or(policy.default_duration_seconds);
    if value <= 0 || value > policy.max_duration_seconds {
        Some(
            (
                ErrorKind::Validation,
                "loan duration must be between 1 and "@ + int_decimal(
                    policy.max_duration_seconds as int,
                ) + " seconds"@,
            ),
        )
    } else {
        None
    }
}

/// The duration of a loan offer: the one asked for or the server default,
/// which must be positive and at most the server maximum.
pub fn normalize_duration(policy: &LoanPolicyConfig, requested: Option<i64>) -> (r: Result<
    i64,
    AppError,
>)
    ensures
        match duration_refusal(*policy, requested) {
            Some(f) => refused_as(r, f),
            None => r == Ok::<i64, AppError>(requested.unwrap_or(policy.default_duration_seconds)),
        },
{
    let value = match requested {
        Some(v) => v,
        None => policy.default_duration_seconds,
    };
    if value <= 0 || value > policy.max_duration_seconds {
        let mut m = owned("loan duration must be between 1 and ");
        push_int_decimal(&mut m, policy.max_duration_seconds);
        push_str(&mut m, " seconds");
        return Err(AppError::Validation(m));
    }
    Ok(value)
}

/// Refuses a loan between a member and themself.
pub fn check_loan_parties(lender_user_id: &str, borrower_user_id: &str) -> (r: Result<(), AppError>)
    ensures
        lender_user_id@ == borrower_user_id@ ==> fails_with(
            r,
            ErrorKind::Validation,
            "you cannot create a loan with yourself"@,
        ),
        lender_user_id@ != borrower_user_id@ ==> r is Ok,
{
    if str_eq(lender_user_id, borrower_user_id) {
        return Err(AppError::Validation(owned("you cannot create a loan with yourself")));
    }
    Ok(())
}

/// The terms of an accepted-for-posting money loan offer.
#[derive(Clone, Debug)]
pub struct MoneyLoanOffer {
    pub principal_mana: i64,
    pub repayment_mana: i64,
    pub interest_bps: i64,
    pub duration_seconds: i64,
    pub expires_at: i128,
    pub due_at: i128,
}

/// How long a loan offer stays open for acceptance: the share-offer
/// expiration, but never under 30 seconds.
pub open spec fn offer_window_seconds(share_offer_expiration_seconds: int) -> int {
    if share_offer_expiration_seconds > 30 {
        share_offer_expiration_seconds
    } else {
        30
    }
}

/// The first reason a money loan offer is refused, if any.
pub open spec fn money_loan_offer_refusal(
    policy: LoanPolicyConfig,
    min_money_transfer: i64,
    lender: Seq<char>,
    borrower: Seq<char>,
    principal: i64,
    interest_bps: Option<i64>,
    duration_seconds: Option<i64>,
    lender_balance: i64,
) -> Option<Refusal> {
    if !policy.allow_money_loans {
        Some((ErrorKind::Conflict, "money loans are disabled by server policy"@))
    } else if lender == borrower {
        Some((ErrorKind::Validation, "you cannot create a loan with yourself"@))
    } else if principal < min_money_transfer {
        Some((ErrorKind::Validation, "loan principal is too small"@))
    } else if interest_refusal(policy, interest_bps) is Some {
        interest_refusal(policy, interest_bps)
    } else if duration_refusal(policy, duration_seconds) is Some {
        duration_refusal(policy, duration_seconds)
    } else if lender_balance < principal {
        Some((ErrorKind::Conflict, "lender does not currently have enough balance"@))
    } else {
        None
    }
}

/// Decides a money loan offer made at `now`: the policy must allow money
/// loans, the parties must differ, the principal must reach the minimum
/// transfer, the interest and duration must be acceptable and the lender
/// must hold the principal. The offer then owes the principal plus rounded
/// up interest, may be accepted until the offer window closes and falls due
/// after the duration.
pub fn plan_money_loan_offer(
    policy: &LoanPolicyConfig,
    min_money_transfer: i64,
    share_offer_expiration_seconds: i64,
    lender_user_id: &str,
    borrower_user_id: &str,
    principal_mana: i64,
    interest_bps: Option<i64>,
    duration_seconds: Option<i64>,
    lender_balance: i64,
    now: i128,
) -> (r: Result<MoneyLoanOffer, AppError>)
    requires
        instant_in_range(now as int),
        share_offer_expiration_seconds <= MAX_SPAN_SECONDS,
        duration_seconds.unwrap_or(policy.default_duration_seconds) <= MAX_SPAN_SECONDS,
        forall|b: int|
            0 <= b <= policy.max_interest_bps ==> #[trigger] repayment_fits(principal_mana as int, b),
    ensures
        match money_loan_offer_refusal(
            *policy,
            min_money_transfer,
            lender_user_id@,
            borrower_user_id@,
            principal_mana,
            interest_bps,
            duration_seconds,
            lender_balance,
        ) {
            Some(f) => refused_as(r, f),
            None => r matches Ok(offer) && {
                let rate = interest_bps.unwrap_or(policy.default_interest_bps);
                let duration = duration_seconds.unwrap_or(policy.default_duration_seconds);
                &&& offer.principal_mana == principal_mana
                &&& offer.interest_bps == rate
                &&& offer.repayment_mana == repayment_amount(principal_mana as int, rate as int)
                &&& offer.duration_seconds == duration
                &&& offer.expires_at == shifted(
                    now as int,
                    offer_window_seconds(share_offer_expiration_seconds as int),
                )
                &&& offer.due_at == shifted(now as int, duration as int)
            },
        },
{
    if !policy.allow_money_loans {
        return Err(AppError::Conflict(owned("money loans are disabled by server policy")));
    }
    check_loan_parties(lender_user_id, borrower_user_id)?;
    if principal_mana < min_money_transfer {
        return Err(AppError::Validation(owned("loan principal is too small")));
    }
    let rate = normalize_interest_bps(policy, interest_bps)?;
    let duration = normalize_duration(policy, duration_seconds)?;
    if lender_balance < principal_mana {
        return Err(AppError::Conflict(owned("lender does not currently have enough balance")));
    }
    assert(repayment_fits(principal_mana as int, rate as int));
    let repayment_mana = repayment_due(principal_mana, rate);
    let window: i64 = if share_offer_expiration_seconds > 30 {
        share_offer_expiration_seconds
    } else {
        30
    };
    Ok(
        MoneyLoanOffer {
            principal_mana,
            repayment_mana,
            interest_bps: rate,
            duration_seconds: duration,
            expires_at: shift(now, window),
            due_at: shift(now, duration),
        },
    )
}

/// A loan as stored. Share quantities of share loans are kept by the caller.
#[derive(Clone, Debug)]
pub struct LoanRecord {
    pub id: i64,
    pub guild_id: String,
    pub asset_type: String,
    pub market_id: Option<i64>,
    pub option_id: Option<i64>,
    pub lender_discord_user_id: String,
    pub borrower_discord_user_id: String,
    pub principal_mana: Option<i64>,
    pub repayment_mana: Option<i64>,
    pub interest_bps: i64,
    pub due_at: String,
    pub status: String,
    pub expires_at: String,
}

/// Why a loan offer that is no longer pending cannot be answered.
pub open spec fn not_pending_refusal(loan: LoanRecord) -> Option<Refusal> {
    if loan.status@ != "pending"@ {
        Some(
            (
                ErrorKind::Conflict,
                "loan offer #"@ + int_decimal(loan.id as int) + " is already "@ + loan.status@,
            ),
        )
    } else {
        None
    }
}

/// Refuses to answer a loan offer that is no longer pending.
pub fn require_pending_loan(loan: &LoanRecord) -> (r: Result<(), AppError>)
    ensures
        match not_pending_refusal(*loan) {
            Some(f) => refused_as(r, f),
            None => r is Ok,
        },
{
    if !str_eq(loan.status.as_str(), "pending") {
        let mut m = owned("loan offer #");
        push_int_decimal(&mut m, loan.id);
        push_str(&mut m, " is already ");
        push_str(&mut m, loan.status.as_str());
        return Err(AppError::Conflict(m));
    }
    Ok(())
}

/// Why a loan that is not active cannot be repaid.
pub open spec fn not_active_refusal(loan: LoanRecord) -> Option<Refusal> {
    if loan.status@ != "active"@ {
        Some(
            (
                ErrorKind::Conflict,
                "loan #"@ + int_decimal(loan.id as int) + " is not active; current status is "@
                    + loan.status@,
            ),
        )
    } else {
        None
    }
}

/// A server sees only its own loans: the stored loan with id `loan_id` when
/// there is one and it belongs to `guild_id`; otherwise the `what` (a loan,
/// a loan offer) is not found.
pub fn loan_in_guild(guild_id: &str, loan_id: i64, found: Option<LoanRecord>, what: &str) -> (r: Result<
    LoanRecord,
    AppError,
>)
    ensures
        if found matches Some(l) && l.guild_id@ == guild_id@ && l.id == loan_id {
            r == Ok::<LoanRecord, AppError>(found->0)
        } else {
            fails_with(r, ErrorKind::NotFound, what@ + " "@ + int_decimal(loan_id as int) + " was not found"@)
        },
{
    match found {
        Some(l) => {
            if str_eq(l.guild_id.as_str(), guild_id) && l.id == loan_id {
                return Ok(l);
            }
        },
        None => {},
    }
    let mut m = owned(what);
    push_str(&mut m, " ");
    push_int_decimal(&mut m, loan_id);
    push_str(&mut m, " was not found");
    Err(AppError::NotFound(m))
}

/// Only an active loan is repaid: once a loan is repaid (or is pending,
/// declined, expired or defaulted), every repayment of it is refused as a
/// conflict, whoever asks and whatever they offer.
pub proof fn lemma_only_active_loans_are_repaid(
    loan: LoanRecord,
    borrower: Seq<char>,
    repaid_mana: i64,
    amount_mana: Option<i64>,
    borrower_balance: i64,
    allow_partial_repayment: bool,
)
    requires
        loan.status@ != "active"@,
    ensures
        repayment_refusal(loan, borrower, repaid_mana, amount_mana, borrower_balance, allow_partial_repayment)
            matches Some(f) && f.0 == ErrorKind::Conflict,
{
}

/// Refuses to repay a loan that is not active.
pub fn require_active_loan(loan: &LoanRecord) -> (r: Result<(), AppError>)
    ensures
        match not_active_refusal(*loan) {
            Some(f) => refused_as(r, f),
            None => r is Ok,
        },
{
    if !str_eq(loan.status.as_str(), "active") {
        let mut m = owned("loan #");
        push_int_decimal(&mut m, loan.id);
        push_str(&mut m, " is not active; current status is ");
        push_str(&mut m, loan.status.as_str());
        return Err(AppError::Conflict(m));
    }
    Ok(())
}

/// What accepting a loan offer moves from lender to borrower.
#[derive(Clone, Debug)]
pub enum LoanAcceptance {
    /// The principal in money.
    Money { principal_mana: i64 },
    /// The principal in shares of this market option; the caller checks
    /// and moves the share quantity.
    Shares { market_id: i64, option_id: i64 },
}

/// The first reason, if any, a borrower's acceptance of a loan offer at
/// `now` is refused, given the lender's balance.
pub open spec fn acceptance_refusal(
    loan: LoanRecord,
    borrower: Seq<char>,
    now: int,
    lender_balance: i64,
) -> Option<Refusal> {
    if not_pending_refusal(loan) is Some {
        not_pending_refusal(loan)
    } else if loan.borrower_discord_user_id@ != borrower {
        Some((ErrorKind::Conflict, "that loan offer is not addressed to you"@))
    } else if parsed_instant(loan.expires_at@) is None {
        Some((ErrorKind::Other, "invalid RFC3339 timestamp: "@ + loan.expires_at@))
    } else if now >= parsed_instant(loan.expires_at@)->0 {
        Some((ErrorKind::Conflict, "that loan offer already expired"@))
    } else if loan.asset_type@ == "money"@ {
        if lender_balance < loan.principal_mana.unwrap_or(0) {
            Some((ErrorKind::Conflict, "lender no longer has enough balance"@))
        } else {
            None
        }
    } else if loan.asset_type@ == "shares"@ {
        if loan.market_id is None {
            Some((ErrorKind::External, "share loan is missing market id"@))
        } else if loan.option_id is None {
            Some((ErrorKind::External, "share loan is missing option id"@))
        } else {
            None
        }
    } else {
        Some((ErrorKind::External, "unsupported loan asset type"@))
    }
}

/// Decides a borrower's acceptance of a loan offer at `now`: the offer must
/// still be pending, be addressed to the borrower and not have expired; a
/// money loan needs the lender to still hold the principal (a missing
/// principal counts as zero), a share loan must name its market and option.
pub fn plan_loan_acceptance(
    loan: &LoanRecord,
    borrower_user_id: &str,
    now: i128,
    lender_balance: i64,
) -> (r: Result<LoanAcceptance, AppError>)
    ensures
        match acceptance_refusal(*loan, borrower_user_id@, now as int, lender_balance) {
            Some(f) => refused_as(r, f),
            None => if loan.asset_type@ == "money"@ {
                r matches Ok(LoanAcceptance::Money { principal_mana }) && principal_mana
                    == loan.principal_mana.unwrap_or(0)
            } else {
                r matches Ok(LoanAcceptance::Shares { market_id, option_id }) && market_id
                    == loan.market_id->0 && option_id == loan.option_id->0
            },
        },
{
    require_pending_loan(loan)?;
    if !str_eq(loan.borrower_discord_user_id.as_str(), borrower_user_id) {
        return Err(AppError::Conflict(owned("that loan offer is not addressed to you")));
    }
    let expires_at = parse_rfc3339_utc(loan.expires_at.as_str())?;
    if now >= expires_at {
        return Err(AppError::Conflict(owned("that loan offer already expired")));
    }
    if str_eq(loan.asset_type.as_str(), "money") {
        let principal = match loan.principal_mana {
            Some(p) => p,
            None => 0,
        };
        if lender_balance < principal {
            return Err(AppError::Conflict(owned("lender no longer has enough balance")));
        }
        Ok(LoanAcceptance::Money { principal_mana: principal })
    } else if str_eq(loan.asset_type.as_str(), "shares") {
        let market_id = match loan.market_id {
            Some(m) => m,
            None => {
                return Err(AppError::External(owned("share loan is missing market id")));
            },
        };
        let option_id = match loan.option_id {
            Some(o) => o,
            None => {
                return Err(AppError::External(owned("share loan is missing option id")));
            },
        };
        Ok(LoanAcceptance::Shares { market_id, option_id })
    } else {
        Err(AppError::External(owned("unsupported loan asset type")))
    }
}

/// Decides a borrower's refusal of a loan offer: the offer must still be
/// pending and be addressed to the borrower.
pub fn check_loan_decline(loan: &LoanRecord, borrower_user_id: &str) -> (r: Result<(), AppError>)
    ensures
        match not_pending_refusal(*loan) {
            Some(f) => refused_as(r, f),
            None => if loan.borrower_discord_user_id@ != borrower_user_id@ {
                fails_with(r, ErrorKind::Conflict, "that loan offer is not addressed to you"@)
            } else {
                r is Ok
            },
        },
{
    require_pending_loan(loan)?;
    if !str_eq(loan.borrower_discord_user_id.as_str(), borrower_user_id) {
        return Err(AppError::Conflict(owned("that loan offer is not addressed to you")));
    }
    Ok(())
}

/// What a repayment of a loan does.
#[derive(Clone, Debug)]
pub enum LoanRepayment {
    /// `payment_mana` moves from borrower to lender, leaving
    /// `remaining_mana` owed.
    Money { payment_mana: i64, remaining_mana: i64 },
    /// Shares of this market option move back; the caller checks and moves
    /// the share quantity.
    Shares { market_id: i64, option_id: i64 },
}

/// What is still owed on a money loan after `repaid` has been paid.
pub open spec fn money_remaining(repayment_mana: Option<i64>, repaid: int) -> int {
    let due = repayment_mana.unwrap_or(0) - repaid;
    if due > 0 {
        due
    } else {
        0
    }
}

/// The first reason, if any, a repayment is refused.
pub open spec fn repayment_refusal(
    loan: LoanRecord,
    borrower: Seq<char>,
    repaid_mana: i64,
    amount_mana: Option<i64>,
    borrower_balance: i64,
    allow_partial_repayment: bool,
) -> Option<Refusal> {
    if not_active_refusal(loan) is Some {
        not_active_refusal(loan)
    } else if loan.borrower_discord_user_id@ != borrower {
        Some((ErrorKind::Conflict, "only the borrower can repay that loan"@))
    } else if loan.asset_type@ == "money"@ {
        if amount_mana is None {
            Some((ErrorKind::Validation, "money repayment requires `amount_mana`"@))
        } else if amount_mana->0 <= 0 {
            Some((ErrorKind::Validation, "repayment must be positive"@))
        } else if !allow_partial_repayment && amount_mana->0 < money_remaining(
            loan.repayment_mana,
            repaid_mana as int,
        ) {
            Some((ErrorKind::Conflict, "partial repayment is disabled by server policy"@))
        } else if borrower_balance < amount_mana->0 {
            Some((ErrorKind::Conflict, "borrower does not have enough balance"@))
        } else {
            None
        }
    } else if loan.asset_type@ == "shares"@ {
        None
    } else {
        Some((ErrorKind::External, "unsupported loan asset type"@))
    }
}

/// Decides a borrower's repayment of a loan of which `repaid_mana` has
/// already been paid. A money repayment must name a positive amount that
/// the borrower holds, and covers what is still owed unless partial
/// repayment is allowed; paying more than is owed is accepted. The money
/// still owed afterwards never goes below zero.
pub fn plan_repayment(
    loan: &LoanRecord,
    borrower_user_id: &str,
    repaid_mana: i64,
    amount_mana: Option<i64>,
    borrower_balance: i64,
    allow_partial_repayment: bool,
) -> (r: Result<LoanRepayment, AppError>)
    requires
        i64::MIN <= loan.repayment_mana.unwrap_or(0) - repaid_mana <= i64::MAX,
    ensures
        match repayment_refusal(
            *loan,
            borrower_user_id@,
            repaid_mana,
            amount_mana,
            borrower_balance,
            allow_partial_repayment,
        ) {
            Some(f) => refused_as(r, f),
            None => if loan.asset_type@ == "money"@ {
                r matches Ok(LoanRepayment::Money { payment_mana, remaining_mana })
                    && payment_mana == amount_mana->0 && remaining_mana == {
                    let left = money_remaining(loan.repayment_mana, repaid_mana as int)
                        - payment_mana;
                    if left > 0 {
                        left
                    } else {
                        0
                    }
                }
            } else {
                r matches Ok(LoanRepayment::Shares { market_id, option_id }) && market_id
                    == loan.market_id.unwrap_or(0) && option_id == loan.option_id.unwrap_or(0)
            },
        },
{
    require_active_loan(loan)?;
    if !str_eq(loan.borrower_discord_user_id.as_str(), borrower_user_id) {
        return Err(AppError::Conflict(owned("only the borrower can repay that loan")));
    }
    if str_eq(loan.asset_type.as_str(), "money") {
        let due = match loan.repayment_mana {
            Some(d) => d,
            None => 0,
        };
        let payment = match amount_mana {
            Some(p) => p,
            None => {
                return Err(AppError::Validation(owned("money repayment requires `amount_mana`")));
            },
        };
        if payment <= 0 {
            return Err(AppError::Validation(owned("repayment must be positive")));
        }
        let owed = due - repaid_mana;
        let remaining: i64 = if owed > 0 {
            owed
        } else {
            0
        };
        if !allow_partial_repayment && payment < remaining {
            return Err(AppError::Conflict(owned("partial repayment is disabled by server policy")));
        }
        if borrower_balance < payment {
            return Err(AppError::Conflict(owned("borrower does not have enough balance")));
        }
        let left = remaining - payment;
        let remaining_after: i64 = if left > 0 {
            left
        } else {
            0
        };
        Ok(LoanRepayment::Money { payment_mana: payment, remaining_mana: remaining_after })
    } else if str_eq(loan.asset_type.as_str(), "shares") {
        let market_id = match loan.market_id {
            Some(m) => m,
            None => 0,
        };
        let option_id = match loan.option_id {
            Some(o) => o,
            None => 0,
        };
        Ok(LoanRepayment::Shares { market_id, option_id })
    } else {
        Err(AppError::External(owned("unsupported loan asset type")))
    }
}

/// Whether a loan's money side is fully repaid once `repaid_mana` has been
/// paid in total.
pub open spec fn money_side_closed(repayment_mana: Option<i64>, repaid_mana: int) -> bool {
    repayment_mana is Some && repaid_mana >= repayment_mana->0
}

/// Whether a loan's money side is fully repaid once `repaid_mana` has been
/// paid in total; a loan with no money side never closes this way.
pub fn money_loan_closed(repayment_mana: Option<i64>, repaid_mana: i64) -> (r: bool)
    ensures
        r == money_side_closed(repayment_mana, repaid_mana as int),
{
    match repayment_mana {
        Some(due) => repaid_mana >= due,
        None => false,
    }
}

/// A repayment that pays at least what is still owed closes the loan: the
/// total repaid then reaches the amount owed.
pub proof fn lemma_full_payment_closes(repayment_mana: i64, repaid: int, payment: int)
    requires
        payment >= money_remaining(Some(repayment_mana), repaid),
    ensures
        money_side_closed(Some(repayment_mana), repaid + payment),
{
}

/// A partial repayment leaves the loan open with exactly the difference
/// still owed.
pub proof fn lemma_partial_payment_leaves_rest(repayment_mana: i64, repaid: int, payment: int)
    requires
        0 < payment < money_remaining(Some(repayment_mana), repaid),
    ensures
        !money_side_closed(Some(repayment_mana), repaid + payment),
        money_remaining(Some(repayment_mana), repaid + payment) == money_remaining(
            Some(repayment_mana),
            repaid,
        ) - payment,
{
}

/// How much the bot pays towards a loan on its own: everything it can up to
/// what is owed when partial repayment is allowed; otherwise what is owed
/// if it can pay all of it, else nothing.
pub open spec fn auto_payment(allow_partial: bool, available: int, remaining: int) -> int {
    if allow_partial {
        if available < remaining {
            available
        } else {
            remaining
        }
    } else if available >= remaining {
        remaining
    } else {
        0
    }
}

/// How much the bot pays towards a loan on its own.
pub fn auto_repay_payment(allow_partial: bool, available: i64, remaining: i64) -> (r: i64)
    ensures
        r == auto_payment(allow_partial, available as int, remaining as int),
{
    if allow_partial {
        if available < remaining {
            available
        } else {
            remaining
        }
    } else if available >= remaining {
        remaining
    } else {
        0
    }
}

/// A money loan that the bot may repay on its own.
#[derive(Clone, Debug)]
pub struct DueMoneyLoan {
    pub loan_id: i64,
    pub asset_type: String,
    pub repayment_mana: Option<i64>,
    pub already_repaid_mana: i64,
}

/// The parts of a due loan that the repayment plan reads: its id, whether
/// it is a money loan and what is still owed on it.
pub open spec fn due_view(loan: DueMoneyLoan) -> (i64, bool, int) {
    (
        loan.loan_id,
        loan.asset_type@ == "money"@,
        money_remaining(loan.repayment_mana, loan.already_repaid_mana as int),
    )
}

/// The payments the bot makes, in order, on loans that it owes, starting
/// with `balance`: each money loan with something owed gets the automatic
/// payment that the balance left at that point allows, when positive.
pub open spec fn auto_plan(loans: Seq<(i64, bool, int)>, balance: int, allow_partial: bool) -> Seq<
    (i64, int),
>
    decreases loans.len(),
{
    if loans.len() == 0 {
        Seq::empty()
    } else {
        let (id, is_money, remaining) = loans[0];
        let pay = if is_money && remaining > 0 && balance > 0 {
            auto_payment(allow_partial, balance, remaining)
        } else {
            0
        };
        if pay > 0 {
            seq![(id, pay)] + auto_plan(loans.skip(1), balance - pay, allow_partial)
        } else {
            auto_plan(loans.skip(1), balance, allow_partial)
        }
    }
}

/// How each loan's turn shapes the automatic repayments, over every list of
/// loans and every balance:
/// - a money loan whose whole remaining debt the balance covers is paid in
///   full, and the rest are planned from what is left;
/// - with partial repayment on, a money loan the balance cannot cover takes
///   the whole positive balance, and the rest are planned from nothing;
/// - with partial repayment off, such a loan is skipped: the rest are
///   planned from the same balance, exactly as if it were not there;
/// - a loan that is not money, owes nothing, or meets no balance is skipped
///   in the same way.
pub proof fn lemma_auto_plan_turns(loans: Seq<(i64, bool, int)>, balance: int, allow_partial: bool)
    requires
        loans.len() > 0,
    ensures
        ({
            let (id, is_money, remaining) = loans[0];
            let rest = loans.skip(1);
            &&& (is_money && 0 < remaining <= balance) ==> auto_plan(loans, balance, allow_partial)
                == seq![(id, remaining)] + auto_plan(rest, balance - remaining, allow_partial)
            &&& (allow_partial && is_money && 0 < balance < remaining) ==> auto_plan(
                loans,
                balance,
                allow_partial,
            ) == seq![(id, balance)] + auto_plan(rest, 0, allow_partial)
            &&& (!allow_partial && is_money && 0 < balance < remaining) ==> auto_plan(
                loans,
                balance,
                allow_partial,
            ) == auto_plan(rest, balance, allow_partial)
            &&& (!is_money || remaining <= 0 || balance <= 0) ==> auto_plan(loans, balance, allow_partial)
                == auto_plan(rest, balance, allow_partial)
        }),
{
}

/// With partial repayment off, every payment clears a loan's whole
/// remaining debt: the plan pays a loan either everything it still owes or
/// nothing.
pub proof fn lemma_no_partial_pays_in_full(loans: Seq<(i64, bool, int)>, balance: int)
    ensures
        forall|k: int|
            0 <= k < auto_plan(loans, balance, false).len() ==> exists|j: int|
                0 <= j < loans.len() && #[trigger] auto_plan(loans, balance, false)[k] == (
                    loans[j].0,
                    loans[j].2,
                ),
    decreases loans.len(),
{
    if loans.len() > 0 {
        let (id, is_money, remaining) = loans[0];
        let rest = loans.skip(1);
        let plan = auto_plan(loans, balance, false);
        if is_money && 0 < remaining <= balance {
            lemma_no_partial_pays_in_full(rest, balance - remaining);
            assert forall|k: int| 0 <= k < plan.len() implies exists|j: int|
                0 <= j < loans.len() && #[trigger] plan[k] == (loans[j].0, loans[j].2) by {
                if k == 0 {
                    assert(plan[0] == (loans[0].0, loans[0].2));
                } else {
                    let q = auto_plan(rest, balance - remaining, false);
                    assert(plan[k] == q[k - 1]);
                    let j = choose|j: int| 0 <= j < rest.len() && #[trigger] q[k - 1] == (rest[j].0, rest[j].2);
                    assert(rest[j] == loans[j + 1]);
                }
            }
        } else {
            lemma_no_partial_pays_in_full(rest, balance);
            assert forall|k: int| 0 <= k < plan.len() implies exists|j: int|
                0 <= j < loans.len() && #[trigger] plan[k] == (loans[j].0, loans[j].2) by {
                let q = auto_plan(rest, balance, false);
                let j = choose|j: int| 0 <= j < rest.len() && #[trigger] q[k] == (rest[j].0, rest[j].2);
                assert(rest[j] == loans[j + 1]);
            }
        }
    }
}

/// The total of a sequence of payments.
pub open spec fn total_paid(plan: Seq<(i64, int)>) -> int
    decreases plan.len(),
{
    if plan.len() == 0 {
        0
    } else {
        plan[0].1 + total_paid(plan.skip(1))
    }
}

/// One automatic payment towards a loan.
#[derive(Clone, Copy, Debug)]
pub struct AutoRepayment {
    pub loan_id: i64,
    pub payment_mana: i64,
}

/// What an automatic repayment run paid.
#[derive(Clone, Debug)]
pub struct AutoRepaySummary {
    pub repaid_loans: u64,
    pub total_paid_mana: i64,
    pub loan_ids: Vec<i64>,
}

proof fn lemma_auto_plan_bounds(loans: Seq<(i64, bool, int)>, balance: int, allow_partial: bool)
    requires
        balance >= 0,
    ensures
        0 <= total_paid(auto_plan(loans, balance, allow_partial)) <= balance,
        auto_plan(loans, balance, allow_partial).len() <= loans.len(),
        forall|k: int|
            0 <= k < auto_plan(loans, balance, allow_partial).len() ==> #[trigger] auto_plan(
                loans,
                balance,
                allow_partial,
            )[k].1 > 0,
    decreases loans.len(),
{
    if loans.len() > 0 {
        let (id, is_money, remaining) = loans[0];
        let pay = if is_money && remaining > 0 && balance > 0 {
            auto_payment(allow_partial, balance, remaining)
        } else {
            0
        };
        lemma_auto_plan_bounds(loans.skip(1), balance - (if pay > 0 { pay } else { 0 }), allow_partial);
        if pay > 0 {
            let rest = auto_plan(loans.skip(1), balance - pay, allow_partial);
            let all = seq![(id, pay)] + rest;
            assert(all.skip(1) =~= rest);
            assert forall|k: int| 0 <= k < all.len() implies #[trigger] all[k].1 > 0 by {
                if k > 0 {
                    assert(all[k] == rest[k - 1]);
                }
            }
        }
    }
}

/// Plans the bot's automatic money repayments: loans are taken in order,
/// and each money loan with something still owed gets the automatic payment
/// that the remaining balance allows. The summary counts the loans paid and
/// totals the payments.
pub fn plan_auto_repayments(loans: &Vec<DueMoneyLoan>, starting_balance: i64, allow_partial: bool) -> (r: (
    Vec<AutoRepayment>,
    AutoRepaySummary,
))
    requires
        forall|k: int|
            0 <= k < loans.len() ==> i64::MIN <= (#[trigger] loans@[k]).repayment_mana.unwrap_or(0)
                - loans@[k].already_repaid_mana <= i64::MAX,
    ensures
        ({
            let plan = auto_plan(
                loans@.map_values(|l: DueMoneyLoan| due_view(l)),
                starting_balance as int,
                allow_partial,
            );
            &&& r.0@.len() == plan.len()
            &&& forall|k: int|
                0 <= k < plan.len() ==> (#[trigger] r.0@[k]).loan_id == plan[k].0
                    && r.0@[k].payment_mana == plan[k].1
            &&& r.1.repaid_loans == plan.len()
            &&& r.1.total_paid_mana == total_paid(plan)
            &&& r.1.loan_ids@ == r.0@.map_values(|p: AutoRepayment| p.loan_id)
        }),
{
    let ghost view = loans@.map_values(|l: DueMoneyLoan| due_view(l));
    let ghost start = starting_balance as int;
    let mut balance = starting_balance;
    let mut payments: Vec<AutoRepayment> = Vec::new();
    let mut ids: Vec<i64> = Vec::new();
    let mut total: i64 = 0;
    let mut count: u64 = 0;
    let mut i: usize = 0;
    proof {
        if start >= 0 {
            lemma_auto_plan_bounds(view, start, allow_partial);
        }
        assert(view.skip(0) =~= view);
    }
    while i < loans.len()
        invariant
            i <= loans.len(),
            view == loans@.map_values(|l: DueMoneyLoan| due_view(l)),
            forall|k: int|
                0 <= k < loans.len() ==> i64::MIN <= (#[trigger] loans@[k]).repayment_mana.unwrap_or(
                    0,
                ) - loans@[k].already_repaid_mana <= i64::MAX,
            ({
                let done = payments@.map_values(|p: AutoRepayment| (p.loan_id, p.payment_mana as int));
                done + auto_plan(view.skip(i as int), balance as int, allow_partial) == auto_plan(
                    view,
                    start,
                    allow_partial,
                )
            }),
            count == payments@.len(),
            ids@ == payments@.map_values(|p: AutoRepayment| p.loan_id),
            total as int == total_paid(payments@.map_values(|p: AutoRepayment| (p.loan_id, p.payment_mana as int))),
            start == starting_balance as int,
            start > 0 ==> 0 <= balance <= start,
            start > 0 ==> total as int + balance as int == start,
            start <= 0 ==> payments@.len() == 0 && balance == starting_balance,
            payments@.len() <= i,
        decreases loans.len() - i,
    {
        let loan = &loans[i];
        let ghost rest = view.skip(i as int);
        assert(rest[0] == due_view(*loan));
        assert(rest.skip(1) =~= view.skip(i + 1));
        let is_money = str_eq(loan.asset_type.as_str(), "money");
        let due = match loan.repayment_mana {
            Some(d) => d,
            None => 0,
        };
        let owed = due - loan.already_repaid_mana;
        let remaining: i64 = if owed > 0 {
            owed
        } else {
            0
        };
        let pay: i64 = if is_money && remaining > 0 && balance > 0 {
            auto_repay_payment(allow_partial, balance, remaining)
        } else {
            0
        };
        let ghost before = payments@.map_values(|p: AutoRepayment| (p.loan_id, p.payment_mana as int));
        if pay > 0 {
            let p = AutoRepayment { loan_id: loan.loan_id, payment_mana: pay };
            payments.push(p);
            ids.push(loan.loan_id);
            proof {
                let after = payments@.map_values(|q: AutoRepayment| (q.loan_id, q.payment_mana as int));
                assert(after =~= before.push((loan.loan_id, pay as int)));
                lemma_total_paid_push(before, (loan.loan_id, pay as int));
                assert(after + auto_plan(view.skip(i + 1), balance - pay, allow_partial) =~= before
                    + (seq![(loan.loan_id, pay as int)] + auto_plan(
                    view.skip(i + 1),
                    balance - pay,
                    allow_partial,
                )));
            }
            total = total + pay;
            balance = balance - pay;
            count = count + 1;
        }
        i = i + 1;
    }
    proof {
        assert(view.skip(loans.len() as int).len() == 0);
        assert(payments@.map_values(|p: AutoRepayment| (p.loan_id, p.payment_mana as int)) =~= auto_plan(
            view,
            start,
            allow_partial,
        ));
    }
    (payments, AutoRepaySummary { repaid_loans: count, total_paid_mana: total, loan_ids: ids })
}

proof fn lemma_total_paid_push(plan: Seq<(i64, int)>, last: (i64, int))
    ensures
        total_paid(plan.push(last)) == total_paid(plan) + last.1,
    decreases plan.len(),
{
    let pushed = plan.push(last);
    if plan.len() == 0 {
        assert(pushed.skip(1) =~= Seq::<(i64, int)>::empty());
        assert(total_paid(pushed.skip(1)) == 0);
        assert(total_paid(pushed) == pushed[0].1 + total_paid(pushed.skip(1)));
    } else {
        assert(pushed.skip(1) =~= plan.skip(1).push(last));
        lemma_total_paid_push(plan.skip(1), last);
        assert(total_paid(pushed) == pushed[0].1 + total_paid(pushed.skip(1)));
        assert(total_paid(plan) == plan[0].1 + total_paid(plan.skip(1)));
    }
}

/// The bot never pays more in one automatic repayment run than the balance
/// it started with, and every payment it makes is positive and no larger
/// than what is owed on that loan.
pub proof fn lemma_auto_repay_within_balance(
    loans: Seq<(i64, bool, int)>,
    balance: int,
    allow_partial: bool,
)
    requires
        balance >= 0,
    ensures
        total_paid(auto_plan(loans, balance, allow_partial)) <= balance,
        forall|k: int|
            0 <= k < auto_plan(loans, balance, allow_partial).len() ==> #[trigger] auto_plan(
                loans,
                balance,
                allow_partial,
            )[k].1 > 0,
{
    lemma_auto_plan_bounds(loans, balance, allow_partial);
}

/// Whether the bot accepts a pending loan offer on its own: a money loan at
/// no more than its interest ceiling and lasting at least its minimum
/// duration, measured in whole seconds from creation to due date.
pub open spec fn auto_acceptable(
    asset_type: Seq<char>,
    interest_bps: i64,
    created_at: int,
    due_at: int,
    max_interest_bps: i64,
    min_duration_seconds: i64,
) -> bool {
    &&& asset_type == "money"@
    &&& interest_bps <= max_interest_bps
    &&& whole_seconds(due_at - created_at) >= min_duration_seconds
}

/// Decides whether the bot accepts a pending loan offer on its own; stored
/// timestamps that cannot be read are reported.
pub fn loan_auto_acceptable(
    asset_type: &str,
    interest_bps: i64,
    created_at: &str,
    due_at: &str,
    max_interest_bps: i64,
    min_duration_seconds: i64,
) -> (r: Result<bool, AppError>)
    ensures
        match parsed_instant(created_at@) {
            None => fails_with(r, ErrorKind::Other, "invalid RFC3339 timestamp: "@ + created_at@),
            Some(c) => match parsed_instant(due_at@) {
                None => fails_with(r, ErrorKind::Other, "invalid RFC3339 timestamp: "@ + due_at@),
                Some(d) => r == Ok::<bool, AppError>(
                    auto_acceptable(
                        asset_type@,
                        interest_bps,
                        c,
                        d,
                        max_interest_bps,
                        min_duration_seconds,
                    ),
                ),
            },
        },
{
    let created = parse_rfc3339_utc(created_at)?;
    let due = parse_rfc3339_utc(due_at)?;
    let duration = span_whole_seconds(created, due);
    Ok(
        str_eq(asset_type, "money") && interest_bps <= max_interest_bps && duration >= (
        min_duration_seconds as i128)
    )
}

/// Which side of a loan a member is on.
pub fn loan_direction(lender_user_id: &str, user_id: &str) -> (r: &'static str)
    ensures
        r@ == (if lender_user_id@ == user_id@ {
            "lent"@
        } else {
            "borrowed"@
        }),
{
    if str_eq(lender_user_id, user_id) {
        "lent"
    } else {
        "borrowed"
    }
}

/// The first reason, if any, a money donation is refused before balances
/// are looked at.
pub open spec fn donation_precheck_refusal(
    allow_money_donations: bool,
    min_money_transfer: i64,
    sender: Seq<char>,
    recipient: Seq<char>,
    amount_mana: i64,
) -> Option<Refusal> {
    if !allow_money_donations {
        Some((ErrorKind::Conflict, "money donations are disabled by server policy"@))
    } else if sender == recipient {
        Some((ErrorKind::Validation, "you cannot donate money to yourself"@))
    } else if amount_mana < min_money_transfer {
        Some(
            (
                ErrorKind::Validation,
                "money donations must be at least "@ + int_decimal(min_money_transfer as int),
            ),
        )
    } else {
        None
    }
}

/// Checks a money donation before any account is touched: donations must
/// be allowed, go to someone else and reach the minimum transfer.
pub fn check_money_donation(
    allow_money_donations: bool,
    min_money_transfer: i64,
    sender_user_id: &str,
    recipient_user_id: &str,
    amount_mana: i64,
) -> (r: Result<(), AppError>)
    ensures
        match donation_precheck_refusal(
            allow_money_donations,
            min_money_transfer,
            sender_user_id@,
            recipient_user_id@,
            amount_mana,
        ) {
            Some(f) => refused_as(r, f),
            None => r is Ok,
        },
{
    if !allow_money_donations {
        return Err(AppError::Conflict(owned("money donations are disabled by server policy")));
    }
    if str_eq(sender_user_id, recipient_user_id) {
        return Err(AppError::Validation(owned("you cannot donate money to yourself")));
    }
    if amount_mana < min_money_transfer {
        let mut m = owned("money donations must be at least ");
        push_int_decimal(&mut m, min_money_transfer);
        return Err(AppError::Validation(m));
    }
    Ok(())
}

/// Decides a money donation given the sender's balance: the checks above,
/// then the sender must hold the amount. On success the amount moves from
/// sender to recipient.
pub fn plan_money_donation(
    allow_money_donations: bool,
    min_money_transfer: i64,
    sender_user_id: &str,
    recipient_user_id: &str,
    amount_mana: i64,
    sender_balance: i64,
) -> (r: Result<i64, AppError>)
    ensures
        match donation_precheck_refusal(
            allow_money_donations,
            min_money_transfer,
            sender_user_id@,
            recipient_user_id@,
            amount_mana,
        ) {
            Some(f) => refused_as(r, f),
            None => if sender_balance < amount_mana {
                fails_with(r, ErrorKind::Conflict, "you do not have enough balance for that donation"@)
            } else {
                r == Ok::<i64, AppError>(amount_mana)
            },
        },
{
    check_money_donation(
        allow_money_donations,
        min_money_transfer,
        sender_user_id,
        recipient_user_id,
        amount_mana,
    )?;
    if sender_balance < amount_mana {
        return Err(AppError::Conflict(owned("you do not have enough balance for that donation")));
    }
    Ok(amount_mana)
}

/// What a money donation moved.
#[derive(Clone, Debug)]
pub struct MoneyDonationReceipt {
    pub recipient_display_name: String,
    pub amount_mana: i64,
    pub sender_balance_mana: i64,
}

/// Balances of a guild's members, by member id.
pub type Ledger = Map<Seq<char>, int>;

/// The ledger after `amount` moves from `from` to `to`.
pub open spec fn move_money(ledger: Ledger, from: Seq<char>, to: Seq<char>, amount: int) -> Ledger {
    ledger.insert(from, ledger[from] - amount).insert(to, ledger[to] + amount)
}

/// Moving money between two members changes nobody else's balance and
/// keeps the sum of the two balances.
pub proof fn lemma_move_money_conserves(ledger: Ledger, from: Seq<char>, to: Seq<char>, amount: int)
    requires
        from != to,
    ensures
        move_money(ledger, from, to, amount)[from] + move_money(ledger, from, to, amount)[to]
            == ledger[from] + ledger[to],
        forall|other: Seq<char>|
            other != from && other != to ==> #[trigger] move_money(ledger, from, to, amount)[other]
                == ledger[other],
{
}

/// A donation that is accepted never leaves the sender with a negative
/// balance when the sender had none, and moves exactly the amount asked
/// for.
pub proof fn lemma_donation_never_overdraws(
    ledger: Ledger,
    sender: Seq<char>,
    recipient: Seq<char>,
    amount: int,
)
    requires
        sender != recipient,
        ledger[sender] >= amount,
        amount >= 0,
    ensures
        move_money(ledger, sender, recipient, amount)[sender] >= 0,
        move_money(ledger, sender, recipient, amount)[recipient] == ledger[recipient] + amount,
{
}

} // verus!
