//! Bonds: issuing them against a payout escrow reserved up front, buying
//! them, paying them out at maturity, and the rules by which the bot buys
//! them for itself.

use vstd::prelude::*;

use crate::clock::{
    instant_in_range, parse_rfc3339_utc, parsed_instant, span_whole_seconds, whole_seconds,
};
use crate::config::{BondPolicyConfig, BotPolicyConfig};
use crate::error::{fails_with, AppError, ErrorKind};
use crate::social::{refused_as, Refusal};
use crate::users::display_name_or_id;
use crate::text::{
    int_decimal, owned, push_int_decimal, push_str, push_wide_int_decimal, str_eq, trim, trim_seq,
};

verus! {

/// A member's request to issue bonds. Instants are nanoseconds since the
/// Unix epoch.
#[derive(Clone, Debug)]
pub struct CreateBondRequest {
    pub guild_id: String,
    pub issuer_user_id: String,
    pub issuer_display_name: String,
    pub title: String,
    pub description: Option<String>,
    pub price_per_bond_mana: i64,
    pub total_bonds: i64,
    pub yield_bps: i64,
    pub yield_period_seconds: Option<i64>,
    pub matures_at: i128,
}

/// What issuing bonds reserved and recorded.
#[derive(Clone, Debug)]
pub struct CreateBondReceipt {
    pub issuance_id: i64,
    pub title: String,
    pub price_per_bond_mana: i64,
    pub payout_per_bond_mana: i64,
    pub total_bonds: i64,
    pub yield_bps: i64,
    pub yield_period_seconds: i64,
    pub matures_at: i128,
    pub escrow_reserved_mana: i64,
    pub issuer_balance_mana: i64,
}

/// One bond issuance as listed to members.
#[derive(Clone, Debug)]
pub struct BondListing {
    pub issuance_id: i64,
    pub title: String,
    pub issuer_display_name: String,
    pub price_per_bond_mana: i64,
    pub payout_per_bond_mana: i64,
    pub total_bonds: i64,
    pub remaining_bonds: i64,
    pub yield_bps: i64,
    pub yield_period_seconds: i64,
    pub matures_at: i128,
    pub status: String,
}

/// What a bond purchase cost and will pay.
#[derive(Clone, Debug)]
pub struct BondPurchaseReceipt {
    pub issuance_id: i64,
    pub title: String,
    pub quantity: i64,
    pub spent_mana: i64,
    pub payout_at_maturity_mana: i64,
    pub remaining_bonds: i64,
    pub buyer_balance_mana: i64,
}

/// The limits within which the bot buys bonds.
#[derive(Clone, Debug)]
pub struct BotBondPolicy {
    pub min_yield_bps: i64,
    pub max_yield_bps: i64,
    pub min_maturity_seconds: i64,
    pub max_maturity_seconds: i64,
    pub max_price_mana: i64,
    pub max_purchase_quantity: i64,
    pub max_total_exposure_mana: i64,
}

/// The bot's answer to a member offering it a bond.
#[derive(Clone, Debug)]
pub struct BotBondOfferOutcome {
    pub accepted: bool,
    pub quantity: i64,
    pub reason: String,
    pub receipt: Option<BondPurchaseReceipt>,
}

/// A member's holding in one bond issuance.
#[derive(Clone, Debug)]
pub struct BondPositionLine {
    pub issuance_id: i64,
    pub title: String,
    pub issuer_display_name: String,
    pub bonds_owned: i64,
    pub total_spent_mana: i64,
    pub total_redeemed_mana: i64,
    pub payout_per_bond_mana: i64,
    pub projected_payout_mana: i64,
    pub matures_at: i128,
    pub status: String,
}

/// What paying out one matured issuance did.
#[derive(Clone, Debug)]
pub struct MaturedBondSummary {
    pub issuance_id: i64,
    pub guild_id: String,
    pub title: String,
    pub holders_paid: i64,
    pub total_paid_mana: i64,
    pub issuer_refund_mana: i64,
}

/// A bond issuance as stored; `matures_at` is RFC 3339 text.
#[derive(Clone, Debug)]
pub struct BondIssuanceRow {
    pub id: i64,
    pub guild_id: String,
    pub issuer_discord_user_id: String,
    pub title: String,
    pub price_per_bond_mana: i64,
    pub payout_per_bond_mana: i64,
    pub total_bonds: i64,
    pub remaining_bonds: i64,
    pub escrow_reserved_mana: i64,
    pub yield_bps: i64,
    pub yield_period_seconds: i64,
    pub matures_at: String,
    pub status: String,
}

/// Refuses to issue bonds where the server has them switched off.
pub fn require_bonds_enabled(policy: &BondPolicyConfig) -> (r: Result<(), AppError>)
    ensures
        !policy.enabled ==> fails_with(r, ErrorKind::Conflict, "bonds are disabled by server policy"@),
        policy.enabled ==> r is Ok,
{
    if !policy.enabled {
        return Err(AppError::Conflict(owned("bonds are disabled by server policy")));
    }
    Ok(())
}

/// A bond request the server's policy allows: a title that is not blank,
/// a positive price and supply, a yield from 0 to the policy maximum, and a
/// maturity whose whole seconds from `now` lie within the policy's bounds.
pub open spec fn request_within_policy(policy: BondPolicyConfig, request: CreateBondRequest, now: int) -> bool {
    &&& trim_seq(request.title@).len() > 0
    &&& request.price_per_bond_mana > 0
    &&& request.total_bonds > 0
    &&& 0 <= request.yield_bps <= policy.max_yield_bps
    &&& policy.min_maturity_seconds <= whole_seconds(request.matures_at - now) <= policy.max_maturity_seconds
}

/// The first reason, if any, a bond request made at `now` is malformed:
/// an empty title, a price or size that is not positive, a yield outside
/// the server range, or a maturity outside the server window.
pub open spec fn bond_request_refusal(policy: BondPolicyConfig, request: CreateBondRequest, now: int) -> Option<
    Refusal,
> {
    let maturity = whole_seconds(request.matures_at - now);
    if trim_seq(request.title@).len() == 0 {
        Some((ErrorKind::Validation, "bond title cannot be empty"@))
    } else if request.price_per_bond_mana <= 0 {
        Some((ErrorKind::Validation, "bond price must be positive"@))
    } else if request.total_bonds <= 0 {
        Some((ErrorKind::Validation, "total bonds must be positive"@))
    } else if request.yield_bps < 0 || request.yield_bps > policy.max_yield_bps {
        Some(
            (
                ErrorKind::Validation,
                "yield_bps must be between 0 and "@ + int_decimal(policy.max_yield_bps as int),
            ),
        )
    } else if maturity < policy.min_maturity_seconds || maturity > policy.max_maturity_seconds {
        Some(
            (
                ErrorKind::Validation,
                "maturity must be between "@ + int_decimal(policy.min_maturity_seconds as int)
                    + " and "@ + int_decimal(policy.max_maturity_seconds as int)
                    + " seconds from now"@,
            ),
        )
    } else {
        None
    }
}

/// Checks a bond request made at `now` against the server's bond rules.
pub fn validate_bond_request(policy: &BondPolicyConfig, request: &CreateBondRequest, now: i128) -> (r:
    Result<(), AppError>)
    requires
        instant_in_range(now as int),
        instant_in_range(request.matures_at as int),
    ensures
        match bond_request_refusal(*policy, *request, now as int) {
            Some(f) => refused_as(r, f),
            None => r is Ok,
        },
        r is Ok ==> request_within_policy(*policy, *request, now as int),
{
    if trim(request.title.as_str()).unicode_len() == 0 {
        return Err(AppError::Validation(owned("bond title cannot be empty")));
    }
    if request.price_per_bond_mana <= 0 {
        return Err(AppError::Validation(owned("bond price must be positive")));
    }
    if request.total_bonds <= 0 {
        return Err(AppError::Validation(owned("total bonds must be positive")));
    }
    if request.yield_bps < 0 || request.yield_bps > policy.max_yield_bps {
        let mut m = owned("yield_bps must be between 0 and ");
        push_int_decimal(&mut m, policy.max_yield_bps);
        return Err(AppError::Validation(m));
    }
    let maturity = span_whole_seconds(now, request.matures_at);
    if maturity < policy.min_maturity_seconds as i128 || maturity > policy.max_maturity_seconds as i128 {
        let mut m = owned("maturity must be between ");
        push_int_decimal(&mut m, policy.min_maturity_seconds);
        push_str(&mut m, " and ");
        push_int_decimal(&mut m, policy.max_maturity_seconds);
        push_str(&mut m, " seconds from now");
        return Err(AppError::Validation(m));
    }
    Ok(())
}

/// The yield period a request ends up with: its own or the server default.
pub open spec fn requested_yield_period(policy: BondPolicyConfig, request: CreateBondRequest) -> int {
    request.yield_period_seconds.unwrap_or(policy.default_yield_period_seconds) as int
}

/// The first reason, if any, an issuer with `open_count` open issuances
/// may not issue the requested bonds at `now`.
pub open spec fn bond_issue_refusal(
    policy: BondPolicyConfig,
    request: CreateBondRequest,
    open_count: i64,
    now: int,
) -> Option<Refusal> {
    if !policy.enabled {
        Some((ErrorKind::Conflict, "bonds are disabled by server policy"@))
    } else if bond_request_refusal(policy, request, now) is Some {
        bond_request_refusal(policy, request, now)
    } else if open_count >= policy.max_open_issuances_per_user {
        Some(
            (
                ErrorKind::Conflict,
                "you already have the maximum number of open bond issuances ("@ + int_decimal(
                    policy.max_open_issuances_per_user as int,
                ) + ")"@,
            ),
        )
    } else if requested_yield_period(policy, request) <= 0 {
        Some((ErrorKind::Validation, "yield period must be positive"@))
    } else {
        None
    }
}

/// Issuing is allowed exactly when bonds are enabled, the request keeps to
/// every limit of the policy, the issuer has room for another open
/// issuance, and the yield period is positive; a maturity outside the
/// policy's bounds is always refused.
pub proof fn lemma_issues_only_within_policy(
    policy: BondPolicyConfig,
    request: CreateBondRequest,
    open_count: i64,
    now: int,
)
    ensures
        bond_request_refusal(policy, request, now) is None <==> request_within_policy(policy, request, now),
        bond_issue_refusal(policy, request, open_count, now) is None <==> (policy.enabled && request_within_policy(
            policy,
            request,
            now,
        ) && open_count < policy.max_open_issuances_per_user && requested_yield_period(policy, request) > 0),
        (whole_seconds(request.matures_at - now) < policy.min_maturity_seconds || whole_seconds(
            request.matures_at - now,
        ) > policy.max_maturity_seconds) ==> bond_issue_refusal(policy, request, open_count, now) is Some,
{
}

/// Decides whether an issuer holding `open_count` open issuances may issue
/// the requested bonds at `now`, and with which yield period (the request's
/// own, or the server default).
pub fn check_bond_request(
    policy: &BondPolicyConfig,
    request: &CreateBondRequest,
    open_count: i64,
    now: i128,
) -> (r: Result<i64, AppError>)
    requires
        instant_in_range(now as int),
        instant_in_range(request.matures_at as int),
    ensures
        match bond_issue_refusal(*policy, *request, open_count, now as int) {
            Some(f) => refused_as(r, f),
            None => r == Ok::<i64, AppError>(requested_yield_period(*policy, *request) as i64),
        },
        r matches Ok(period) ==> policy.enabled && request_within_policy(*policy, *request, now as int)
            && open_count < policy.max_open_issuances_per_user && period > 0,
{
    require_bonds_enabled(policy)?;
    validate_bond_request(policy, request, now)?;
    if open_count >= policy.max_open_issuances_per_user {
        let mut m = owned("you already have the maximum number of open bond issuances (");
        push_int_decimal(&mut m, policy.max_open_issuances_per_user);
        push_str(&mut m, ")");
        return Err(AppError::Conflict(m));
    }
    let period = match request.yield_period_seconds {
        Some(p) => p,
        None => policy.default_yield_period_seconds,
    };
    if period <= 0 {
        return Err(AppError::Validation(owned("yield period must be positive")));
    }
    Ok(period)
}

/// The number of whole yield periods, rounded up and at least one, in the
/// time from `now` to maturity (itself at least one second).
pub open spec fn yield_periods(matures_at: int, now: int, period_seconds: int) -> int {
    let duration = if whole_seconds(matures_at - now) > 1 {
        whole_seconds(matures_at - now)
    } else {
        1
    };
    let periods = (duration + period_seconds - 1) / period_seconds;
    if periods > 1 {
        periods
    } else {
        1
    }
}

/// How many yield periods a bond maturing at `matures_at` compounds over
/// when issued at `now`.
pub fn bond_yield_periods(period_seconds: i64, matures_at: i128, now: i128) -> (r: i128)
    requires
        period_seconds > 0,
        instant_in_range(now as int),
        instant_in_range(matures_at as int),
    ensures
        r == yield_periods(matures_at as int, now as int, period_seconds as int),
        r >= 1,
{
    let span = span_whole_seconds(now, matures_at);
    let duration: i128 = if span > 1 {
        span
    } else {
        1
    };
    let p = period_seconds as i128;
    let periods = (duration + p - 1) / p;
    if periods > 1 {
        periods
    } else {
        1
    }
}

/// The first reason, if any, a payout of `payout_per_bond` on each of
/// `total_bonds` bonds cannot be escrowed from `issuer_balance`.
pub open spec fn escrow_refusal(payout_per_bond: i64, total_bonds: i64, issuer_balance: i64) -> Option<
    Refusal,
> {
    let escrow = payout_per_bond * total_bonds;
    if payout_per_bond <= 0 {
        Some((ErrorKind::Validation, "bond payout must be positive"@))
    } else if escrow > i64::MAX || escrow < i64::MIN {
        Some((ErrorKind::Validation, "bond escrow was too large"@))
    } else if issuer_balance < escrow {
        Some(
            (
                ErrorKind::Conflict,
                "issuer needs "@ + int_decimal(escrow) + " available to reserve full bond payout escrow"@,
            ),
        )
    } else {
        None
    }
}

/// The escrow an issuer reserves for a new issuance: the full payout of
/// every bond, which the issuer's balance must cover.
pub fn plan_bond_escrow(payout_per_bond: i64, total_bonds: i64, issuer_balance: i64) -> (r: Result<
    i64,
    AppError,
>)
    ensures
        match escrow_refusal(payout_per_bond, total_bonds, issuer_balance) {
            Some(f) => refused_as(r, f),
            None => r == Ok::<i64, AppError>((payout_per_bond * total_bonds) as i64),
        },
{
    if payout_per_bond <= 0 {
        return Err(AppError::Validation(owned("bond payout must be positive")));
    }
    let escrow = match payout_per_bond.checked_mul(total_bonds) {
        Some(e) => e,
        None => {
            return Err(AppError::Validation(owned("bond escrow was too large")));
        },
    };
    if issuer_balance < escrow {
        let mut m = owned("issuer needs ");
        push_int_decimal(&mut m, escrow);
        push_str(&mut m, " available to reserve full bond payout escrow");
        return Err(AppError::Conflict(m));
    }
    Ok(escrow)
}

/// Refuses a bond purchase of a quantity that is not positive.
pub fn require_positive_quantity(quantity: i64) -> (r: Result<(), AppError>)
    ensures
        quantity <= 0 ==> fails_with(r, ErrorKind::Validation, "bond quantity must be positive"@),
        quantity > 0 ==> r is Ok,
{
    if quantity <= 0 {
        return Err(AppError::Validation(owned("bond quantity must be positive")));
    }
    Ok(())
}

/// The error for an issuance id that the guild does not have.
pub fn issuance_not_found(issuance_id: i64) -> (e: AppError)
    ensures
        e.kind() == ErrorKind::NotFound,
        e.message() == "bond issuance "@ + int_decimal(issuance_id as int) + " was not found"@,
{
    let mut m = owned("bond issuance ");
    push_int_decimal(&mut m, issuance_id);
    push_str(&mut m, " was not found");
    AppError::NotFound(m)
}

/// A server sees only its own bond issuances: the stored issuance with id
/// `issuance_id` when there is one and it belongs to `guild_id`; otherwise
/// it is not found.
pub fn issuance_in_guild(guild_id: &str, issuance_id: i64, found: Option<BondIssuanceRow>) -> (r: Result<
    BondIssuanceRow,
    AppError,
>)
    ensures
        if found matches Some(i) && i.guild_id@ == guild_id@ && i.id == issuance_id {
            r == Ok::<BondIssuanceRow, AppError>(found->0)
        } else {
            fails_with(r, ErrorKind::NotFound, "bond issuance "@ + int_decimal(issuance_id as int) + " was not found"@)
        },
{
    match found {
        Some(i) => {
            if str_eq(i.guild_id.as_str(), guild_id) && i.id == issuance_id {
                return Ok(i);
            }
        },
        None => {},
    }
    Err(issuance_not_found(issuance_id))
}

/// Why an issuance that is no longer open cannot be traded.
pub open spec fn not_open_refusal(issuance: BondIssuanceRow) -> Option<Refusal> {
    if issuance.status@ != "open"@ {
        Some(
            (
                ErrorKind::Conflict,
                "bond issuance #"@ + int_decimal(issuance.id as int) + " is not open; current status is "@
                    + issuance.status@,
            ),
        )
    } else {
        None
    }
}

/// Refuses to trade an issuance that is no longer open.
pub fn require_open_issuance(issuance: &BondIssuanceRow) -> (r: Result<(), AppError>)
    ensures
        match not_open_refusal(*issuance) {
            Some(f) => refused_as(r, f),
            None => r is Ok,
        },
{
    if !str_eq(issuance.status.as_str(), "open") {
        let mut m = owned("bond issuance #");
        push_int_decimal(&mut m, issuance.id);
        push_str(&mut m, " is not open; current status is ");
        push_str(&mut m, issuance.status.as_str());
        return Err(AppError::Conflict(m));
    }
    Ok(())
}

/// The money side of a bond purchase.
#[derive(Clone, Copy, Debug)]
pub struct BondPurchase {
    /// What the buyer pays the issuer.
    pub cost_mana: i64,
    /// What the bought bonds pay at maturity.
    pub payout_at_maturity_mana: i64,
    /// Bonds left in the issuance afterwards.
    pub remaining_bonds: i64,
}

/// `v` fits in a signed 64-bit integer.
pub open spec fn fits_i64(v: int) -> bool {
    i64::MIN <= v <= i64::MAX
}

/// The first reason, if any, `buyer` may not buy `quantity` bonds of the
/// issuance with `buyer_balance` to spend.
pub open spec fn purchase_refusal(
    issuance: BondIssuanceRow,
    buyer: Seq<char>,
    quantity: i64,
    buyer_balance: i64,
) -> Option<Refusal> {
    let cost = issuance.price_per_bond_mana * quantity;
    if quantity <= 0 {
        Some((ErrorKind::Validation, "bond quantity must be positive"@))
    } else if not_open_refusal(issuance) is Some {
        not_open_refusal(issuance)
    } else if issuance.issuer_discord_user_id@ == buyer {
        Some((ErrorKind::Validation, "you cannot buy your own bond issuance"@))
    } else if issuance.remaining_bonds < quantity {
        Some(
            (
                ErrorKind::Conflict,
                "only "@ + int_decimal(issuance.remaining_bonds as int)
                    + " bonds remain in that issuance"@,
            ),
        )
    } else if !fits_i64(cost) {
        Some((ErrorKind::Validation, "bond cost was too large"@))
    } else if !fits_i64(issuance.payout_per_bond_mana * quantity) {
        Some((ErrorKind::Validation, "bond payout was too large"@))
    } else if buyer_balance < cost {
        Some((ErrorKind::Conflict, "you do not have enough balance to buy those bonds"@))
    } else {
        None
    }
}

/// Decides a purchase of `quantity` bonds by `buyer_user_id`: the quantity
/// must be positive, the issuance open and not the buyer's own, enough
/// bonds must remain and the buyer must afford them. The buyer then pays
/// the issuer the price of every bond and the issuance's supply shrinks.
pub fn plan_bond_purchase(
    issuance: &BondIssuanceRow,
    buyer_user_id: &str,
    quantity: i64,
    buyer_balance: i64,
) -> (r: Result<BondPurchase, AppError>)
    ensures
        match purchase_refusal(*issuance, buyer_user_id@, quantity, buyer_balance) {
            Some(f) => refused_as(r, f),
            None => r matches Ok(p) && {
                &&& p.cost_mana == issuance.price_per_bond_mana * quantity
                &&& p.payout_at_maturity_mana == issuance.payout_per_bond_mana * quantity
                &&& p.remaining_bonds == issuance.remaining_bonds - quantity
            },
        },
{
    require_positive_quantity(quantity)?;
    require_open_issuance(issuance)?;
    if str_eq(issuance.issuer_discord_user_id.as_str(), buyer_user_id) {
        return Err(AppError::Validation(owned("you cannot buy your own bond issuance")));
    }
    if issuance.remaining_bonds < quantity {
        let mut m = owned("only ");
        push_int_decimal(&mut m, issuance.remaining_bonds);
        push_str(&mut m, " bonds remain in that issuance");
        return Err(AppError::Conflict(m));
    }
    let cost = match issuance.price_per_bond_mana.checked_mul(quantity) {
        Some(c) => c,
        None => {
            return Err(AppError::Validation(owned("bond cost was too large")));
        },
    };
    let payout = match issuance.payout_per_bond_mana.checked_mul(quantity) {
        Some(p) => p,
        None => {
            return Err(AppError::Validation(owned("bond payout was too large")));
        },
    };
    if buyer_balance < cost {
        return Err(
            AppError::Conflict(owned("you do not have enough balance to buy those bonds")),
        );
    }
    Ok(
        BondPurchase {
            cost_mana: cost,
            payout_at_maturity_mana: payout,
            remaining_bonds: issuance.remaining_bonds - quantity,
        },
    )
}

/// What a holding of `owned` bonds is paid at maturity: the payout of
/// every bond when that is positive, nothing otherwise.
pub open spec fn paid_out(per_bond: int, owned: int) -> int {
    if per_bond * owned > 0 {
        per_bond * owned
    } else {
        0
    }
}

/// The total paid to a list of holdings at maturity.
pub open spec fn paid_total(per_bond: int, holdings: Seq<i64>) -> int
    decreases holdings.len(),
{
    if holdings.len() == 0 {
        0
    } else {
        paid_total(per_bond, holdings.drop_last()) + paid_out(per_bond, holdings.last() as int)
    }
}

/// The number of holdings that are paid anything at maturity.
pub open spec fn paid_count(per_bond: int, holdings: Seq<i64>) -> int
    decreases holdings.len(),
{
    if holdings.len() == 0 {
        0
    } else {
        paid_count(per_bond, holdings.drop_last()) + if per_bond * holdings.last() > 0 {
            1int
        } else {
            0int
        }
    }
}

/// Some holding's payout does not fit in 64 bits.
pub open spec fn maturity_overflows(per_bond: int, holdings: Seq<i64>) -> bool {
    exists|k: int| 0 <= k < holdings.len() && !fits_i64(per_bond * #[trigger] holdings[k])
}

/// The bonds of an issuance nobody bought.
pub open spec fn unsold_bonds(remaining: int) -> int {
    if remaining > 0 {
        remaining
    } else {
        0
    }
}

/// `v` clamped to the 64-bit range, as saturating arithmetic gives it.
pub open spec fn clamp_i64(v: int) -> int {
    if v > i64::MAX {
        i64::MAX as int
    } else if v < i64::MIN {
        i64::MIN as int
    } else {
        v
    }
}

/// `a - b`, saturating at the bounds of the 64-bit range.
pub fn saturating_difference(a: i64, b: i64) -> (r: i64)
    ensures
        r == clamp_i64(a - b),
{
    let d: i128 = (a as i128) - (b as i128);
    if d > i64::MAX as i128 {
        i64::MAX
    } else if d < i64::MIN as i128 {
        i64::MIN
    } else {
        d as i64
    }
}

/// Why paying out an open issuance fails, if it does.
pub open spec fn maturity_refusal(issuance: BondIssuanceRow, holdings: Seq<i64>) -> Option<Refusal> {
    let per_bond = issuance.payout_per_bond_mana as int;
    if maturity_overflows(per_bond, holdings) {
        Some((ErrorKind::Validation, "bond maturity payout was too large"@))
    } else if !fits_i64(per_bond * unsold_bonds(issuance.remaining_bonds as int)) {
        Some((ErrorKind::Validation, "bond refund was too large"@))
    } else {
        None
    }
}

/// The payouts of a matured issuance.
#[derive(Clone, Debug)]
pub struct BondMaturity {
    /// The issuance was open and is now settled.
    pub settles: bool,
    /// What each holding is paid, in the order of the holdings.
    pub payouts: Vec<i64>,
    pub holders_paid: i64,
    pub total_paid_mana: i64,
    /// What the issuer gets back for the bonds nobody bought.
    pub issuer_refund_mana: i64,
    /// What is left in the escrow afterwards.
    pub escrow_remaining_mana: i64,
}

/// Pays out an issuance at maturity, given how many bonds each holding
/// owns. An issuance that is no longer open is left alone. Otherwise every
/// holding is paid the payout of its bonds when that is positive, the
/// issuer is refunded the payout of the unsold bonds, and the escrow keeps
/// what remains of it.
pub fn plan_bond_maturity(issuance: &BondIssuanceRow, holdings: &Vec<i64>) -> (r: Result<
    BondMaturity,
    AppError,
>)
    requires
        issuance.status@ == "open"@ && !maturity_overflows(
            issuance.payout_per_bond_mana as int,
            holdings@,
        ) ==> paid_total(issuance.payout_per_bond_mana as int, holdings@) <= i64::MAX,
    ensures
        issuance.status@ != "open"@ ==> (r matches Ok(m) && {
            &&& !m.settles
            &&& m.payouts@.len() == 0
            &&& m.holders_paid == 0
            &&& m.total_paid_mana == 0
            &&& m.issuer_refund_mana == 0
        }),
        issuance.status@ == "open"@ ==> match maturity_refusal(*issuance, holdings@) {
            Some(f) => refused_as(r, f),
            None => (r matches Ok(m) && {
                let per_bond = issuance.payout_per_bond_mana as int;
                let total = paid_total(per_bond, holdings@);
                let refund = per_bond * unsold_bonds(issuance.remaining_bonds as int);
                &&& m.settles
                &&& m.payouts@.len() == holdings@.len()
                &&& forall|k: int|
                    0 <= k < holdings@.len() ==> #[trigger] m.payouts@[k] == paid_out(
                        per_bond,
                        holdings@[k] as int,
                    )
                &&& m.holders_paid == paid_count(per_bond, holdings@)
                &&& m.total_paid_mana == total
                &&& m.issuer_refund_mana == refund
                &&& m.escrow_remaining_mana == clamp_i64(
                    clamp_i64(issuance.escrow_reserved_mana - total) - refund,
                )
            }),
        },
{
    if !str_eq(issuance.status.as_str(), "open") {
        return Ok(
            BondMaturity {
                settles: false,
                payouts: Vec::new(),
                holders_paid: 0,
                total_paid_mana: 0,
                issuer_refund_mana: 0,
                escrow_remaining_mana: issuance.escrow_reserved_mana,
            },
        );
    }
    let per_bond = issuance.payout_per_bond_mana;
    let ghost h = holdings@;
    let mut payouts: Vec<i64> = Vec::new();
    let mut total: i128 = 0;
    let mut count: i128 = 0;
    let mut k: usize = 0;
    while k < holdings.len()
        invariant
            k <= holdings.len(),
            h == holdings@,
            issuance.status@ == "open"@,
            per_bond == issuance.payout_per_bond_mana,
            issuance.status@ == "open"@ && !maturity_overflows(per_bond as int, h) ==> paid_total(
                per_bond as int,
                h,
            ) <= i64::MAX,
            payouts@.len() == k,
            forall|j: int| 0 <= j < k ==> #[trigger] payouts@[j] == paid_out(per_bond as int, h[j] as int),
            forall|j: int| 0 <= j < k ==> fits_i64(per_bond * #[trigger] h[j]),
            total == paid_total(per_bond as int, h.take(k as int)),
            count == paid_count(per_bond as int, h.take(k as int)),
            0 <= count <= total,
            total <= (k as int) * (i64::MAX as int),
        decreases holdings.len() - k,
    {
        let owned_k = holdings[k];
        let payout = match per_bond.checked_mul(owned_k) {
            Some(p) => p,
            None => {
                assert(!fits_i64(per_bond * h[k as int]));
                assert(maturity_overflows(per_bond as int, h));
                return Err(AppError::Validation(owned("bond maturity payout was too large")));
            },
        };
        let paid: i64 = if payout > 0 {
            payout
        } else {
            0
        };
        proof {
            assert(h.take(k as int + 1).drop_last() =~= h.take(k as int));
            assert(h.take(k as int + 1).last() == h[k as int]);
            assert(total + paid <= (k as int + 1) * (i64::MAX as int)) by (nonlinear_arith)
                requires
                    total <= (k as int) * (i64::MAX as int),
                    paid <= i64::MAX,
            ;
            assert((k as int + 1) * (i64::MAX as int) <= 0x1_0000_0000_0000_0000 * (i64::MAX as int))
                by (nonlinear_arith)
                requires
                    k < 0x1_0000_0000_0000_0000,
            ;
        }
        payouts.push(paid);
        if payout > 0 {
            count = count + 1;
        }
        total = total + paid as i128;
        k = k + 1;
    }
    proof {
        assert(h.take(k as int) =~= h);
        assert(!maturity_overflows(per_bond as int, h));
    }
    let unsold: i64 = if issuance.remaining_bonds > 0 {
        issuance.remaining_bonds
    } else {
        0
    };
    let refund = match per_bond.checked_mul(unsold) {
        Some(v) => v,
        None => {
            return Err(AppError::Validation(owned("bond refund was too large")));
        },
    };
    let total_paid = total as i64;
    let after_payouts = saturating_difference(issuance.escrow_reserved_mana, total_paid);
    Ok(
        BondMaturity {
            settles: true,
            payouts,
            holders_paid: count as i64,
            total_paid_mana: total_paid,
            issuer_refund_mana: refund,
            escrow_remaining_mana: saturating_difference(after_payouts, refund),
        },
    )
}

/// How many bonds a list of holdings owns in all.
pub open spec fn holdings_sum(holdings: Seq<i64>) -> int
    decreases holdings.len(),
{
    if holdings.len() == 0 {
        0
    } else {
        holdings_sum(holdings.drop_last()) + holdings.last()
    }
}

proof fn lemma_paid_total_nonneg(per_bond: int, holdings: Seq<i64>)
    ensures
        0 <= paid_count(per_bond, holdings) <= paid_total(per_bond, holdings),
    decreases holdings.len(),
{
    if holdings.len() > 0 {
        lemma_paid_total_nonneg(per_bond, holdings.drop_last());
    }
}

proof fn lemma_paid_total_is_product(per_bond: int, holdings: Seq<i64>)
    requires
        per_bond > 0,
        forall|k: int| 0 <= k < holdings.len() ==> #[trigger] holdings[k] > 0,
    ensures
        paid_total(per_bond, holdings) == per_bond * holdings_sum(holdings),
    decreases holdings.len(),
{
    if holdings.len() > 0 {
        let rest = holdings.drop_last();
        assert forall|k: int| 0 <= k < rest.len() implies #[trigger] rest[k] > 0 by {
            assert(rest[k] == holdings[k]);
        }
        lemma_paid_total_is_product(per_bond, rest);
        let last = holdings.last() as int;
        assert(holdings[holdings.len() - 1] > 0);
        assert(per_bond * last > 0) by (nonlinear_arith)
            requires
                per_bond > 0,
                last > 0,
        ;
        assert(per_bond * holdings_sum(rest) + per_bond * last == per_bond * (holdings_sum(rest)
            + last)) by (nonlinear_arith);
    }
}

/// The escrow reserved when bonds are issued is exactly what maturity pays
/// out: when the escrow holds the full payout of every bond and every bond
/// is either held or still unsold, the holders' payouts and the issuer's
/// refund add up to the escrow and nothing is left in it.
pub proof fn lemma_maturity_exhausts_escrow(issuance: BondIssuanceRow, holdings: Seq<i64>)
    requires
        issuance.payout_per_bond_mana > 0,
        issuance.remaining_bonds >= 0,
        forall|k: int| 0 <= k < holdings.len() ==> #[trigger] holdings[k] > 0,
        holdings_sum(holdings) + issuance.remaining_bonds == issuance.total_bonds,
        issuance.escrow_reserved_mana == issuance.payout_per_bond_mana * issuance.total_bonds,
    ensures
        paid_total(issuance.payout_per_bond_mana as int, holdings) + issuance.payout_per_bond_mana
            * unsold_bonds(issuance.remaining_bonds as int) == issuance.escrow_reserved_mana,
        clamp_i64(
            clamp_i64(
                issuance.escrow_reserved_mana - paid_total(
                    issuance.payout_per_bond_mana as int,
                    holdings,
                ),
            ) - issuance.payout_per_bond_mana * unsold_bonds(issuance.remaining_bonds as int),
        ) == 0,
{
    let per_bond = issuance.payout_per_bond_mana as int;
    lemma_paid_total_is_product(per_bond, holdings);
    assert(per_bond * holdings_sum(holdings) + per_bond * (issuance.remaining_bonds as int)
        == per_bond * (issuance.total_bonds as int)) by (nonlinear_arith)
        requires
            holdings_sum(holdings) + issuance.remaining_bonds == issuance.total_bonds,
    ;
    assert(per_bond * (issuance.remaining_bonds as int) >= 0) by (nonlinear_arith)
        requires
            per_bond > 0,
            issuance.remaining_bonds >= 0,
    ;
    lemma_paid_total_nonneg(per_bond, holdings);
    let total = paid_total(per_bond, holdings);
    let left = issuance.escrow_reserved_mana - total;
    assert(unsold_bonds(issuance.remaining_bonds as int) == issuance.remaining_bonds);
    assert(left == per_bond * (issuance.remaining_bonds as int));
    assert(clamp_i64(left) == left);
}

/// The bot's verdict on buying bonds of one issuance.
#[derive(Clone, Debug)]
pub struct BotBondEvaluation {
    /// How many bonds the bot will buy, when it buys any.
    pub approved_quantity: Option<i64>,
    /// Why the bot buys or declines.
    pub reason: String,
}

impl BotBondEvaluation {
    /// A verdict declining the purchase for the given reason.
    pub fn reject(reason: String) -> (e: Self)
        ensures
            e.approved_quantity is None,
            e.reason@ == reason@,
    {
        BotBondEvaluation { approved_quantity: None, reason }
    }
}

/// The bot's bond-buying limits as the server policy sets them.
pub fn bot_bond_policy(bot: &BotPolicyConfig) -> (p: BotBondPolicy)
    ensures
        p.min_yield_bps == bot.min_bond_yield_bps,
        p.max_yield_bps == bot.max_bond_yield_bps,
        p.min_maturity_seconds == bot.min_bond_maturity_seconds,
        p.max_maturity_seconds == bot.max_bond_maturity_seconds,
        p.max_price_mana == bot.max_bond_price_mana,
        p.max_purchase_quantity == bot.max_bond_purchase_quantity,
        p.max_total_exposure_mana == bot.max_total_bond_exposure_mana,
{
    BotBondPolicy {
        min_yield_bps: bot.min_bond_yield_bps,
        max_yield_bps: bot.max_bond_yield_bps,
        min_maturity_seconds: bot.min_bond_maturity_seconds,
        max_maturity_seconds: bot.max_bond_maturity_seconds,
        max_price_mana: bot.max_bond_price_mana,
        max_purchase_quantity: bot.max_bond_purchase_quantity,
        max_total_exposure_mana: bot.max_total_bond_exposure_mana,
    }
}

/// Why the bot declines an issuance before looking at its terms, if it
/// does: it issued it, none are left, it may buy none, its exposure budget
/// is spent, or it already holds some.
pub open spec fn bot_gate_reason(
    issuance: BondIssuanceRow,
    buyer: Seq<char>,
    budget: i64,
    policy: BotBondPolicy,
    holds_position: bool,
) -> Option<Seq<char>> {
    if issuance.issuer_discord_user_id@ == buyer {
        Some("the bot will not buy its own bond issuance"@)
    } else if issuance.remaining_bonds <= 0 {
        Some("that bond issuance has no supply left"@)
    } else if policy.max_purchase_quantity <= 0 {
        Some("the bot is configured to buy zero bonds"@)
    } else if budget <= 0 {
        Some("the bot has already hit its bond exposure limit"@)
    } else if holds_position {
        Some("the bot already holds this bond issuance"@)
    } else {
        None
    }
}

/// An issuance whose terms the bot's policy allows: a price at most its
/// maximum, a yield within its bounds, and whole seconds to maturity within
/// its bounds.
pub open spec fn terms_within_bot_limits(issuance: BondIssuanceRow, policy: BotBondPolicy, maturity: int) -> bool {
    &&& issuance.price_per_bond_mana <= policy.max_price_mana
    &&& policy.min_yield_bps <= issuance.yield_bps <= policy.max_yield_bps
    &&& policy.min_maturity_seconds <= maturity <= policy.max_maturity_seconds
}

/// Why the bot declines an issuance's terms, if it does: the price, the
/// yield or the time to maturity (`maturity` seconds) is outside its limits.
pub open spec fn bot_terms_reason(issuance: BondIssuanceRow, policy: BotBondPolicy, maturity: int) -> Option<
    Seq<char>,
> {
    if issuance.price_per_bond_mana > policy.max_price_mana {
        Some(
            "price "@ + int_decimal(issuance.price_per_bond_mana as int) + " is above the bot limit of "@
                + int_decimal(policy.max_price_mana as int),
        )
    } else if issuance.yield_bps < policy.min_yield_bps {
        Some(
            "yield "@ + int_decimal(issuance.yield_bps as int) + " bps is below the bot minimum of "@
                + int_decimal(policy.min_yield_bps as int) + " bps"@,
        )
    } else if issuance.yield_bps > policy.max_yield_bps {
        Some(
            "yield "@ + int_decimal(issuance.yield_bps as int) + " bps is above the bot maximum of "@
                + int_decimal(policy.max_yield_bps as int) + " bps"@,
        )
    } else if maturity < policy.min_maturity_seconds {
        Some(
            "maturity "@ + int_decimal(maturity) + "s is shorter than the bot minimum of "@
                + int_decimal(policy.min_maturity_seconds as int) + "s"@,
        )
    } else if maturity > policy.max_maturity_seconds {
        Some(
            "maturity "@ + int_decimal(maturity) + "s is longer than the bot maximum of "@
                + int_decimal(policy.max_maturity_seconds as int) + "s"@,
        )
    } else {
        None
    }
}

/// How many bonds at `price` an amount pays for: none unless both are
/// positive.
pub open spec fn affordable(amount: int, price: int) -> int {
    if amount > 0 && price > 0 {
        amount / price
    } else {
        0
    }
}

/// The smaller of two integers.
pub open spec fn min_of(a: int, b: int) -> int {
    if a <= b {
        a
    } else {
        b
    }
}

/// How many bonds the bot buys: no more than remain, than it may buy at
/// once, than its exposure budget pays for, or than its balance pays for.
pub open spec fn bot_quantity(issuance: BondIssuanceRow, policy: BotBondPolicy, budget: i64, balance: i64) -> int {
    let price = issuance.price_per_bond_mana as int;
    min_of(
        min_of(
            min_of(issuance.remaining_bonds as int, policy.max_purchase_quantity as int),
            affordable(budget as int, price),
        ),
        affordable(balance as int, price),
    )
}

/// The reason the bot gives when it cannot afford a single bond.
pub open spec fn unaffordable_reason() -> Seq<char> {
    "the bot cannot currently afford even one bond under its balance and exposure limits"@
}

/// The reason the bot gives for buying `quantity` bonds.
pub open spec fn accepted_reason(quantity: int) -> Seq<char> {
    "accepted "@ + int_decimal(quantity)
        + " bond(s) because yield, price, maturity, and exposure limits all passed"@
}

/// `e` declines with reason `reason`.
pub open spec fn declines(e: BotBondEvaluation, reason: Seq<char>) -> bool {
    e.approved_quantity is None && e.reason@ == reason
}

/// The bot's verdict on an issuance whose terms it has read, `maturity`
/// seconds from maturity.
pub open spec fn bot_verdict_holds(
    e: BotBondEvaluation,
    issuance: BondIssuanceRow,
    policy: BotBondPolicy,
    budget: i64,
    balance: i64,
    maturity: int,
) -> bool {
    match bot_terms_reason(issuance, policy, maturity) {
        Some(reason) => declines(e, reason),
        None => {
            let q = bot_quantity(issuance, policy, budget, balance);
            if q <= 0 {
                declines(e, unaffordable_reason())
            } else {
                e.approved_quantity == Some(q as i64) && e.reason@ == accepted_reason(q)
            }
        },
    }
}

/// The bot buys only what its policy allows: whenever its verdict approves
/// a quantity, the price, yield and maturity are within its limits, and
/// the quantity is at least one, no more than remain or than it may buy at
/// once, and paid for by both its exposure budget and its balance; terms
/// outside its limits are always declined.
pub proof fn lemma_bot_approves_only_within_limits(
    e: BotBondEvaluation,
    issuance: BondIssuanceRow,
    policy: BotBondPolicy,
    budget: i64,
    balance: i64,
    maturity: int,
)
    requires
        bot_verdict_holds(e, issuance, policy, budget, balance, maturity),
    ensures
        e.approved_quantity matches Some(q) ==> {
            &&& terms_within_bot_limits(issuance, policy, maturity)
            &&& 1 <= q <= issuance.remaining_bonds
            &&& q <= policy.max_purchase_quantity
            &&& issuance.price_per_bond_mana * q <= budget
            &&& issuance.price_per_bond_mana * q <= balance
        },
        !terms_within_bot_limits(issuance, policy, maturity) ==> e.approved_quantity is None,
{
    if e.approved_quantity is Some {
        lemma_bot_quantity_within_limits(issuance, policy, budget, balance);
    }
}

fn whole_bonds(amount: i64, price: i64) -> (r: i64)
    ensures
        r == affordable(amount as int, price as int),
        r >= 0,
{
    if amount > 0 && price > 0 {
        amount / price
    } else {
        0
    }
}

fn smaller(a: i64, b: i64) -> (r: i64)
    ensures
        r == min_of(a as int, b as int),
{
    if a <= b {
        a
    } else {
        b
    }
}

/// Decides whether the bot buys bonds of an issuance at `now`, given the
/// exposure budget it has left, whether it already holds some, and its
/// balance. It declines its own issuances, sold-out ones, ones it holds,
/// and any whose price, yield or maturity is outside its limits; otherwise
/// it buys as many as it may and can pay for, if that is at least one.
/// An unreadable maturity timestamp is an error.
pub fn evaluate_bot_bond_purchase(
    issuance: &BondIssuanceRow,
    buyer_user_id: &str,
    remaining_exposure_budget: i64,
    policy: &BotBondPolicy,
    holds_open_position: bool,
    buyer_balance: i64,
    now: i128,
) -> (r: Result<BotBondEvaluation, AppError>)
    requires
        instant_in_range(now as int),
    ensures
        match bot_gate_reason(
            *issuance,
            buyer_user_id@,
            remaining_exposure_budget,
            *policy,
            holds_open_position,
        ) {
            Some(reason) => r matches Ok(e) && declines(e, reason),
            None => match parsed_instant(issuance.matures_at@) {
                None => fails_with(
                    r,
                    ErrorKind::Other,
                    "invalid RFC3339 timestamp: "@ + issuance.matures_at@,
                ),
                Some(t) => r matches Ok(e) && bot_verdict_holds(
                    e,
                    *issuance,
                    *policy,
                    remaining_exposure_budget,
                    buyer_balance,
                    whole_seconds(t - now),
                ),
            },
        },
        r matches Ok(e) ==> (e.approved_quantity matches Some(q) ==> {
            &&& parsed_instant(issuance.matures_at@) is Some
            &&& terms_within_bot_limits(
                *issuance,
                *policy,
                whole_seconds(parsed_instant(issuance.matures_at@)->0 - now),
            )
            &&& issuance.issuer_discord_user_id@ != buyer_user_id@
            &&& !holds_open_position
            &&& 1 <= q <= issuance.remaining_bonds
            &&& q <= policy.max_purchase_quantity
        }),
{
    if str_eq(issuance.issuer_discord_user_id.as_str(), buyer_user_id) {
        return Ok(BotBondEvaluation::reject(owned("the bot will not buy its own bond issuance")));
    }
    if issuance.remaining_bonds <= 0 {
        return Ok(BotBondEvaluation::reject(owned("that bond issuance has no supply left")));
    }
    if policy.max_purchase_quantity <= 0 {
        return Ok(BotBondEvaluation::reject(owned("the bot is configured to buy zero bonds")));
    }
    if remaining_exposure_budget <= 0 {
        return Ok(
            BotBondEvaluation::reject(owned("the bot has already hit its bond exposure limit")),
        );
    }
    if holds_open_position {
        return Ok(BotBondEvaluation::reject(owned("the bot already holds this bond issuance")));
    }
    let matures_at = parse_rfc3339_utc(issuance.matures_at.as_str())?;
    let maturity = span_whole_seconds(now, matures_at);
    if issuance.price_per_bond_mana > policy.max_price_mana {
        let mut m = owned("price ");
        push_int_decimal(&mut m, issuance.price_per_bond_mana);
        push_str(&mut m, " is above the bot limit of ");
        push_int_decimal(&mut m, policy.max_price_mana);
        return Ok(BotBondEvaluation::reject(m));
    }
    if issuance.yield_bps < policy.min_yield_bps {
        let mut m = owned("yield ");
        push_int_decimal(&mut m, issuance.yield_bps);
        push_str(&mut m, " bps is below the bot minimum of ");
        push_int_decimal(&mut m, policy.min_yield_bps);
        push_str(&mut m, " bps");
        return Ok(BotBondEvaluation::reject(m));
    }
    if issuance.yield_bps > policy.max_yield_bps {
        let mut m = owned("yield ");
        push_int_decimal(&mut m, issuance.yield_bps);
        push_str(&mut m, " bps is above the bot maximum of ");
        push_int_decimal(&mut m, policy.max_yield_bps);
        push_str(&mut m, " bps");
        return Ok(BotBondEvaluation::reject(m));
    }
    if maturity < policy.min_maturity_seconds as i128 {
        let mut m = owned("maturity ");
        push_wide_int_decimal(&mut m, maturity);
        push_str(&mut m, "s is shorter than the bot minimum of ");
        push_int_decimal(&mut m, policy.min_maturity_seconds);
        push_str(&mut m, "s");
        return Ok(BotBondEvaluation::reject(m));
    }
    if maturity > policy.max_maturity_seconds as i128 {
        let mut m = owned("maturity ");
        push_wide_int_decimal(&mut m, maturity);
        push_str(&mut m, "s is longer than the bot maximum of ");
        push_int_decimal(&mut m, policy.max_maturity_seconds);
        push_str(&mut m, "s");
        return Ok(BotBondEvaluation::reject(m));
    }
    let by_policy = whole_bonds(remaining_exposure_budget, issuance.price_per_bond_mana);
    let by_balance = whole_bonds(buyer_balance, issuance.price_per_bond_mana);
    let quantity = smaller(
        smaller(smaller(issuance.remaining_bonds, policy.max_purchase_quantity), by_policy),
        by_balance,
    );
    if quantity <= 0 {
        return Ok(
            BotBondEvaluation::reject(
                owned(
                    "the bot cannot currently afford even one bond under its balance and exposure limits",
                ),
            ),
        );
    }
    let mut reason = owned("accepted ");
    push_int_decimal(&mut reason, quantity);
    push_str(&mut reason, " bond(s) because yield, price, maturity, and exposure limits all passed");
    Ok(BotBondEvaluation { approved_quantity: Some(quantity), reason })
}

/// Whatever quantity the bot decides on costs no more than its exposure
/// budget or its balance, and is no more than remain in the issuance or
/// than it may buy at once.
pub proof fn lemma_bot_quantity_within_limits(
    issuance: BondIssuanceRow,
    policy: BotBondPolicy,
    budget: i64,
    balance: i64,
)
    requires
        bot_quantity(issuance, policy, budget, balance) > 0,
    ensures
        ({
            let q = bot_quantity(issuance, policy, budget, balance);
            &&& issuance.price_per_bond_mana * q <= budget
            &&& issuance.price_per_bond_mana * q <= balance
            &&& q <= issuance.remaining_bonds
            &&& q <= policy.max_purchase_quantity
        }),
{
    let q = bot_quantity(issuance, policy, budget, balance);
    let price = issuance.price_per_bond_mana as int;
    let b = budget as int;
    let m = balance as int;
    assert(q <= affordable(b, price));
    assert(q <= affordable(m, price));
    assert(b > 0 && price > 0);
    assert(m > 0);
    assert(price * q <= b) by (nonlinear_arith)
        requires
            b > 0,
            price > 0,
            q <= b / price,
    ;
    assert(price * q <= m) by (nonlinear_arith)
        requires
            m > 0,
            price > 0,
            q <= m / price,
    ;
}

/// Why the bot turns down every bond offered to it, if it does: bonds are
/// off on the server, or the bot is not buying them.
pub open spec fn bot_offer_refusal(bonds: BondPolicyConfig, bot: BotPolicyConfig) -> Option<Seq<char>> {
    if !bonds.enabled {
        Some("bot bond buying is disabled because bonds are disabled in config"@)
    } else if !bot.auto_buy_bonds {
        Some("the bot is not buying bonds right now"@)
    } else {
        None
    }
}

/// `o` turns the offer down for `reason`.
pub open spec fn declined_offer(o: BotBondOfferOutcome, reason: Seq<char>) -> bool {
    !o.accepted && o.quantity == 0 && o.reason@ == reason && o.receipt is None
}

/// The bot's answer to a bond offer when its configuration alone decides
/// it; `None` when the offer has to be looked at.
pub fn bot_offer_gate(bonds: &BondPolicyConfig, bot: &BotPolicyConfig) -> (r: Option<BotBondOfferOutcome>)
    ensures
        match bot_offer_refusal(*bonds, *bot) {
            Some(reason) => r matches Some(o) && declined_offer(o, reason),
            None => r is None,
        },
{
    if !bonds.enabled {
        return Some(
            BotBondOfferOutcome {
                accepted: false,
                quantity: 0,
                reason: owned("bot bond buying is disabled because bonds are disabled in config"),
                receipt: None,
            },
        );
    }
    if !bot.auto_buy_bonds {
        return Some(
            BotBondOfferOutcome {
                accepted: false,
                quantity: 0,
                reason: owned("the bot is not buying bonds right now"),
                receipt: None,
            },
        );
    }
    None
}

/// What the bot may still spend on bonds: its exposure limit less what it
/// has in open bonds, saturating at the bounds of the 64-bit range.
pub fn exposure_budget(max_total_exposure_mana: i64, current_exposure: i64) -> (r: i64)
    ensures
        r == clamp_i64(max_total_exposure_mana - current_exposure),
{
    saturating_difference(max_total_exposure_mana, current_exposure)
}

/// The bot's answer to a bond offer once it has judged the issuance: a
/// decline with the verdict's reason, or the purchase it made.
pub fn bot_offer_outcome(evaluation: BotBondEvaluation, receipt: Option<BondPurchaseReceipt>) -> (o:
    BotBondOfferOutcome)
    ensures
        evaluation.approved_quantity is None ==> declined_offer(o, evaluation.reason@),
        evaluation.approved_quantity matches Some(q) ==> {
            &&& o.accepted
            &&& o.quantity == q
            &&& o.reason@ == evaluation.reason@
            &&& o.receipt == receipt
        },
{
    match evaluation.approved_quantity {
        None => BotBondOfferOutcome {
            accepted: false,
            quantity: 0,
            reason: evaluation.reason,
            receipt: None,
        },
        Some(q) => BotBondOfferOutcome {
            accepted: true,
            quantity: q,
            reason: evaluation.reason,
            receipt,
        },
    }
}

/// The exposure budget the bot starts an automatic buying run with, or
/// `None` when it buys nothing this run: bonds are off, it may buy none,
/// or its open bonds already reach its exposure limit.
pub open spec fn auto_buy_budget(bonds_enabled: bool, policy: BotBondPolicy, current_exposure: i64) -> Option<
    int,
> {
    if !bonds_enabled || policy.max_purchase_quantity <= 0 {
        None
    } else if current_exposure >= policy.max_total_exposure_mana {
        None
    } else {
        Some(policy.max_total_exposure_mana - current_exposure)
    }
}

/// Starts an automatic bond-buying run.
pub fn start_auto_buy(bonds_enabled: bool, policy: &BotBondPolicy, current_exposure: i64) -> (r: Option<i64>)
    requires
        auto_buy_budget(bonds_enabled, *policy, current_exposure) matches Some(b) ==> b <= i64::MAX,
    ensures
        match auto_buy_budget(bonds_enabled, *policy, current_exposure) {
            Some(b) => r == Some(b as i64),
            None => r is None,
        },
{
    if !bonds_enabled || policy.max_purchase_quantity <= 0 {
        return None;
    }
    if current_exposure >= policy.max_total_exposure_mana {
        return None;
    }
    Some(policy.max_total_exposure_mana - current_exposure)
}

/// Where an automatic buying run stands after one purchase.
#[derive(Clone, Copy, Debug)]
pub struct AutoBuyProgress {
    /// What the bot may still spend.
    pub budget: i64,
    /// Bonds bought so far in this run.
    pub purchased: u64,
    /// The budget is spent and the run ends.
    pub done: bool,
}

/// Records a purchase of `quantity` bonds at `price` in an automatic
/// buying run: the count grows by the quantity, the budget shrinks by the
/// cost (saturating), and the run ends once the budget is spent.
pub fn record_auto_buy(budget: i64, purchased: u64, price: i64, quantity: i64) -> (r: AutoBuyProgress)
    requires
        quantity >= 0,
        purchased + quantity <= u64::MAX,
        fits_i64(price * quantity),
    ensures
        r.purchased == purchased + quantity,
        r.budget == clamp_i64(budget - price * quantity),
        r.done == (r.budget <= 0),
{
    let cost = price * quantity;
    let left = saturating_difference(budget, cost);
    AutoBuyProgress { budget: left, purchased: purchased + quantity as u64, done: left <= 0 }
}

/// A purchase the bot decided on keeps its automatic buying budget from
/// going negative.
pub proof fn lemma_auto_buy_budget_stays_nonnegative(
    issuance: BondIssuanceRow,
    policy: BotBondPolicy,
    budget: i64,
    balance: i64,
)
    requires
        bot_quantity(issuance, policy, budget, balance) > 0,
    ensures
        clamp_i64(
            budget - issuance.price_per_bond_mana * bot_quantity(issuance, policy, budget, balance),
        ) >= 0,
{
    lemma_bot_quantity_within_limits(issuance, policy, budget, balance);
    let q = bot_quantity(issuance, policy, budget, balance);
    let price = issuance.price_per_bond_mana as int;
    assert(price > 0);
    assert(price * q > 0) by (nonlinear_arith)
        requires
            price > 0,
            q > 0,
    ;
}

/// A stored issuance as listed to members.
pub fn bond_listing(issuance: BondIssuanceRow, issuer_display_name: Option<String>) -> (r: Result<
    BondListing,
    AppError,
>)
    ensures
        match parsed_instant(issuance.matures_at@) {
            None => fails_with(r, ErrorKind::Other, "invalid RFC3339 timestamp: "@ + issuance.matures_at@),
            Some(t) => r matches Ok(l) && {
                &&& l.issuance_id == issuance.id
                &&& l.title@ == issuance.title@
                &&& l.issuer_display_name@ == match issuer_display_name {
                    Some(n) => n@,
                    None => issuance.issuer_discord_user_id@,
                }
                &&& l.price_per_bond_mana == issuance.price_per_bond_mana
                &&& l.payout_per_bond_mana == issuance.payout_per_bond_mana
                &&& l.total_bonds == issuance.total_bonds
                &&& l.remaining_bonds == issuance.remaining_bonds
                &&& l.yield_bps == issuance.yield_bps
                &&& l.yield_period_seconds == issuance.yield_period_seconds
                &&& l.matures_at == t
                &&& l.status@ == issuance.status@
            },
        },
{
    let matures_at = parse_rfc3339_utc(issuance.matures_at.as_str())?;
    Ok(
        BondListing {
            issuance_id: issuance.id,
            title: issuance.title,
            issuer_display_name: display_name_or_id(issuer_display_name, issuance.issuer_discord_user_id),
            price_per_bond_mana: issuance.price_per_bond_mana,
            payout_per_bond_mana: issuance.payout_per_bond_mana,
            total_bonds: issuance.total_bonds,
            remaining_bonds: issuance.remaining_bonds,
            yield_bps: issuance.yield_bps,
            yield_period_seconds: issuance.yield_period_seconds,
            matures_at,
            status: issuance.status,
        },
    )
}

/// A member's holding in a stored issuance, with the payout it is due at
/// maturity.
pub fn bond_position_line(
    issuance: BondIssuanceRow,
    issuer_display_name: Option<String>,
    bonds_owned: i64,
    total_spent_mana: i64,
    total_redeemed_mana: i64,
) -> (r: Result<BondPositionLine, AppError>)
    requires
        fits_i64(issuance.payout_per_bond_mana * bonds_owned),
    ensures
        match parsed_instant(issuance.matures_at@) {
            None => fails_with(r, ErrorKind::Other, "invalid RFC3339 timestamp: "@ + issuance.matures_at@),
            Some(t) => r matches Ok(l) && {
                &&& l.issuance_id == issuance.id
                &&& l.title@ == issuance.title@
                &&& l.issuer_display_name@ == match issuer_display_name {
                    Some(n) => n@,
                    None => issuance.issuer_discord_user_id@,
                }
                &&& l.bonds_owned == bonds_owned
                &&& l.total_spent_mana == total_spent_mana
                &&& l.total_redeemed_mana == total_redeemed_mana
                &&& l.payout_per_bond_mana == issuance.payout_per_bond_mana
                &&& l.projected_payout_mana == issuance.payout_per_bond_mana * bonds_owned
                &&& l.matures_at == t
                &&& l.status@ == issuance.status@
            },
        },
{
    let matures_at = parse_rfc3339_utc(issuance.matures_at.as_str())?;
    Ok(
        BondPositionLine {
            issuance_id: issuance.id,
            title: issuance.title,
            issuer_display_name: display_name_or_id(issuer_display_name, issuance.issuer_discord_user_id),
            bonds_owned,
            total_spent_mana,
            total_redeemed_mana,
            payout_per_bond_mana: issuance.payout_per_bond_mana,
            projected_payout_mana: issuance.payout_per_bond_mana * bonds_owned,
            matures_at,
            status: issuance.status,
        },
    )
}

/// The label of an open issuance in an autocomplete list.
pub fn bond_choice_label(issuance_id: i64, remaining_bonds: i64, payout_per_bond_mana: i64, title: &str) -> (r:
    String)
    ensures
        r@ == "#"@ + int_decimal(issuance_id as int) + " ["@ + int_decimal(remaining_bonds as int)
            + " left | "@ + int_decimal(payout_per_bond_mana as int) + " payout] "@ + title@,
{
    let mut m = owned("#");
    push_int_decimal(&mut m, issuance_id);
    push_str(&mut m, " [");
    push_int_decimal(&mut m, remaining_bonds);
    push_str(&mut m, " left | ");
    push_int_decimal(&mut m, payout_per_bond_mana);
    push_str(&mut m, " payout] ");
    push_str(&mut m, title);
    m
}

} // verus!
