//! Resolving markets: who may resolve or re-resolve a native market, what
//! a resolution pays (the winners' shares, or N/A refunds of what each
//! member put in net), how an earlier resolution is undone before an edit,
//! and how a mirrored market's resolution on Manifold settles it here.

use vstd::prelude::*;

use crate::bonds::fits_i64;
use crate::error::{fails_with, AppError, ErrorKind};
use crate::market::{ExternalResolution, MarketResolutionAnnouncement, MarketStatus, MarketType};
use crate::social::{refused_as, Ledger, Refusal};
use crate::text::{
    concat, eq_ignore_ascii_case, eq_ignore_case, int_decimal, owned, parse_u64, parse_u64_spec,
    push_int_decimal, push_str, str_eq,
};

verus! {

/// A member's holding in one option, as settlement sees it.
#[derive(Clone, Debug)]
pub struct SettlementPosition {
    pub discord_user_id: String,
    pub option_id: i64,
    /// The holding's share count rounded to a whole amount of money: what
    /// it is paid when its option wins.
    pub payout_if_wins: i64,
    pub total_spent_mana: i64,
    pub total_received_mana: i64,
}

/// Money credited to one member.
#[derive(Clone, Debug)]
pub struct Credit {
    pub discord_user_id: String,
    pub amount_mana: i64,
}

/// A credit as a member id and an amount.
pub open spec fn credit_view(c: Credit) -> (Seq<char>, int) {
    (c.discord_user_id@, c.amount_mana as int)
}

/// A list of credits as member ids and amounts.
pub open spec fn credits_view(credits: Seq<Credit>) -> Seq<(Seq<char>, int)> {
    credits.map_values(|c: Credit| credit_view(c))
}

/// The sum of the amounts of a list of credits.
pub open spec fn credit_sum(credits: Seq<(Seq<char>, int)>) -> int
    decreases credits.len(),
{
    if credits.len() == 0 {
        0
    } else {
        credit_sum(credits.drop_last()) + credits.last().1
    }
}

/// What a resolution in favour of `winner` credits: every holding of the
/// winning option is paid its rounded share count, in the order of the
/// holdings.
pub open spec fn winner_credits(positions: Seq<SettlementPosition>, winner: i64) -> Seq<
    (Seq<char>, int),
>
    decreases positions.len(),
{
    if positions.len() == 0 {
        Seq::empty()
    } else {
        let rest = winner_credits(positions.drop_last(), winner);
        let p = positions.last();
        if p.option_id == winner {
            rest.push((p.discord_user_id@, p.payout_if_wins as int))
        } else {
            rest
        }
    }
}

/// Paying the winners of `winner` one holding at a time never leaves the
/// 64-bit range.
pub open spec fn winner_sums_fit(positions: Seq<SettlementPosition>, winner: i64) -> bool {
    forall|k: int| 0 <= k <= positions.len() ==> fits_i64(
        #[trigger] credit_sum(winner_credits(positions.take(k), winner)),
    )
}

/// Pays the holdings of the winning option, in order; gives the credits
/// and their total.
pub fn plan_winner_credits(positions: &Vec<SettlementPosition>, winner_option_id: i64) -> (r: (
    Vec<Credit>,
    i64,
))
    requires
        winner_sums_fit(positions@, winner_option_id),
    ensures
        credits_view(r.0@) == winner_credits(positions@, winner_option_id),
        r.1 == credit_sum(winner_credits(positions@, winner_option_id)),
{
    let ghost ps = positions@;
    let mut out: Vec<Credit> = Vec::new();
    let mut total: i64 = 0;
    let mut k: usize = 0;
    while k < positions.len()
        invariant
            k <= positions.len(),
            ps == positions@,
            winner_sums_fit(ps, winner_option_id),
            credits_view(out@) == winner_credits(ps.take(k as int), winner_option_id),
            total == credit_sum(winner_credits(ps.take(k as int), winner_option_id)),
        decreases positions.len() - k,
    {
        let p = &positions[k];
        proof {
            assert(ps.take(k as int + 1).drop_last() =~= ps.take(k as int));
            assert(ps.take(k as int + 1).last() == ps[k as int]);
            assert(fits_i64(credit_sum(winner_credits(ps.take(k as int + 1), winner_option_id))));
        }
        if p.option_id == winner_option_id {
            let c = Credit { discord_user_id: p.discord_user_id.clone(), amount_mana: p.payout_if_wins };
            proof {
                let w = winner_credits(ps.take(k as int), winner_option_id);
                let pushed = w.push((p.discord_user_id@, p.payout_if_wins as int));
                assert(pushed.drop_last() =~= w);
                assert(out@.push(c).map_values(|c: Credit| credit_view(c)) =~= out@.map_values(
                    |c: Credit| credit_view(c),
                ).push(credit_view(c)));
            }
            total = total + p.payout_if_wins;
            out.push(c);
        }
        k = k + 1;
    }
    proof {
        assert(ps.take(k as int) =~= ps);
    }
    (out, total)
}

/// What an N/A resolution refunds for one holding: what it put in net,
/// when that is positive.
pub open spec fn refund_of(p: SettlementPosition) -> int {
    if p.total_spent_mana - p.total_received_mana > 0 {
        p.total_spent_mana - p.total_received_mana
    } else {
        0
    }
}

/// The sum of the refunds of a list of holdings.
pub open spec fn refund_sum(positions: Seq<SettlementPosition>) -> int
    decreases positions.len(),
{
    if positions.len() == 0 {
        0
    } else {
        refund_sum(positions.drop_last()) + refund_of(positions.last())
    }
}

/// What an N/A resolution refunds each member: the sum of the positive
/// refunds of their holdings; members owed nothing are absent.
pub open spec fn refund_totals(positions: Seq<SettlementPosition>) -> Map<Seq<char>, int>
    decreases positions.len(),
{
    if positions.len() == 0 {
        Map::empty()
    } else {
        let m = refund_totals(positions.drop_last());
        let p = positions.last();
        let owed = refund_of(p);
        if owed > 0 {
            m.insert(
                p.discord_user_id@,
                (if m.dom().contains(p.discord_user_id@) {
                    m[p.discord_user_id@]
                } else {
                    0
                }) + owed,
            )
        } else {
            m
        }
    }
}

/// The refunds of every holding, and their sum, can be computed in 64-bit
/// arithmetic.
pub open spec fn refunds_fit(positions: Seq<SettlementPosition>) -> bool {
    &&& forall|k: int|
        0 <= k < positions.len() ==> fits_i64(
            #[trigger] positions[k].total_spent_mana - positions[k].total_received_mana,
        )
    &&& refund_sum(positions) <= i64::MAX
}

/// A list of credits as a map from member to amount (a later credit to the
/// same member replaces an earlier one).
pub open spec fn credits_map(credits: Seq<(Seq<char>, int)>) -> Map<Seq<char>, int>
    decreases credits.len(),
{
    if credits.len() == 0 {
        Map::empty()
    } else {
        credits_map(credits.drop_last()).insert(credits.last().0, credits.last().1)
    }
}

/// No member is credited twice.
pub open spec fn distinct_members(credits: Seq<(Seq<char>, int)>) -> bool {
    forall|i: int, j: int| 0 <= i < j < credits.len() ==> #[trigger] credits[i].0 != #[trigger] credits[j].0
}

proof fn lemma_refund_sum_prefix(positions: Seq<SettlementPosition>, k: int)
    requires
        0 <= k <= positions.len(),
    ensures
        0 <= refund_sum(positions.take(k)) <= refund_sum(positions),
    decreases positions.len(),
{
    if positions.len() > 0 {
        if k == positions.len() {
            assert(positions.take(k) =~= positions);
            lemma_refund_sum_prefix(positions.drop_last(), k - 1);
        } else {
            assert(positions.drop_last().take(k) =~= positions.take(k));
            lemma_refund_sum_prefix(positions.drop_last(), k);
        }
    }
}

proof fn lemma_credits_map_lookup(credits: Seq<(Seq<char>, int)>, u: Seq<char>)
    requires
        distinct_members(credits),
    ensures
        credits_map(credits).dom().contains(u) <==> exists|j: int|
            0 <= j < credits.len() && #[trigger] credits[j].0 == u,
        forall|j: int|
            0 <= j < credits.len() && #[trigger] credits[j].0 == u ==> credits_map(credits)[u]
                == credits[j].1,
    decreases credits.len(),
{
    if credits.len() > 0 {
        let rest = credits.drop_last();
        assert(distinct_members(rest)) by {
            assert forall|i: int, j: int| 0 <= i < j < rest.len() implies #[trigger] rest[i].0
                != #[trigger] rest[j].0 by {
                assert(rest[i] == credits[i]);
                assert(rest[j] == credits[j]);
            }
        }
        lemma_credits_map_lookup(rest, u);
        let n = credits.len() - 1;
        if credits_map(credits).dom().contains(u) {
            if credits[n].0 != u {
                let j = choose|j: int| 0 <= j < rest.len() && #[trigger] rest[j].0 == u;
                assert(credits[j].0 == u);
            }
        }
        assert forall|j: int| 0 <= j < credits.len() && #[trigger] credits[j].0 == u implies credits_map(
            credits,
        )[u] == credits[j].1 by {
            if j < n {
                assert(rest[j] == credits[j]);
                assert(credits[j].0 != credits[n].0);
            }
        }
        assert((exists|j: int| 0 <= j < credits.len() && #[trigger] credits[j].0 == u)
            ==> credits_map(credits).dom().contains(u)) by {
            if exists|j: int| 0 <= j < credits.len() && #[trigger] credits[j].0 == u {
                let j = choose|j: int| 0 <= j < credits.len() && #[trigger] credits[j].0 == u;
                if j < n {
                    assert(rest[j] == credits[j]);
                }
            }
        }
    }
}

proof fn lemma_credits_map_update(credits: Seq<(Seq<char>, int)>, j: int, v: int)
    requires
        distinct_members(credits),
        0 <= j < credits.len(),
    ensures
        credits_map(credits.update(j, (credits[j].0, v))) =~= credits_map(credits).insert(
            credits[j].0,
            v,
        ),
    decreases credits.len(),
{
    let u = credits[j].0;
    let updated = credits.update(j, (u, v));
    let n = credits.len() - 1;
    let rest = credits.drop_last();
    if j == n {
        assert(updated.drop_last() =~= rest);
    } else {
        assert(distinct_members(rest)) by {
            assert forall|a: int, b: int| 0 <= a < b < rest.len() implies #[trigger] rest[a].0
                != #[trigger] rest[b].0 by {
                assert(rest[a] == credits[a]);
                assert(rest[b] == credits[b]);
            }
        }
        assert(updated.drop_last() =~= rest.update(j, (u, v)));
        assert(rest[j] == credits[j]);
        lemma_credits_map_update(rest, j, v);
        assert(credits[j].0 != credits[n].0);
    }
}

/// Refunds every member what their holdings put in net, one credit per
/// member owed something; gives the credits and their total.
pub fn plan_refund_credits(positions: &Vec<SettlementPosition>) -> (r: (Vec<Credit>, i64))
    requires
        refunds_fit(positions@),
    ensures
        distinct_members(credits_view(r.0@)),
        credits_map(credits_view(r.0@)) == refund_totals(positions@),
        forall|k: int| 0 <= k < r.0@.len() ==> #[trigger] r.0@[k].amount_mana > 0,
        r.1 == refund_sum(positions@),
{
    let ghost ps = positions@;
    let mut out: Vec<Credit> = Vec::new();
    let mut total: i64 = 0;
    let mut k: usize = 0;
    while k < positions.len()
        invariant
            k <= positions.len(),
            ps == positions@,
            refunds_fit(ps),
            distinct_members(credits_view(out@)),
            credits_map(credits_view(out@)) == refund_totals(ps.take(k as int)),
            forall|m: int| 0 <= m < out@.len() ==> 0 < #[trigger] out@[m].amount_mana <= total,
            total == refund_sum(ps.take(k as int)),
        decreases positions.len() - k,
    {
        let p = &positions[k];
        let ghost before = credits_view(out@);
        let ghost old_out = out@;
        let ghost old_total = total;
        proof {
            assert(ps.take(k as int + 1).drop_last() =~= ps.take(k as int));
            assert(ps.take(k as int + 1).last() == ps[k as int]);
            lemma_refund_sum_prefix(ps, k as int + 1);
            assert(fits_i64(ps[k as int].total_spent_mana - ps[k as int].total_received_mana));
        }
        let net = p.total_spent_mana - p.total_received_mana;
        let owed: i64 = if net > 0 {
            net
        } else {
            0
        };
        if owed > 0 {
            let mut j: usize = 0;
            let mut found = false;
            while j < out.len() && !found
                invariant
                    j <= out.len(),
                    before == credits_view(out@),
                    forall|m: int| 0 <= m < j ==> #[trigger] out@[m].discord_user_id@ != p.discord_user_id@,
                    found ==> j < out.len() && out@[j as int].discord_user_id@ == p.discord_user_id@,
                decreases out.len() - j + (if found { 0int } else { 1int }),
            {
                if str_eq(out[j].discord_user_id.as_str(), p.discord_user_id.as_str()) {
                    found = true;
                } else {
                    j = j + 1;
                }
            }
            proof {
                lemma_credits_map_lookup(before, p.discord_user_id@);
            }
            if found {
                let old_amount = out[j].amount_mana;
                let c = Credit { discord_user_id: p.discord_user_id.clone(), amount_mana: old_amount + owed };
                proof {
                    assert(before[j as int].0 == p.discord_user_id@);
                    lemma_credits_map_update(before, j as int, old_amount + owed);
                    assert(out@.update(j as int, c).map_values(|c: Credit| credit_view(c)) =~= before.update(
                        j as int,
                        (before[j as int].0, old_amount + owed),
                    ));
                }
                out.set(j, c);
                proof {
                    assert forall|m: int| 0 <= m < out@.len() implies 0 < #[trigger] out@[m].amount_mana
                        <= old_total + owed by {
                        if m != j {
                            assert(out@[m] == old_out[m]);
                        }
                    }
                    assert forall|a: int, b: int|
                        0 <= a < b < credits_view(out@).len() implies #[trigger] credits_view(out@)[a].0
                        != #[trigger] credits_view(out@)[b].0 by {
                        assert(credits_view(out@)[a].0 == before[a].0);
                        assert(credits_view(out@)[b].0 == before[b].0);
                    }
                }
            } else {
                let c = Credit { discord_user_id: p.discord_user_id.clone(), amount_mana: owed };
                proof {
                    assert(!credits_map(before).dom().contains(p.discord_user_id@)) by {
                        if credits_map(before).dom().contains(p.discord_user_id@) {
                            let m = choose|m: int| 0 <= m < before.len() && #[trigger] before[m].0 == p.discord_user_id@;
                            assert(out@[m].discord_user_id@ == p.discord_user_id@);
                        }
                    }
                    assert(out@.push(c).map_values(|c: Credit| credit_view(c)) =~= before.push(
                        credit_view(c),
                    ));
                    assert(before.push(credit_view(c)).drop_last() =~= before);
                }
                out.push(c);
                proof {
                    lemma_refund_sum_prefix(ps, k as int);
                    assert forall|m: int| 0 <= m < out@.len() implies 0 < #[trigger] out@[m].amount_mana
                        <= old_total + owed by {
                        if m < old_out.len() {
                            assert(out@[m] == old_out[m]);
                        }
                    }
                    assert forall|a: int, b: int|
                        0 <= a < b < credits_view(out@).len() implies #[trigger] credits_view(out@)[a].0
                        != #[trigger] credits_view(out@)[b].0 by {
                        if b == before.len() {
                            assert(credits_view(out@)[a].0 == before[a].0);
                            assert(before[a].0 == out@[a].discord_user_id@);
                        } else {
                            assert(credits_view(out@)[a].0 == before[a].0);
                            assert(credits_view(out@)[b].0 == before[b].0);
                        }
                    }
                }
            }
            total = total + owed;
        }
        k = k + 1;
    }
    proof {
        assert(ps.take(k as int) =~= ps);
    }
    (out, total)
}

/// A market as the resolution rules see it.
#[derive(Clone, Debug)]
pub struct ResolvableMarket {
    pub id: i64,
    pub guild_id: String,
    pub creator_discord_user_id: String,
    pub market_type: MarketType,
    pub status: MarketStatus,
    /// How many times the market has been resolved so far.
    pub resolution_revision: i64,
    pub resolved_option_id: Option<i64>,
}

/// One option of a market, by id, label and Manifold answer id.
#[derive(Clone, Debug)]
pub struct OptionRef {
    pub id: i64,
    pub label: String,
    pub external_option_id: Option<String>,
}

/// Why a market is invisible from `guild_id`, if it is.
pub open spec fn outside_guild(market: ResolvableMarket, guild_id: Seq<char>) -> Option<Refusal> {
    if market.guild_id@ != guild_id {
        Some(
            (
                ErrorKind::NotFound,
                "market "@ + int_decimal(market.id as int) + " was not found in this server"@,
            ),
        )
    } else {
        None
    }
}

/// Refuses to touch a market of another guild.
pub fn ensure_market_in_guild(guild_id: &str, market: &ResolvableMarket) -> (r: Result<(), AppError>)
    ensures
        match outside_guild(*market, guild_id@) {
            Some(f) => refused_as(r, f),
            None => r is Ok,
        },
{
    if !str_eq(market.guild_id.as_str(), guild_id) {
        let mut m = owned("market ");
        push_int_decimal(&mut m, market.id);
        push_str(&mut m, " was not found in this server");
        return Err(AppError::NotFound(m));
    }
    Ok(())
}

/// Whether a market's status is final: resolved, settled or cancelled.
pub open spec fn already_final(status: MarketStatus) -> bool {
    status == MarketStatus::Resolved || status == MarketStatus::Settled || status
        == MarketStatus::Cancelled
}

/// The first reason, if any, `actor` may not resolve the market now: it is
/// another guild's, the actor is neither its creator nor a delegated
/// resolver, it is mirrored from Manifold, or it is already resolved
/// (for a first resolution) or not yet resolved (for an edit).
pub open spec fn resolution_refusal(
    market: ResolvableMarket,
    guild_id: Seq<char>,
    actor: Seq<char>,
    actor_is_delegate: bool,
    allow_edit: bool,
) -> Option<Refusal> {
    if outside_guild(market, guild_id) is Some {
        outside_guild(market, guild_id)
    } else if market.creator_discord_user_id@ != actor && !actor_is_delegate {
        Some(
            (
                ErrorKind::Validation,
                "only the market creator or a delegated market mod can resolve this market"@,
            ),
        )
    } else if market.market_type != MarketType::Native {
        Some((ErrorKind::Validation, "use `/msync` for manifold-tracked markets"@))
    } else if already_final(market.status) && !allow_edit {
        Some(
            (
                ErrorKind::Conflict,
                "market is already resolved; use `/edit_resolution` or `/edit_resolution_na` to change it"@,
            ),
        )
    } else if !already_final(market.status) && allow_edit {
        Some(
            (
                ErrorKind::Conflict,
                "market is not resolved yet; use `/resolve_market` or `/resolve_market_na` first"@,
            ),
        )
    } else {
        None
    }
}

/// Checks that `actor` may resolve (or, with `allow_edit`, re-resolve) the
/// market from `guild_id`.
pub fn check_native_resolution(
    market: &ResolvableMarket,
    guild_id: &str,
    actor_user_id: &str,
    actor_is_delegate: bool,
    allow_edit: bool,
) -> (r: Result<(), AppError>)
    ensures
        match resolution_refusal(*market, guild_id@, actor_user_id@, actor_is_delegate, allow_edit) {
            Some(f) => refused_as(r, f),
            None => r is Ok,
        },
{
    ensure_market_in_guild(guild_id, market)?;
    if !str_eq(market.creator_discord_user_id.as_str(), actor_user_id) && !actor_is_delegate {
        return Err(
            AppError::Validation(
                owned("only the market creator or a delegated market mod can resolve this market"),
            ),
        );
    }
    if market.market_type != MarketType::Native {
        return Err(AppError::Validation(owned("use `/msync` for manifold-tracked markets")));
    }
    let is_final = market.status == MarketStatus::Resolved || market.status == MarketStatus::Settled
        || market.status == MarketStatus::Cancelled;
    if is_final && !allow_edit {
        return Err(
            AppError::Conflict(
                owned(
                    "market is already resolved; use `/edit_resolution` or `/edit_resolution_na` to change it",
                ),
            ),
        );
    }
    if !is_final && allow_edit {
        return Err(
            AppError::Conflict(
                owned(
                    "market is not resolved yet; use `/resolve_market` or `/resolve_market_na` first",
                ),
            ),
        );
    }
    Ok(())
}

/// How a native market is resolved.
#[derive(Clone, Debug)]
pub enum ResolutionChoice {
    /// In favour of the option with this label (ASCII case ignored).
    Winner(String),
    /// As N/A, refunding what members put in.
    RefundNa,
}

/// `i` is the first option whose label matches `label`, ASCII case ignored.
pub open spec fn first_option_labelled(options: Seq<OptionRef>, label: Seq<char>, i: int) -> bool {
    &&& 0 <= i < options.len()
    &&& eq_ignore_case(options[i].label@, label)
    &&& forall|j: int| 0 <= j < i ==> !eq_ignore_case(#[trigger] options[j].label@, label)
}

/// Some option's label matches `label`, ASCII case ignored.
pub open spec fn some_option_labelled(options: Seq<OptionRef>, label: Seq<char>) -> bool {
    exists|k: int| 0 <= k < options.len() && eq_ignore_case(#[trigger] options[k].label@, label)
}

/// The first option whose label matches `label`, ASCII case ignored.
pub fn find_option_labelled(options: &Vec<OptionRef>, label: &str) -> (r: Option<usize>)
    ensures
        match r {
            Some(i) => first_option_labelled(options@, label@, i as int),
            None => !some_option_labelled(options@, label@),
        },
{
    let mut i: usize = 0;
    while i < options.len()
        invariant
            i <= options.len(),
            forall|j: int| 0 <= j < i ==> !eq_ignore_case(#[trigger] options@[j].label@, label@),
        decreases options.len() - i,
    {
        if eq_ignore_ascii_case(options[i].label.as_str(), label) {
            return Some(i);
        }
        i = i + 1;
    }
    None
}

/// What resolving a native market does.
#[derive(Clone, Debug)]
pub struct ResolutionPlan {
    pub new_status: MarketStatus,
    pub new_option_id: Option<i64>,
    pub new_revision: i64,
    /// The money credited to members, in order.
    pub credits: Vec<Credit>,
    pub total_amount: i64,
    /// The audit action recorded.
    pub action_type: String,
    /// The audit note recorded.
    pub note: String,
}

/// The audit action of a resolution.
pub open spec fn resolution_action(is_winner: bool, allow_edit: bool) -> Seq<char> {
    if is_winner {
        if allow_edit {
            "edit_winner"@
        } else {
            "resolve_winner"@
        }
    } else {
        if allow_edit {
            "edit_refund_na"@
        } else {
            "resolve_refund_na"@
        }
    }
}

/// The arithmetic of a resolution stays in the 64-bit range: the revision
/// can be counted up, and the credits of the chosen outcome summed.
pub open spec fn resolution_fits(
    market: ResolvableMarket,
    options: Seq<OptionRef>,
    choice: ResolutionChoice,
    positions: Seq<SettlementPosition>,
) -> bool {
    &&& market.resolution_revision < i64::MAX
    &&& match choice {
        ResolutionChoice::Winner(label) => forall|i: int|
            #[trigger] first_option_labelled(options, label@, i) ==> winner_sums_fit(
                positions,
                options[i].id,
            ),
        ResolutionChoice::RefundNa => refunds_fit(positions),
    }
}

/// Resolves a native market from `guild_id` on behalf of `actor_user_id`
/// (a delegated resolver when `actor_is_delegate`), given its options and
/// every holding in it. After the access checks, a winner resolution
/// settles the market in favour of the first option with the given label
/// and pays each holding of that option its rounded share count; an N/A
/// resolution cancels it and refunds each member what their holdings put
/// in net. The resolution revision counts up by one.
pub fn plan_native_resolution(
    market: &ResolvableMarket,
    guild_id: &str,
    actor_user_id: &str,
    actor_is_delegate: bool,
    options: &Vec<OptionRef>,
    choice: &ResolutionChoice,
    positions: &Vec<SettlementPosition>,
    allow_edit: bool,
) -> (r: Result<ResolutionPlan, AppError>)
    requires
        resolution_fits(*market, options@, *choice, positions@),
    ensures
        match resolution_refusal(*market, guild_id@, actor_user_id@, actor_is_delegate, allow_edit) {
            Some(f) => refused_as(r, f),
            None => match *choice {
                ResolutionChoice::Winner(label) => if !some_option_labelled(options@, label@) {
                    fails_with(r, ErrorKind::NotFound, "option `"@ + label@ + "` was not found"@)
                } else {
                    r matches Ok(plan) && exists|i: int|
                        #[trigger] first_option_labelled(options@, label@, i) && {
                            let winner = options@[i];
                            &&& plan.new_status == MarketStatus::Settled
                            &&& plan.new_option_id == Some(winner.id)
                            &&& credits_view(plan.credits@) == winner_credits(positions@, winner.id)
                            &&& plan.total_amount == credit_sum(
                                winner_credits(positions@, winner.id),
                            )
                            &&& plan.note@ == "winner="@ + winner.label@
                            &&& plan.action_type@ == resolution_action(true, allow_edit)
                            &&& plan.new_revision == market.resolution_revision + 1
                        }
                },
                ResolutionChoice::RefundNa => r matches Ok(plan) && {
                    &&& plan.new_status == MarketStatus::Cancelled
                    &&& plan.new_option_id is None
                    &&& distinct_members(credits_view(plan.credits@))
                    &&& credits_map(credits_view(plan.credits@)) == refund_totals(positions@)
                    &&& plan.total_amount == refund_sum(positions@)
                    &&& plan.note@ == "resolved as N/A with refunds"@
                    &&& plan.action_type@ == resolution_action(false, allow_edit)
                    &&& plan.new_revision == market.resolution_revision + 1
                },
            },
        },
{
    check_native_resolution(market, guild_id, actor_user_id, actor_is_delegate, allow_edit)?;
    let new_revision = market.resolution_revision + 1;
    match choice {
        ResolutionChoice::Winner(label) => {
            let i = match find_option_labelled(options, label.as_str()) {
                Some(i) => i,
                None => {
                    let m = concat(concat("option `", label.as_str()).as_str(), "` was not found");
                    return Err(AppError::NotFound(m));
                },
            };
            let winner = &options[i];
            assert(first_option_labelled(options@, label@, i as int));
            let (credits, total) = plan_winner_credits(positions, winner.id);
            let action = if allow_edit {
                owned("edit_winner")
            } else {
                owned("resolve_winner")
            };
            Ok(
                ResolutionPlan {
                    new_status: MarketStatus::Settled,
                    new_option_id: Some(winner.id),
                    new_revision,
                    credits,
                    total_amount: total,
                    action_type: action,
                    note: concat("winner=", winner.label.as_str()),
                },
            )
        },
        ResolutionChoice::RefundNa => {
            let (credits, total) = plan_refund_credits(positions);
            let action = if allow_edit {
                owned("edit_refund_na")
            } else {
                owned("resolve_refund_na")
            };
            Ok(
                ResolutionPlan {
                    new_status: MarketStatus::Cancelled,
                    new_option_id: None,
                    new_revision,
                    credits,
                    total_amount: total,
                    action_type: action,
                    note: owned("resolved as N/A with refunds"),
                },
            )
        },
    }
}

/// What a Manifold resolution means for the mirrored market here.
#[derive(Clone, Copy, Debug, PartialEq, Eq, Structural)]
pub enum ExternalSettlement {
    /// Manifold has not resolved it; nothing changes.
    StaysOpen,
    /// The resolution cannot be mapped; a person must look at it.
    NeedsManualReview,
    /// It resolved to no option here; the market is cancelled.
    Cancel,
    /// It resolved to the option with this id, whose holders are paid.
    PayWinner(i64),
}

/// `i` is the first option whose Manifold answer id is `answer_id`.
pub open spec fn first_option_answering(options: Seq<OptionRef>, answer_id: Seq<char>, i: int) -> bool {
    &&& 0 <= i < options.len()
    &&& options[i].external_option_id matches Some(a) && a@ == answer_id
    &&& forall|j: int|
        0 <= j < i ==> !(#[trigger] options[j].external_option_id matches Some(a) && a@ == answer_id)
}

/// Some option's Manifold answer id is `answer_id`.
pub open spec fn some_option_answering(options: Seq<OptionRef>, answer_id: Seq<char>) -> bool {
    exists|k: int|
        0 <= k < options.len() && (#[trigger] options[k].external_option_id matches Some(a) && a@
            == answer_id)
}

/// The option, if any, that a label picks: the first whose label matches.
pub open spec fn labelled_settlement(options: Seq<OptionRef>, label: Seq<char>, s: ExternalSettlement) -> bool {
    if some_option_labelled(options, label) {
        exists|i: int| #[trigger] first_option_labelled(options, label, i) && s == ExternalSettlement::PayWinner(options[i].id)
    } else {
        s == ExternalSettlement::Cancel
    }
}

/// What a Manifold resolution does here: a YES or NO resolution pays the
/// first option with that label, a multiple-choice one pays the first
/// option carrying the winning answer id, and each is a cancellation when
/// no option matches; a cancelled one cancels; an ambiguous one needs
/// review; none leaves the market open.
pub open spec fn external_settlement_holds(
    resolution: Option<ExternalResolution>,
    options: Seq<OptionRef>,
    s: ExternalSettlement,
) -> bool {
    match resolution {
        None => s == ExternalSettlement::StaysOpen,
        Some(ExternalResolution::BinaryYes) => labelled_settlement(options, "YES"@, s),
        Some(ExternalResolution::BinaryNo) => labelled_settlement(options, "NO"@, s),
        Some(ExternalResolution::MultipleChoice { winning_outcome_id }) => if some_option_answering(
            options,
            winning_outcome_id@,
        ) {
            exists|i: int|
                #[trigger] first_option_answering(options, winning_outcome_id@, i) && s
                    == ExternalSettlement::PayWinner(options[i].id)
        } else {
            s == ExternalSettlement::Cancel
        },
        Some(ExternalResolution::Cancelled) => s == ExternalSettlement::Cancel,
        Some(ExternalResolution::Ambiguous(_)) => s == ExternalSettlement::NeedsManualReview,
    }
}

fn settle_on_label(options: &Vec<OptionRef>, label: &str) -> (s: ExternalSettlement)
    ensures
        labelled_settlement(options@, label@, s),
{
    match find_option_labelled(options, label) {
        Some(i) => {
            assert(first_option_labelled(options@, label@, i as int));
            ExternalSettlement::PayWinner(options[i].id)
        },
        None => ExternalSettlement::Cancel,
    }
}

/// Decides what a Manifold resolution does to the mirrored market.
pub fn external_settlement(resolution: &Option<ExternalResolution>, options: &Vec<OptionRef>) -> (s:
    ExternalSettlement)
    ensures
        external_settlement_holds(*resolution, options@, s),
{
    match resolution {
        None => ExternalSettlement::StaysOpen,
        Some(ExternalResolution::BinaryYes) => settle_on_label(options, "YES"),
        Some(ExternalResolution::BinaryNo) => settle_on_label(options, "NO"),
        Some(ExternalResolution::MultipleChoice { winning_outcome_id }) => {
            let mut i: usize = 0;
            while i < options.len()
                invariant
                    i <= options.len(),
                    resolution == Some(ExternalResolution::MultipleChoice { winning_outcome_id: *winning_outcome_id }),
                    forall|j: int|
                        0 <= j < i ==> !(#[trigger] options@[j].external_option_id matches Some(a)
                            && a@ == winning_outcome_id@),
                decreases options.len() - i,
            {
                let hit = match &options[i].external_option_id {
                    Some(a) => str_eq(a.as_str(), winning_outcome_id.as_str()),
                    None => false,
                };
                if hit {
                    assert(first_option_answering(options@, winning_outcome_id@, i as int));
                    assert(some_option_answering(options@, winning_outcome_id@));
                    return ExternalSettlement::PayWinner(options[i].id);
                }
                i = i + 1;
            }
            ExternalSettlement::Cancel
        },
        Some(ExternalResolution::Cancelled) => ExternalSettlement::Cancel,
        Some(ExternalResolution::Ambiguous(_)) => ExternalSettlement::NeedsManualReview,
    }
}

/// The status a mirrored market takes for a Manifold settlement.
pub open spec fn settlement_status(s: ExternalSettlement) -> MarketStatus {
    match s {
        ExternalSettlement::StaysOpen => MarketStatus::Open,
        ExternalSettlement::NeedsManualReview => MarketStatus::NeedsManualReview,
        ExternalSettlement::Cancel => MarketStatus::Cancelled,
        ExternalSettlement::PayWinner(_) => MarketStatus::Settled,
    }
}

/// What settling a mirrored market does.
#[derive(Clone, Debug)]
pub struct ExternalSettlementPlan {
    pub status: MarketStatus,
    pub winner_option_id: Option<i64>,
    /// Payouts to the holders of the winning option, in order.
    pub credits: Vec<Credit>,
    pub total_paid_mana: i64,
}

/// Settles a mirrored market after a Manifold resolution: the holders of
/// the winning option are paid their rounded share counts and the market
/// is settled; otherwise it is cancelled, flagged for review, or left
/// open, and nobody is paid.
pub fn plan_external_settlement(
    resolution: &Option<ExternalResolution>,
    options: &Vec<OptionRef>,
    positions: &Vec<SettlementPosition>,
) -> (r: ExternalSettlementPlan)
    requires
        forall|w: i64| winner_sums_fit(positions@, w),
    ensures
        exists|s: ExternalSettlement|
            #[trigger] external_settlement_holds(*resolution, options@, s) && r.status
                == settlement_status(s) && match s {
                ExternalSettlement::PayWinner(w) => {
                    &&& r.winner_option_id == Some(w)
                    &&& credits_view(r.credits@) == winner_credits(positions@, w)
                    &&& r.total_paid_mana == credit_sum(winner_credits(positions@, w))
                },
                _ => r.winner_option_id is None && r.credits@.len() == 0 && r.total_paid_mana == 0,
            },
{
    let s = external_settlement(resolution, options);
    match s {
        ExternalSettlement::PayWinner(w) => {
            let (credits, total) = plan_winner_credits(positions, w);
            ExternalSettlementPlan {
                status: MarketStatus::Settled,
                winner_option_id: Some(w),
                credits,
                total_paid_mana: total,
            }
        },
        ExternalSettlement::StaysOpen => ExternalSettlementPlan {
            status: MarketStatus::Open,
            winner_option_id: None,
            credits: Vec::new(),
            total_paid_mana: 0,
        },
        ExternalSettlement::NeedsManualReview => ExternalSettlementPlan {
            status: MarketStatus::NeedsManualReview,
            winner_option_id: None,
            credits: Vec::new(),
            total_paid_mana: 0,
        },
        ExternalSettlement::Cancel => ExternalSettlementPlan {
            status: MarketStatus::Cancelled,
            winner_option_id: None,
            credits: Vec::new(),
            total_paid_mana: 0,
        },
    }
}

/// The first reason, if any, `actor` may not delegate resolve power over
/// the market to `resolver`.
pub open spec fn add_resolver_refusal(
    market: ResolvableMarket,
    guild_id: Seq<char>,
    actor: Seq<char>,
    resolver: Seq<char>,
) -> Option<Refusal> {
    if outside_guild(market, guild_id) is Some {
        outside_guild(market, guild_id)
    } else if market.creator_discord_user_id@ != actor {
        Some((ErrorKind::Validation, "only the market creator can manage resolver permissions"@))
    } else if market.market_type != MarketType::Native {
        Some((ErrorKind::Validation, "resolver delegation is only used for native markets"@))
    } else if resolver == market.creator_discord_user_id@ {
        Some((ErrorKind::Validation, "the market creator already has resolve power"@))
    } else {
        None
    }
}

/// Checks that `actor` may give `resolver` resolve power over the market.
pub fn check_add_resolver(
    market: &ResolvableMarket,
    guild_id: &str,
    actor_user_id: &str,
    resolver_user_id: &str,
) -> (r: Result<(), AppError>)
    ensures
        match add_resolver_refusal(*market, guild_id@, actor_user_id@, resolver_user_id@) {
            Some(f) => refused_as(r, f),
            None => r is Ok,
        },
{
    ensure_market_in_guild(guild_id, market)?;
    if !str_eq(market.creator_discord_user_id.as_str(), actor_user_id) {
        return Err(
            AppError::Validation(owned("only the market creator can manage resolver permissions")),
        );
    }
    if market.market_type != MarketType::Native {
        return Err(
            AppError::Validation(owned("resolver delegation is only used for native markets")),
        );
    }
    if str_eq(resolver_user_id, market.creator_discord_user_id.as_str()) {
        return Err(AppError::Validation(owned("the market creator already has resolve power")));
    }
    Ok(())
}

/// The first reason, if any, `actor` may not take resolve power over the
/// market away from `resolver`.
pub open spec fn remove_resolver_refusal(
    market: ResolvableMarket,
    guild_id: Seq<char>,
    actor: Seq<char>,
    resolver: Seq<char>,
) -> Option<Refusal> {
    if outside_guild(market, guild_id) is Some {
        outside_guild(market, guild_id)
    } else if market.creator_discord_user_id@ != actor {
        Some((ErrorKind::Validation, "only the market creator can manage resolver permissions"@))
    } else if resolver == market.creator_discord_user_id@ {
        Some((ErrorKind::Validation, "the market creator's own resolve power cannot be removed"@))
    } else {
        None
    }
}

/// Checks that `actor` may take `resolver`'s resolve power away.
pub fn check_remove_resolver(
    market: &ResolvableMarket,
    guild_id: &str,
    actor_user_id: &str,
    resolver_user_id: &str,
) -> (r: Result<(), AppError>)
    ensures
        match remove_resolver_refusal(*market, guild_id@, actor_user_id@, resolver_user_id@) {
            Some(f) => refused_as(r, f),
            None => r is Ok,
        },
{
    ensure_market_in_guild(guild_id, market)?;
    if !str_eq(market.creator_discord_user_id.as_str(), actor_user_id) {
        return Err(
            AppError::Validation(owned("only the market creator can manage resolver permissions")),
        );
    }
    if str_eq(resolver_user_id, market.creator_discord_user_id.as_str()) {
        return Err(
            AppError::Validation(owned("the market creator's own resolve power cannot be removed")),
        );
    }
    Ok(())
}

/// A money event of a resolution revision, as recorded.
#[derive(Clone, Debug)]
pub struct ResolutionEvent {
    pub discord_user_id: String,
    pub related_option_id: Option<i64>,
    pub amount_mana: i64,
}

/// The events of a revision as member ids and amounts.
pub open spec fn events_view(events: Seq<ResolutionEvent>) -> Seq<(Seq<char>, int)> {
    events.map_values(|e: ResolutionEvent| (e.discord_user_id@, e.amount_mana as int))
}

/// The credits that undo a list of credits: the same members, the amounts
/// negated.
pub open spec fn negated(credits: Seq<(Seq<char>, int)>) -> Seq<(Seq<char>, int)> {
    credits.map_values(|c: (Seq<char>, int)| (c.0, -c.1))
}

/// Undoes the money events of the previous resolution revision before an
/// edit: each is answered by an event with the same member and option and
/// the opposite amount.
pub fn plan_reversal(events: &Vec<ResolutionEvent>) -> (r: Vec<ResolutionEvent>)
    requires
        forall|k: int| 0 <= k < events@.len() ==> #[trigger] events@[k].amount_mana > i64::MIN,
    ensures
        r@.len() == events@.len(),
        forall|k: int|
            0 <= k < r@.len() ==> {
                &&& (#[trigger] r@[k]).discord_user_id@ == events@[k].discord_user_id@
                &&& r@[k].related_option_id == events@[k].related_option_id
                &&& r@[k].amount_mana == -events@[k].amount_mana
            },
        events_view(r@) == negated(events_view(events@)),
{
    let mut out: Vec<ResolutionEvent> = Vec::new();
    let mut k: usize = 0;
    while k < events.len()
        invariant
            k <= events.len(),
            forall|j: int| 0 <= j < events@.len() ==> #[trigger] events@[j].amount_mana > i64::MIN,
            out@.len() == k,
            forall|j: int|
                0 <= j < k ==> {
                    &&& (#[trigger] out@[j]).discord_user_id@ == events@[j].discord_user_id@
                    &&& out@[j].related_option_id == events@[j].related_option_id
                    &&& out@[j].amount_mana == -events@[j].amount_mana
                },
        decreases events.len() - k,
    {
        let e = &events[k];
        out.push(
            ResolutionEvent {
                discord_user_id: e.discord_user_id.clone(),
                related_option_id: e.related_option_id,
                amount_mana: 0 - e.amount_mana,
            },
        );
        k = k + 1;
    }
    assert(events_view(out@) =~= negated(events_view(events@)));
    out
}

/// The note recorded on the events that undo revision `revision`.
pub fn reversal_note(revision: i64) -> (r: String)
    ensures
        r@ == "reversed revision "@ + int_decimal(revision as int),
{
    let mut m = owned("reversed revision ");
    push_int_decimal(&mut m, revision);
    m
}

/// The balances after crediting each member in turn.
pub open spec fn apply_credits(ledger: Ledger, credits: Seq<(Seq<char>, int)>) -> Ledger
    decreases credits.len(),
{
    if credits.len() == 0 {
        ledger
    } else {
        let before = apply_credits(ledger, credits.drop_last());
        let c = credits.last();
        before.insert(c.0, before[c.0] + c.1)
    }
}

/// What a list of credits adds up to for one member.
pub open spec fn credited_to(credits: Seq<(Seq<char>, int)>, member: Seq<char>) -> int
    decreases credits.len(),
{
    if credits.len() == 0 {
        0
    } else {
        credited_to(credits.drop_last(), member) + if credits.last().0 == member {
            credits.last().1
        } else {
            0
        }
    }
}

proof fn lemma_apply_credits(ledger: Ledger, credits: Seq<(Seq<char>, int)>)
    requires
        forall|k: int| 0 <= k < credits.len() ==> ledger.dom().contains(#[trigger] credits[k].0),
    ensures
        apply_credits(ledger, credits).dom() =~= ledger.dom(),
        forall|u: Seq<char>|
            ledger.dom().contains(u) ==> #[trigger] apply_credits(ledger, credits)[u] == ledger[u]
                + credited_to(credits, u),
    decreases credits.len(),
{
    if credits.len() > 0 {
        let rest = credits.drop_last();
        assert forall|k: int| 0 <= k < rest.len() implies ledger.dom().contains(#[trigger] rest[k].0) by {
            assert(rest[k] == credits[k]);
        }
        lemma_apply_credits(ledger, rest);
        assert(ledger.dom().contains(credits[credits.len() - 1].0));
    }
}

proof fn lemma_credited_to_negated(credits: Seq<(Seq<char>, int)>, member: Seq<char>)
    ensures
        credited_to(negated(credits), member) == -credited_to(credits, member),
    decreases credits.len(),
{
    if credits.len() > 0 {
        assert(negated(credits).drop_last() =~= negated(credits.drop_last()));
        lemma_credited_to_negated(credits.drop_last(), member);
    }
}

/// Undoing a resolution before an edit restores every balance: crediting
/// the members of a revision and then crediting its reversal leaves the
/// ledger exactly as it was (for members who have accounts).
pub proof fn lemma_reversal_restores_balances(ledger: Ledger, credits: Seq<(Seq<char>, int)>)
    requires
        forall|k: int| 0 <= k < credits.len() ==> ledger.dom().contains(#[trigger] credits[k].0),
    ensures
        apply_credits(apply_credits(ledger, credits), negated(credits)) == ledger,
{
    lemma_apply_credits(ledger, credits);
    let middle = apply_credits(ledger, credits);
    let back = negated(credits);
    assert forall|k: int| 0 <= k < back.len() implies middle.dom().contains(#[trigger] back[k].0) by {
        assert(back[k].0 == credits[k].0);
    }
    lemma_apply_credits(middle, back);
    assert forall|u: Seq<char>| ledger.dom().contains(u) implies #[trigger] apply_credits(middle, back)[u]
        == ledger[u] by {
        lemma_credited_to_negated(credits, u);
    }
    assert(apply_credits(middle, back) =~= ledger);
}

/// Editing a resolution pays only the new outcome: crediting the members
/// of the first resolution, then its reversal, then the credits of the new
/// resolution leaves each member (with an account) at the old balance plus
/// what the new resolution credits them, as if the first had never been.
pub proof fn lemma_edit_pays_only_the_new_outcome(
    before: Ledger,
    first: Seq<(Seq<char>, int)>,
    second: Seq<(Seq<char>, int)>,
)
    requires
        forall|k: int| 0 <= k < first.len() ==> before.dom().contains(#[trigger] first[k].0),
        forall|k: int| 0 <= k < second.len() ==> before.dom().contains(#[trigger] second[k].0),
    ensures
        apply_credits(apply_credits(apply_credits(before, first), negated(first)), second)
            == apply_credits(before, second),
        forall|u: Seq<char>|
            before.dom().contains(u) ==> #[trigger] apply_credits(
                apply_credits(apply_credits(before, first), negated(first)),
                second,
            )[u] == before[u] + credited_to(second, u),
{
    lemma_reversal_restores_balances(before, first);
    lemma_apply_credits(before, second);
}

/// The label of the option a market resolved to, if it resolved to one
/// that it still has.
pub open spec fn winning_label(resolved_option_id: Option<i64>, options: Seq<OptionRef>) -> Option<Seq<char>> {
    match resolved_option_id {
        None => None,
        Some(w) => if exists|k: int| 0 <= k < options.len() && #[trigger] options[k].id == w {
            Some(
                options[choose|k: int|
                    0 <= k < options.len() && #[trigger] options[k].id == w && forall|j: int|
                        0 <= j < k ==> #[trigger] options[j].id != w].label@,
            )
        } else {
            None
        },
    }
}

/// The label of the option a market resolved to.
pub fn winning_option_label(resolved_option_id: Option<i64>, options: &Vec<OptionRef>) -> (r: Option<String>)
    ensures
        match resolved_option_id {
            None => r is None,
            Some(w) => match r {
                Some(l) => exists|i: int|
                    0 <= i < options@.len() && #[trigger] options@[i].id == w && l@ == options@[i].label@
                        && forall|j: int| 0 <= j < i ==> #[trigger] options@[j].id != w,
                None => forall|j: int| 0 <= j < options@.len() ==> #[trigger] options@[j].id != w,
            },
        },
{
    match resolved_option_id {
        None => None,
        Some(w) => {
            let mut i: usize = 0;
            while i < options.len()
                invariant
                    i <= options.len(),
                    resolved_option_id == Some(w),
                    forall|j: int| 0 <= j < i ==> #[trigger] options@[j].id != w,
                decreases options.len() - i,
            {
                if options[i].id == w {
                    return Some(options[i].label.clone());
                }
                i = i + 1;
            }
            None
        },
    }
}

/// The market fields an announcement is made from.
#[derive(Clone, Debug)]
pub struct PolledMarket {
    pub id: i64,
    pub channel_id: String,
    pub question: String,
    pub status: MarketStatus,
    pub market_type: MarketType,
    pub resolved_option_id: Option<i64>,
    pub external_url: Option<String>,
}

/// Announces a polled market that left the open state: where to post, the
/// winning option, and what was paid out (when it settled). An open market
/// is not announced; a stored channel id that is not a number is an error.
pub fn resolution_announcement(market: PolledMarket, options: &Vec<OptionRef>, settled_payout: i64) -> (r:
    Result<Option<MarketResolutionAnnouncement>, AppError>)
    ensures
        market.status == MarketStatus::Open ==> r == Ok::<
            Option<MarketResolutionAnnouncement>,
            AppError,
        >(None),
        market.status != MarketStatus::Open ==> match parse_u64_spec(market.channel_id@) {
            None => fails_with(
                r,
                ErrorKind::External,
                "invalid channel id stored for market "@ + int_decimal(market.id as int),
            ),
            Some(channel) => r matches Ok(Some(a)) && {
                &&& a.channel_id == channel
                &&& a.market_id == market.id
                &&& a.question@ == market.question@
                &&& a.status == market.status
                &&& a.market_type == market.market_type
                &&& a.total_payout == (if market.status == MarketStatus::Settled {
                    settled_payout
                } else {
                    0
                })
                &&& a.external_url == market.external_url
                &&& (market.resolved_option_id is None ==> a.winning_option is None)
            },
        },
{
    if market.status == MarketStatus::Open {
        return Ok(None);
    }
    let winning_option = winning_option_label(market.resolved_option_id, options);
    let total_payout = if market.status == MarketStatus::Settled {
        settled_payout
    } else {
        0
    };
    let channel_id = match parse_u64(market.channel_id.as_str()) {
        Some(c) => c,
        None => {
            let mut m = owned("invalid channel id stored for market ");
            push_int_decimal(&mut m, market.id);
            return Err(AppError::External(m));
        },
    };
    Ok(
        Some(
            MarketResolutionAnnouncement {
                channel_id,
                market_id: market.id,
                question: market.question,
                status: market.status,
                market_type: market.market_type,
                winning_option,
                total_payout,
                external_url: market.external_url,
            },
        ),
    )
}

/// The status a market listing filters on: the one asked for, `open` when
/// none is; `None` for `all`, which lists every status.
pub fn market_status_filter(status: Option<String>) -> (r: Option<String>)
    ensures
        match status {
            None => r matches Some(s) && s@ == "open"@,
            Some(s) => if s@ == "all"@ {
                r is None
            } else {
                r matches Some(t) && t@ == s@
            },
        },
{
    match status {
        None => Some(owned("open")),
        Some(s) => if str_eq(s.as_str(), "all") {
            None
        } else {
            Some(s)
        },
    }
}

/// The label of a market in an autocomplete list.
pub fn market_choice_label(market_id: i64, market_type: &str, status: &str, question: &str) -> (r: String)
    ensures
        r@ == "#"@ + int_decimal(market_id as int) + " ["@ + market_type@ + "|"@ + status@ + "] "@
            + question@,
{
    let mut m = owned("#");
    push_int_decimal(&mut m, market_id);
    push_str(&mut m, " [");
    push_str(&mut m, market_type);
    push_str(&mut m, "|");
    push_str(&mut m, status);
    push_str(&mut m, "] ");
    push_str(&mut m, question);
    m
}

} // verus!
