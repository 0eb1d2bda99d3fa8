//! Markets: their kinds and lifecycle states, the records the economy keeps
//! about them, and the checks applied when one is created.

use vstd::prelude::*;
use vstd::string::*;

use crate::error::{fails_with, AppError, ErrorKind};
use crate::text::{
    concat, eq_ignore_ascii_case, eq_ignore_case, int_decimal, owned, push_int_decimal, push_str,
    str_eq, trim, trim_seq,
};

verus! {

/// Who prices and resolves a market.
#[derive(Clone, Copy, Debug, PartialEq, Eq, Structural)]
pub enum MarketType {
    /// Priced by the bot's own LMSR book and resolved by its creator.
    Native,
    /// Mirrors a Manifold market, which prices and resolves it.
    Manifold,
}

/// The lifecycle state of a market.
#[derive(Clone, Copy, Debug, PartialEq, Eq, Structural)]
pub enum MarketStatus {
    Open,
    Closed,
    Resolved,
    Settled,
    Cancelled,
    NeedsManualReview,
}

/// The market type that a stored type name denotes: `manifold`, or else
/// native.
pub open spec fn market_type_from_text(t: Seq<char>) -> MarketType {
    if t == "manifold"@ {
        MarketType::Manifold
    } else {
        MarketType::Native
    }
}

/// The stored name of a market status.
pub open spec fn status_text(s: MarketStatus) -> Seq<char> {
    match s {
        MarketStatus::Open => "open"@,
        MarketStatus::Closed => "closed"@,
        MarketStatus::Resolved => "resolved"@,
        MarketStatus::Settled => "settled"@,
        MarketStatus::Cancelled => "cancelled"@,
        MarketStatus::NeedsManualReview => "needs_manual_review"@,
    }
}

/// The status that a stored name denotes; unknown names read as open.
pub open spec fn status_from_text(t: Seq<char>) -> MarketStatus {
    if t == "closed"@ {
        MarketStatus::Closed
    } else if t == "resolved"@ {
        MarketStatus::Resolved
    } else if t == "settled"@ {
        MarketStatus::Settled
    } else if t == "cancelled"@ {
        MarketStatus::Cancelled
    } else if t == "needs_manual_review"@ {
        MarketStatus::NeedsManualReview
    } else {
        MarketStatus::Open
    }
}

impl MarketType {
    /// Reads a stored market type name.
    pub fn from_str(value: &str) -> (r: MarketType)
        ensures
            r == market_type_from_text(value@),
    {
        if str_eq(value, "manifold") {
            MarketType::Manifold
        } else {
            MarketType::Native
        }
    }
}

impl MarketStatus {
    /// The stored name of this status.
    pub fn as_str(self) -> (r: &'static str)
        ensures
            r@ == status_text(self),
    {
        match self {
            MarketStatus::Open => "open",
            MarketStatus::Closed => "closed",
            MarketStatus::Resolved => "resolved",
            MarketStatus::Settled => "settled",
            MarketStatus::Cancelled => "cancelled",
            MarketStatus::NeedsManualReview => "needs_manual_review",
        }
    }

    /// Reads a stored status name.
    pub fn from_str(value: &str) -> (r: MarketStatus)
        ensures
            r == status_from_text(value@),
    {
        if str_eq(value, "closed") {
            MarketStatus::Closed
        } else if str_eq(value, "resolved") {
            MarketStatus::Resolved
        } else if str_eq(value, "settled") {
            MarketStatus::Settled
        } else if str_eq(value, "cancelled") {
            MarketStatus::Cancelled
        } else if str_eq(value, "needs_manual_review") {
            MarketStatus::NeedsManualReview
        } else {
            MarketStatus::Open
        }
    }
}

/// Reading back the stored name of a status gives the same status.
pub proof fn lemma_status_round_trip(s: MarketStatus)
    ensures
        status_from_text(status_text(s)) == s,
{
    reveal_strlit("open");
    reveal_strlit("closed");
    reveal_strlit("resolved");
    reveal_strlit("settled");
    reveal_strlit("cancelled");
    reveal_strlit("needs_manual_review");
    assert("open"@.len() == 4);
    assert("closed"@.len() == 6);
    assert("resolved"@.len() == 8);
    assert("settled"@.len() == 7);
    assert("cancelled"@.len() == 9);
    assert("needs_manual_review"@.len() == 19);
}

/// Distinct statuses have distinct stored names.
pub proof fn lemma_status_text_injective(a: MarketStatus, b: MarketStatus)
    ensures
        status_text(a) == status_text(b) ==> a == b,
{
    lemma_status_round_trip(a);
    lemma_status_round_trip(b);
}

/// Whether a status is final for a native market (no more trading or
/// resolving without an edit).
pub open spec fn is_final_status(s: MarketStatus) -> bool {
    s == MarketStatus::Resolved || s == MarketStatus::Settled || s == MarketStatus::Cancelled
}

/// The status of a Manifold market as Manifold reports it.
#[derive(Clone, Copy, Debug, PartialEq, Eq, Structural)]
pub enum ExternalMarketStatus {
    Open,
    Closed,
    Resolved,
    Unknown,
}

/// How a Manifold market resolved.
#[derive(Clone, Debug)]
pub enum ExternalResolution {
    BinaryYes,
    BinaryNo,
    MultipleChoice { winning_outcome_id: String },
    Cancelled,
    Ambiguous(String),
}

/// One member's account in one guild's economy.
#[derive(Clone, Debug)]
pub struct GuildAccountRecord {
    pub id: i64,
    pub guild_id: String,
    pub discord_user_id: String,
    pub display_name: Option<String>,
    pub balance_mana: i64,
    pub total_claimed_mana: i64,
    pub last_claim_at: Option<String>,
    pub created_at: String,
    pub updated_at: String,
}

/// One line of a market listing.
#[derive(Clone, Debug)]
pub struct ListMarketsItem {
    pub id: i64,
    pub question: String,
    pub status: String,
    pub market_type: String,
}

/// What the poller announces when a tracked market leaves the open state.
#[derive(Clone, Debug)]
pub struct MarketResolutionAnnouncement {
    pub channel_id: u64,
    pub market_id: i64,
    pub question: String,
    pub status: MarketStatus,
    pub market_type: MarketType,
    pub winning_option: Option<String>,
    pub total_payout: i64,
    pub external_url: Option<String>,
}

/// The most characters a market question may have.
pub const MAX_QUESTION_CHARS: usize = 200;

/// The fewest options a market may have.
pub const MIN_OPTIONS: usize = 2;

/// The most options a market may have.
pub const MAX_OPTIONS: usize = 10;

/// The first reason, if any, why a market with this question and these
/// option labels may not be created.
pub open spec fn market_request_error(question: Seq<char>, options: Seq<Seq<char>>) -> Option<
    Seq<char>,
> {
    if trim_seq(question).len() == 0 {
        Some("market question cannot be empty"@)
    } else if question.len() > MAX_QUESTION_CHARS {
        Some("market question must be 200 characters or fewer"@)
    } else if !(MIN_OPTIONS <= options.len() <= MAX_OPTIONS) {
        Some("markets must have between 2 and 10 options"@)
    } else if exists|k: int| 0 <= k < options.len() && #[trigger] trim_seq(options[k]).len() == 0 {
        Some("market options cannot be empty"@)
    } else {
        None
    }
}

/// Checks a request to open a native market: a non-blank question of at
/// most 200 characters and between 2 and 10 non-blank options.
pub fn validate_market_request(question: &str, options: &Vec<String>) -> (r: Result<(), AppError>)
    ensures
        match market_request_error(question@, options@.map_values(|o: String| o@)) {
            Some(m) => fails_with(r, ErrorKind::Validation, m),
            None => r is Ok,
        },
{
    let ghost opts = options@.map_values(|o: String| o@);
    if trim(question).unicode_len() == 0 {
        return Err(AppError::Validation(owned("market question cannot be empty")));
    }
    if question.unicode_len() > MAX_QUESTION_CHARS {
        return Err(AppError::Validation(owned("market question must be 200 characters or fewer")));
    }
    if options.len() < MIN_OPTIONS || options.len() > MAX_OPTIONS {
        return Err(AppError::Validation(owned("markets must have between 2 and 10 options")));
    }
    let mut i: usize = 0;
    while i < options.len()
        invariant
            i <= options.len(),
            opts == options@.map_values(|o: String| o@),
            trim_seq(question@).len() != 0,
            question@.len() <= MAX_QUESTION_CHARS,
            MIN_OPTIONS <= options.len() <= MAX_OPTIONS,
            forall|k: int| 0 <= k < i ==> #[trigger] trim_seq(opts[k]).len() != 0,
        decreases options.len() - i,
    {
        if trim(options[i].as_str()).unicode_len() == 0 {
            assert(trim_seq(opts[i as int]).len() == 0);
            return Err(AppError::Validation(owned("market options cannot be empty")));
        }
        i = i + 1;
    }
    Ok(())
}

/// The position of the first label equal to `label` when ASCII case is
/// ignored.
pub open spec fn first_matching_label(labels: Seq<Seq<char>>, label: Seq<char>) -> Option<int> {
    if exists|k: int| 0 <= k < labels.len() && eq_ignore_case(#[trigger] labels[k], label) {
        Some(
            choose|k: int|
                0 <= k < labels.len() && eq_ignore_case(#[trigger] labels[k], label) && forall|
                    j: int,
                |
                    0 <= j < k ==> !eq_ignore_case(#[trigger] labels[j], label),
        )
    } else {
        None
    }
}

/// Finds the option whose label matches `label` without regard to ASCII
/// case; the first such option wins.
pub fn find_option_index(labels: &Vec<String>, label: &str) -> (r: Result<usize, AppError>)
    ensures
        match r {
            Ok(i) => i < labels.len() && eq_ignore_case(labels@[i as int]@, label@) && forall|
                j: int,
            |
                0 <= j < i ==> !eq_ignore_case(#[trigger] labels@[j]@, label@),
            Err(e) => e.kind() == ErrorKind::NotFound && e.message() == "option `"@ + label@
                + "` was not found"@ && forall|j: int|
                0 <= j < labels.len() ==> !eq_ignore_case(#[trigger] labels@[j]@, label@),
        },
{
    let mut i: usize = 0;
    while i < labels.len()
        invariant
            i <= labels.len(),
            forall|j: int| 0 <= j < i ==> !eq_ignore_case(#[trigger] labels@[j]@, label@),
        decreases labels.len() - i,
    {
        if eq_ignore_ascii_case(labels[i].as_str(), label) {
            return Ok(i);
        }
        i = i + 1;
    }
    let m = concat(concat("option `", label).as_str(), "` was not found");
    Err(AppError::NotFound(m))
}

/// Some label matches `label` when ASCII case is ignored.
pub open spec fn label_matches(labels: Seq<String>, label: Seq<char>) -> bool {
    exists|k: int| 0 <= k < labels.len() && eq_ignore_case(#[trigger] labels[k]@, label)
}

/// `i` is the first label matching `label` when ASCII case is ignored.
pub open spec fn first_match_at(labels: Seq<String>, label: Seq<char>, i: int) -> bool {
    &&& 0 <= i < labels.len()
    &&& eq_ignore_case(labels[i]@, label)
    &&& forall|j: int| 0 <= j < i ==> !eq_ignore_case(#[trigger] labels[j]@, label)
}

/// The error for a market id that does not exist.
pub fn market_not_found(market_id: i64) -> (e: AppError)
    ensures
        e.kind() == ErrorKind::NotFound,
        e.message() == "market "@ + int_decimal(market_id as int) + " was not found"@,
{
    let mut m = owned("market ");
    push_int_decimal(&mut m, market_id);
    push_str(&mut m, " was not found");
    AppError::NotFound(m)
}

} // verus!
