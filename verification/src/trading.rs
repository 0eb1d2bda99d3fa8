//! The trading rules that do not depend on share prices: which buys, sells
//! and share offers a market takes, when an offer between members can be
//! accepted, and when a mirrored market's snapshot must be refreshed.
//!
//! Share quantities are fractional and stay with the caller; the checks
//! below take the outcome of comparing them (whether an amount is positive,
//! whether a holding covers it) as plain booleans.

use vstd::prelude::*;

use crate::clock::{
    instant_in_range, parse_instant, parse_rfc3339_utc, parsed_instant, shift, shifted,
    whole_seconds, MAX_SPAN_SECONDS, NANOS_PER_SECOND,
};
use crate::error::{fails_with, AppError, ErrorKind};
use crate::market::{
    find_option_index, first_match_at, label_matches, market_not_found, MarketStatus,
};
use crate::social::{move_money, refused_as, Ledger, Refusal};
use crate::text::{int_decimal, owned, push_int_decimal, push_str, str_eq};
use crate::ui::{safe_trim_text, ui_safe_trim};

verus! {

/// A member's order to spend money on shares of one option.
#[derive(Clone, Debug)]
pub struct BuyRequest {
    pub user_id: String,
    pub display_name: String,
    pub market_id: i64,
    pub option_label: String,
    pub amount_mana: i64,
}

/// The error of an option label that no option of the market matches.
pub open spec fn unknown_option(label: Seq<char>) -> Refusal {
    (ErrorKind::NotFound, "option `"@ + label + "` was not found"@)
}

/// The first reason, if any, a buy order is refused: the market is not
/// open, the amount is not positive, no option matches, or the buyer
/// cannot pay.
pub open spec fn buy_refusal(
    status: MarketStatus,
    labels: Seq<String>,
    request: BuyRequest,
    balance: i64,
) -> Option<Refusal> {
    if status != MarketStatus::Open {
        Some((ErrorKind::Conflict, "market is not open for trading"@))
    } else if request.amount_mana <= 0 {
        Some((ErrorKind::Validation, "buy amount must be positive"@))
    } else if !label_matches(labels, request.option_label@) {
        Some(unknown_option(request.option_label@))
    } else if balance < request.amount_mana {
        Some((ErrorKind::Conflict, "insufficient fake mana balance"@))
    } else {
        None
    }
}

/// Checks a buy order against a market in `status` with these option
/// labels and the buyer's balance; gives the position of the option bought.
pub fn check_buy(request: &BuyRequest, status: MarketStatus, labels: &Vec<String>, balance: i64) -> (r:
    Result<usize, AppError>)
    ensures
        match buy_refusal(status, labels@, *request, balance) {
            Some(f) => refused_as(r, f),
            None => r matches Ok(i) && first_match_at(labels@, request.option_label@, i as int),
        },
{
    if status != MarketStatus::Open {
        return Err(AppError::Conflict(owned("market is not open for trading")));
    }
    if request.amount_mana <= 0 {
        return Err(AppError::Validation(owned("buy amount must be positive")));
    }
    let index = find_option_index(labels, request.option_label.as_str())?;
    if balance < request.amount_mana {
        return Err(AppError::Conflict(owned("insufficient fake mana balance")));
    }
    Ok(index)
}

/// The first reason, if any, a sell order is refused: the market is not
/// open, no option matches, the amount is not positive, or the seller does
/// not hold that many shares.
pub open spec fn sell_refusal(
    status: MarketStatus,
    labels: Seq<String>,
    label: Seq<char>,
    shares_positive: bool,
    holds_enough: bool,
) -> Option<Refusal> {
    if status != MarketStatus::Open {
        Some((ErrorKind::Conflict, "market is not open for selling"@))
    } else if !label_matches(labels, label) {
        Some(unknown_option(label))
    } else if !shares_positive {
        Some((ErrorKind::Validation, "sell shares must be positive"@))
    } else if !holds_enough {
        Some((ErrorKind::Conflict, "cannot sell more shares than you hold"@))
    } else {
        None
    }
}

/// A sale is accepted only on an open market, for an option the market
/// has, of a positive number of shares the member holds; on any market that
/// is not open it is refused as a conflict, whatever else holds.
pub proof fn lemma_sales_only_on_open_markets(
    status: MarketStatus,
    labels: Seq<String>,
    label: Seq<char>,
    shares_positive: bool,
    holds_enough: bool,
)
    ensures
        status != MarketStatus::Open ==> sell_refusal(status, labels, label, shares_positive, holds_enough)
            == Some((ErrorKind::Conflict, "market is not open for selling"@)),
        sell_refusal(status, labels, label, shares_positive, holds_enough) is None <==> (status
            == MarketStatus::Open && label_matches(labels, label) && shares_positive && holds_enough),
{
}

/// Checks a sell order of a positive (`shares_positive`) number of shares
/// that the seller's holding covers (`holds_enough`); gives the position of
/// the option sold.
pub fn check_sell(
    status: MarketStatus,
    labels: &Vec<String>,
    label: &str,
    shares_positive: bool,
    holds_enough: bool,
) -> (r: Result<usize, AppError>)
    ensures
        match sell_refusal(status, labels@, label@, shares_positive, holds_enough) {
            Some(f) => refused_as(r, f),
            None => r matches Ok(i) && first_match_at(labels@, label@, i as int),
        },
        status != MarketStatus::Open ==> fails_with(r, ErrorKind::Conflict, "market is not open for selling"@),
        r is Ok ==> status == MarketStatus::Open && shares_positive && holds_enough && label_matches(
            labels@,
            label@,
        ),
{
    if status != MarketStatus::Open {
        return Err(AppError::Conflict(owned("market is not open for selling")));
    }
    let index = find_option_index(labels, label)?;
    if !shares_positive {
        return Err(AppError::Validation(owned("sell shares must be positive")));
    }
    if !holds_enough {
        return Err(AppError::Conflict(owned("cannot sell more shares than you hold")));
    }
    Ok(index)
}

/// The first reason, if any, the terms of a share offer are refused: the
/// seller offers to themself, or the amount or the price is not positive.
pub open spec fn offer_terms_refusal(
    seller: Seq<char>,
    buyer: Seq<char>,
    shares_positive: bool,
    price_mana: i64,
) -> Option<Refusal> {
    if seller == buyer {
        Some((ErrorKind::Validation, "you cannot sell shares to yourself"@))
    } else if !shares_positive {
        Some((ErrorKind::Validation, "share offer amount must be positive"@))
    } else if price_mana <= 0 {
        Some((ErrorKind::Validation, "offer price must be positive"@))
    } else {
        None
    }
}

/// Checks the parties, amount and price of a share offer.
pub fn check_share_offer_terms(
    seller_user_id: &str,
    buyer_user_id: &str,
    shares_positive: bool,
    price_mana: i64,
) -> (r: Result<(), AppError>)
    ensures
        match offer_terms_refusal(seller_user_id@, buyer_user_id@, shares_positive, price_mana) {
            Some(f) => refused_as(r, f),
            None => r is Ok,
        },
{
    if str_eq(seller_user_id, buyer_user_id) {
        return Err(AppError::Validation(owned("you cannot sell shares to yourself")));
    }
    if !shares_positive {
        return Err(AppError::Validation(owned("share offer amount must be positive")));
    }
    if price_mana <= 0 {
        return Err(AppError::Validation(owned("offer price must be positive")));
    }
    Ok(())
}

/// The first reason, if any, a market does not take a share offer: it is
/// not open, no option matches, or the seller does not hold the shares.
pub open spec fn offer_market_refusal(
    status: MarketStatus,
    labels: Seq<String>,
    label: Seq<char>,
    seller_holds_enough: bool,
) -> Option<Refusal> {
    if status != MarketStatus::Open {
        Some((ErrorKind::Conflict, "market is not open for share transfers"@))
    } else if !label_matches(labels, label) {
        Some(unknown_option(label))
    } else if !seller_holds_enough {
        Some((ErrorKind::Conflict, "you cannot offer more shares than you currently hold"@))
    } else {
        None
    }
}

/// Checks that a market in `status` takes a share offer of the labelled
/// option; gives the position of that option.
pub fn check_share_offer_market(
    status: MarketStatus,
    labels: &Vec<String>,
    label: &str,
    seller_holds_enough: bool,
) -> (r: Result<usize, AppError>)
    ensures
        match offer_market_refusal(status, labels@, label@, seller_holds_enough) {
            Some(f) => refused_as(r, f),
            None => r matches Ok(i) && first_match_at(labels@, label@, i as int),
        },
{
    if status != MarketStatus::Open {
        return Err(AppError::Conflict(owned("market is not open for share transfers")));
    }
    let index = find_option_index(labels, label)?;
    if !seller_holds_enough {
        return Err(
            AppError::Conflict(owned("you cannot offer more shares than you currently hold")),
        );
    }
    Ok(index)
}

/// When a share offer made at `now` lapses: after the configured
/// expiration, but never under one second.
pub fn share_offer_expiry(now: i128, expiration_seconds: i64) -> (r: i128)
    requires
        instant_in_range(now as int),
    ensures
        r == shifted(
            now as int,
            if expiration_seconds > 1 {
                expiration_seconds as int
            } else {
                1
            },
        ),
{
    let window: i64 = if expiration_seconds > 1 {
        expiration_seconds
    } else {
        1
    };
    shift(now, window)
}

/// A share offer as stored. Its share quantity stays with the caller.
#[derive(Clone, Debug)]
pub struct ShareOfferRecord {
    pub id: i64,
    pub market_id: i64,
    pub option_id: i64,
    pub seller_discord_user_id: String,
    pub buyer_discord_user_id: String,
    pub price_mana: i64,
    pub status: String,
    pub expires_at: String,
}

/// The error for a share offer id that does not exist.
pub fn share_offer_not_found(offer_id: i64) -> (e: AppError)
    ensures
        e.kind() == ErrorKind::NotFound,
        e.message() == "share offer "@ + int_decimal(offer_id as int) + " was not found"@,
{
    let mut m = owned("share offer ");
    push_int_decimal(&mut m, offer_id);
    push_str(&mut m, " was not found");
    AppError::NotFound(m)
}

/// Why an offer that is no longer pending cannot be answered, if it is not.
pub open spec fn offer_not_pending(offer: ShareOfferRecord) -> Option<Refusal> {
    if offer.status@ != "pending"@ {
        Some(
            (
                ErrorKind::Conflict,
                "share offer #"@ + int_decimal(offer.id as int) + " is already "@ + offer.status@,
            ),
        )
    } else {
        None
    }
}

/// Refuses to answer a share offer that is no longer pending.
pub fn require_pending_offer(offer: &ShareOfferRecord) -> (r: Result<(), AppError>)
    ensures
        match offer_not_pending(*offer) {
            Some(f) => refused_as(r, f),
            None => r is Ok,
        },
{
    if !str_eq(offer.status.as_str(), "pending") {
        let mut m = owned("share offer #");
        push_int_decimal(&mut m, offer.id);
        push_str(&mut m, " is already ");
        push_str(&mut m, offer.status.as_str());
        return Err(AppError::Conflict(m));
    }
    Ok(())
}

/// Why `responder` may not answer the offer, if they may not: it is no
/// longer pending, or it was made to someone else.
pub open spec fn response_refusal(offer: ShareOfferRecord, responder: Seq<char>) -> Option<Refusal> {
    if offer_not_pending(offer) is Some {
        offer_not_pending(offer)
    } else if offer.buyer_discord_user_id@ != responder {
        Some((ErrorKind::Conflict, "that offer is not addressed to you"@))
    } else {
        None
    }
}

/// Checks that `responder` may answer (accept or decline) the offer.
pub fn check_offer_response(offer: &ShareOfferRecord, responder: &str) -> (r: Result<(), AppError>)
    ensures
        match response_refusal(*offer, responder@) {
            Some(f) => refused_as(r, f),
            None => r is Ok,
        },
{
    require_pending_offer(offer)?;
    if !str_eq(offer.buyer_discord_user_id.as_str(), responder) {
        return Err(AppError::Conflict(owned("that offer is not addressed to you")));
    }
    Ok(())
}

/// The first reason, if any, a settlement of an accepted offer is refused:
/// the market is gone or no longer open, the seller no longer holds the
/// shares, or the buyer cannot pay.
pub open spec fn settlement_refusal(
    market_id: i64,
    market_status: Option<MarketStatus>,
    seller_holds_enough: bool,
    buyer_balance: i64,
    price_mana: i64,
) -> Option<Refusal> {
    match market_status {
        None => Some(
            (ErrorKind::NotFound, "market "@ + int_decimal(market_id as int) + " was not found"@),
        ),
        Some(status) => if status != MarketStatus::Open {
            Some((ErrorKind::Conflict, "market is no longer open for share transfers"@))
        } else if !seller_holds_enough {
            Some((ErrorKind::Conflict, "seller no longer holds enough shares for that offer"@))
        } else if buyer_balance < price_mana {
            Some((ErrorKind::Conflict, "you do not have enough fake mana to accept that offer"@))
        } else {
            None
        },
    }
}

/// What refuses the acceptance of a share offer at `now`, if anything, and
/// otherwise when the offer would have lapsed.
pub open spec fn acceptance_outcome(
    offer: ShareOfferRecord,
    buyer: Seq<char>,
    now: int,
    market_status: Option<MarketStatus>,
    seller_holds_enough: bool,
    buyer_balance: i64,
) -> Result<int, Refusal> {
    if response_refusal(offer, buyer) is Some {
        Err(response_refusal(offer, buyer).unwrap())
    } else {
        match parsed_instant(offer.expires_at@) {
            None => Err((ErrorKind::Other, "invalid RFC3339 timestamp: "@ + offer.expires_at@)),
            Some(expires_at) => if now >= expires_at {
                Err((ErrorKind::Conflict, "that share offer already expired"@))
            } else if settlement_refusal(
                offer.market_id,
                market_status,
                seller_holds_enough,
                buyer_balance,
                offer.price_mana,
            ) is Some {
                Err(
                    settlement_refusal(
                        offer.market_id,
                        market_status,
                        seller_holds_enough,
                        buyer_balance,
                        offer.price_mana,
                    ).unwrap(),
                )
            } else {
                Ok(expires_at)
            },
        }
    }
}

/// Decides whether `buyer_user_id` may accept the offer at `now`, given
/// the status of its market (`None` when the market is gone), whether the
/// seller still holds the offered shares and the buyer's balance. The
/// offer must be pending, addressed to the buyer and not yet lapsed, the
/// market open, the shares still held and the price affordable; then the
/// buyer pays the seller the price and the shares change hands. Gives the
/// instant the offer would have lapsed.
pub fn plan_share_offer_acceptance(
    offer: &ShareOfferRecord,
    buyer_user_id: &str,
    now: i128,
    market_status: Option<MarketStatus>,
    seller_holds_enough: bool,
    buyer_balance: i64,
) -> (r: Result<i128, AppError>)
    ensures
        match acceptance_outcome(
            *offer,
            buyer_user_id@,
            now as int,
            market_status,
            seller_holds_enough,
            buyer_balance,
        ) {
            Err(f) => refused_as(r, f),
            Ok(expires_at) => r == Ok::<i128, AppError>(expires_at as i128),
        },
{
    check_offer_response(offer, buyer_user_id)?;
    let expires_at = parse_rfc3339_utc(offer.expires_at.as_str())?;
    if now >= expires_at {
        return Err(AppError::Conflict(owned("that share offer already expired")));
    }
    let status = match market_status {
        Some(s) => s,
        None => {
            return Err(market_not_found(offer.market_id));
        },
    };
    if status != MarketStatus::Open {
        return Err(AppError::Conflict(owned("market is no longer open for share transfers")));
    }
    if !seller_holds_enough {
        return Err(
            AppError::Conflict(owned("seller no longer holds enough shares for that offer")),
        );
    }
    if buyer_balance < offer.price_mana {
        return Err(
            AppError::Conflict(owned("you do not have enough fake mana to accept that offer")),
        );
    }
    Ok(expires_at)
}

/// Accepting a share offer moves exactly its price from the buyer to the
/// seller, leaves everyone else's balance alone, and never takes the buyer
/// below zero.
pub proof fn lemma_offer_acceptance_pays_seller(
    ledger: Ledger,
    offer: ShareOfferRecord,
    buyer: Seq<char>,
    now: int,
    market_status: Option<MarketStatus>,
    seller_holds_enough: bool,
)
    requires
        buyer != offer.seller_discord_user_id@,
        acceptance_outcome(
            offer,
            buyer,
            now,
            market_status,
            seller_holds_enough,
            ledger[buyer] as i64,
        ) is Ok,
        fits_balance(ledger[buyer]),
    ensures
        ({
            let after = move_money(ledger, buyer, offer.seller_discord_user_id@, offer.price_mana as int);
            &&& after[buyer] >= 0
            &&& after[buyer] == ledger[buyer] - offer.price_mana
            &&& after[offer.seller_discord_user_id@] == ledger[offer.seller_discord_user_id@]
                + offer.price_mana
            &&& forall|other: Seq<char>|
                other != buyer && other != offer.seller_discord_user_id@ ==> #[trigger] after[other]
                    == ledger[other]
        }),
{
}

/// A balance that is stored as a 64-bit integer.
pub open spec fn fits_balance(balance: int) -> bool {
    i64::MIN <= balance <= i64::MAX
}

/// The position of the first option id equal to `option_id`.
pub fn find_option_by_id(option_ids: &Vec<i64>, option_id: i64) -> (r: Option<usize>)
    ensures
        match r {
            Some(i) => i < option_ids.len() && option_ids@[i as int] == option_id && forall|j: int|
                0 <= j < i ==> #[trigger] option_ids@[j] != option_id,
            None => forall|j: int| 0 <= j < option_ids.len() ==> #[trigger] option_ids@[j] != option_id,
        },
{
    let mut i: usize = 0;
    while i < option_ids.len()
        invariant
            i <= option_ids.len(),
            forall|j: int| 0 <= j < i ==> #[trigger] option_ids@[j] != option_id,
        decreases option_ids.len() - i,
    {
        if option_ids[i] == option_id {
            return Some(i);
        }
        i = i + 1;
    }
    None
}

/// Whether a mirrored market's last snapshot, taken at `last_sync`, must
/// be refreshed at `now`: when there is none, when its time cannot be
/// read, or when it is at least `ttl_seconds` old.
pub open spec fn snapshot_stale(last_sync: Option<Seq<char>>, now: int, ttl_seconds: int) -> bool {
    match last_sync {
        None => true,
        Some(text) => match parsed_instant(text) {
            None => true,
            Some(t) => whole_seconds(now - t) >= ttl_seconds,
        },
    }
}

/// Decides whether a mirrored market's snapshot must be refreshed.
pub fn snapshot_is_stale(last_sync: Option<&str>, now: i128, ttl_seconds: i64) -> (r: bool)
    requires
        instant_in_range(now as int),
    ensures
        r == snapshot_stale(
            match last_sync {
                Some(t) => Some(t@),
                None => None,
            },
            now as int,
            ttl_seconds as int,
        ),
{
    match last_sync {
        None => true,
        Some(text) => match parse_instant(text) {
            None => true,
            Some(t) => {
                let span = now - t;
                let age: i128 = if span >= 0 {
                    span / NANOS_PER_SECOND
                } else {
                    0 - ((0 - span) / NANOS_PER_SECOND)
                };
                age >= ttl_seconds as i128
            },
        },
    }
}

/// The label of an incoming share offer in an autocomplete list: its id,
/// the market question cut to 36 characters, the option, the seller and
/// the price.
pub fn share_offer_choice_label(
    offer_id: i64,
    question: &str,
    option_label: &str,
    seller_name: &str,
    price_mana: i64,
) -> (r: String)
    ensures
        r@ == "#"@ + int_decimal(offer_id as int) + " "@ + safe_trim_text(question@, 36) + " "@
            + option_label@ + " from "@ + seller_name@ + " for "@ + int_decimal(price_mana as int),
{
    let mut m = owned("#");
    push_int_decimal(&mut m, offer_id);
    push_str(&mut m, " ");
    let q = ui_safe_trim(question, 36);
    push_str(&mut m, q.as_str());
    push_str(&mut m, " ");
    push_str(&mut m, option_label);
    push_str(&mut m, " from ");
    push_str(&mut m, seller_name);
    push_str(&mut m, " for ");
    push_int_decimal(&mut m, price_mana);
    m
}

} // verus!
