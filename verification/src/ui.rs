//! The text and colours the bot shows for markets, options and numbers.

use vstd::prelude::*;
use vstd::string::*;

use crate::error::{fails_with, AppError, ErrorKind};
use crate::config::{CurrencyConfig, CurrencyPosition, NegativeStyle};
use crate::market::{MarketStatus, MarketType};
use crate::text::{
    concat, decimal, int_decimal, lower_is, lower_seq, nat_decimal, owned, push_char, push_int_decimal, push_nat_decimal,
    push_str, string_of_chars, trim, trim_seq, upper_is, upper_seq,
};

verus! {

/// How a market is referred to in messages: `#` followed by its id.
pub fn market_id_line(market_id: i64) -> (r: String)
    ensures
        r@ == seq!['#'] + int_decimal(market_id as int),
{
    let mut s = String::new();
    push_char(&mut s, '#');
    push_int_decimal(&mut s, market_id);
    assert(s@ =~= seq!['#'] + int_decimal(market_id as int));
    s
}

/// The badge shown for a market status.
pub open spec fn status_badge_text(status: MarketStatus) -> Seq<char> {
    match status {
        MarketStatus::Open => "🟢 **Open**"@,
        MarketStatus::Closed => "🟡 **Closed**"@,
        MarketStatus::Resolved => "🔨 **Resolved**"@,
        MarketStatus::Settled => "💸 **Settled**"@,
        MarketStatus::Cancelled => "⚫ **Cancelled**"@,
        MarketStatus::NeedsManualReview => "🟠 **Needs Review**"@,
    }
}

/// The badge shown for a market status.
pub fn status_badge(status: MarketStatus) -> (r: &'static str)
    ensures
        r@ == status_badge_text(status),
{
    match status {
        MarketStatus::Open => "🟢 **Open**",
        MarketStatus::Closed => "🟡 **Closed**",
        MarketStatus::Resolved => "🔨 **Resolved**",
        MarketStatus::Settled => "💸 **Settled**",
        MarketStatus::Cancelled => "⚫ **Cancelled**",
        MarketStatus::NeedsManualReview => "🟠 **Needs Review**",
    }
}

/// The badge shown for a market type.
pub fn type_badge(market_type: MarketType) -> (r: &'static str)
    ensures
        r@ == (match market_type {
            MarketType::Native => "🐀 **Native Rat Market**"@,
            MarketType::Manifold => "🛰️ **Manifold Mirror**"@,
        }),
{
    match market_type {
        MarketType::Native => "🐀 **Native Rat Market**",
        MarketType::Manifold => "🛰️ **Manifold Mirror**",
    }
}

/// The emoji that leads a market's description.
pub fn market_emoji(market_type: MarketType) -> (r: &'static str)
    ensures
        r@ == (match market_type {
            MarketType::Native => "📈"@,
            MarketType::Manifold => "🛰️"@,
        }),
{
    match market_type {
        MarketType::Native => "📈",
        MarketType::Manifold => "🛰️",
    }
}

/// The emoji shown beside an option: green for YES, red for NO (in any
/// ASCII case), a blue diamond otherwise.
pub open spec fn option_emoji_text(label: Seq<char>) -> Seq<char> {
    if upper_seq(label) == "YES"@ {
        "🟢"@
    } else if upper_seq(label) == "NO"@ {
        "🔴"@
    } else {
        "🔹"@
    }
}

/// The emoji shown beside an option label.
pub fn option_emoji(label: &str) -> (r: &'static str)
    ensures
        r@ == option_emoji_text(label@),
{
    if upper_is(label, "YES") {
        "🟢"
    } else if upper_is(label, "NO") {
        "🔴"
    } else {
        "🔹"
    }
}

/// The embed colour of a market, as red, green and blue components.
pub open spec fn market_color_rgb(market_type: MarketType, status: MarketStatus) -> (u8, u8, u8) {
    match status {
        MarketStatus::Open => (46, 204, 113),
        MarketStatus::Closed => (241, 196, 15),
        MarketStatus::Resolved | MarketStatus::Settled => match market_type {
            MarketType::Native => (52, 152, 219),
            MarketType::Manifold => (26, 188, 156),
        },
        MarketStatus::Cancelled => (127, 140, 141),
        MarketStatus::NeedsManualReview => (230, 126, 34),
    }
}

/// The embed colour of a market, as red, green and blue components.
pub fn market_color(market_type: MarketType, status: MarketStatus) -> (r: (u8, u8, u8))
    ensures
        r == market_color_rgb(market_type, status),
{
    match (market_type, status) {
        (_, MarketStatus::Open) => (46, 204, 113),
        (_, MarketStatus::Closed) => (241, 196, 15),
        (MarketType::Native, MarketStatus::Resolved) => (52, 152, 219),
        (MarketType::Native, MarketStatus::Settled) => (52, 152, 219),
        (MarketType::Manifold, MarketStatus::Resolved) => (26, 188, 156),
        (MarketType::Manifold, MarketStatus::Settled) => (26, 188, 156),
        (_, MarketStatus::Cancelled) => (127, 140, 141),
        (_, MarketStatus::NeedsManualReview) => (230, 126, 34),
    }
}

/// The characters written while walking the reversed digits `rev` from the
/// front: before every third character (not the first) the separator.
pub open spec fn grouped_reversed(rev: Seq<char>, sep: Seq<char>, k: nat) -> Seq<char>
    decreases k,
{
    if k == 0 {
        Seq::empty()
    } else {
        let i = (k - 1) as nat;
        grouped_reversed(rev, sep, i) + (if i > 0 && i % 3 == 0 {
            sep
        } else {
            Seq::empty()
        }) + seq![rev[i as int]]
    }
}

/// The decimal rendering of `value` with `separator` written between groups
/// of three digits counted from the right. The whole text is assembled
/// backwards and turned around at the end, so a separator of several
/// characters appears reversed.
pub open spec fn with_separator_text(value: int, separator: Seq<char>) -> Seq<char> {
    let rev = int_decimal(value).reverse();
    grouped_reversed(rev, separator, rev.len()).reverse()
}

/// Renders `value` in decimal with `separator` between groups of three
/// digits.
pub fn with_separator(value: i64, separator: &str) -> (r: String)
    ensures
        r@ == with_separator_text(value as int, separator@),
{
    let digits = decimal(value);
    let d = digits.as_str();
    let n = d.unicode_len();
    let ghost rev = int_decimal(value as int).reverse();
    let sep_len = separator.unicode_len();
    let mut out: Vec<char> = Vec::new();
    let mut index: usize = 0;
    while index < n
        invariant
            n == d@.len(),
            d@ == int_decimal(value as int),
            rev == d@.reverse(),
            sep_len == separator@.len(),
            index <= n,
            out@ == grouped_reversed(rev, separator@, index as nat),
        decreases n - index,
    {
        let ghost before = out@;
        if index > 0 && index % 3 == 0 {
            let mut j: usize = 0;
            while j < sep_len
                invariant
                    sep_len == separator@.len(),
                    j <= sep_len,
                    out@ == before + separator@.take(j as int),
                decreases sep_len - j,
            {
                out.push(separator.get_char(j));
                assert(separator@.take(j + 1) =~= separator@.take(j as int).push(separator@[j as int]));
                j = j + 1;
            }
            assert(separator@.take(sep_len as int) =~= separator@);
        }
        let ghost mid = out@;
        out.push(d.get_char(n - 1 - index));
        assert(rev[index as int] == d@[n - 1 - index]);
        assert(out@ =~= grouped_reversed(rev, separator@, (index + 1) as nat)) by {
            assert(mid =~= before + (if index > 0 && index % 3 == 0 {
                separator@
            } else {
                Seq::empty()
            }));
        }
        index = index + 1;
    }
    let mut back: Vec<char> = Vec::new();
    let m = out.len();
    let mut k: usize = 0;
    while k < m
        invariant
            m == out@.len(),
            k <= m,
            back@ == out@.reverse().take(k as int),
        decreases m - k,
    {
        back.push(out[m - 1 - k]);
        assert(back@ =~= out@.reverse().take(k + 1));
        k = k + 1;
    }
    assert(out@.reverse().take(m as int) =~= out@.reverse());
    string_of_chars(&back)
}

/// `value` cut to its first `max_chars` characters, with `...` appended
/// when something was cut.
pub open spec fn safe_trim_text(value: Seq<char>, max_chars: nat) -> Seq<char> {
    if value.len() > max_chars {
        value.take(max_chars as int) + "..."@
    } else {
        value
    }
}

/// Shortens text for an autocomplete label.
pub fn ui_safe_trim(value: &str, max_chars: usize) -> (r: String)
    ensures
        r@ == safe_trim_text(value@, max_chars as nat),
{
    let n = value.unicode_len();
    if n > max_chars {
        let head = value.substring_char(0, max_chars);
        let r = concat(head, "...");
        assert(head@ =~= value@.take(max_chars as int));
        r
    } else {
        owned(value)
    }
}

/// The measure by which holder charts rank holders.
#[derive(Clone, Copy, Debug, PartialEq, Eq, Structural)]
pub enum HolderMetric {
    Shares,
    Value,
}

impl HolderMetric {
    /// The name of the measure.
    pub fn label(&self) -> (r: &'static str)
        ensures
            r@ == (match self {
                HolderMetric::Shares => "shares"@,
                HolderMetric::Value => "value"@,
            }),
    {
        match self {
            HolderMetric::Shares => "shares",
            HolderMetric::Value => "value",
        }
    }
}

/// Reads the chart measure a member asked for; none means shares.
pub fn parse_holder_metric(value: Option<&str>) -> (r: Result<HolderMetric, AppError>)
    ensures
        ({
            let t = lower_seq(
                trim_seq(
                    match value {
                        Some(v) => v@,
                        None => "shares"@,
                    },
                ),
            );
            if t == "shares"@ {
                r == Ok::<HolderMetric, AppError>(HolderMetric::Shares)
            } else if t == "value"@ {
                r == Ok::<HolderMetric, AppError>(HolderMetric::Value)
            } else {
                fails_with(r, ErrorKind::Validation, "metric must be either `shares` or `value`"@)
            }
        }),
{
    let raw = match value {
        Some(v) => v,
        None => "shares",
    };
    let t = trim(raw);
    if lower_is(t, "shares") {
        Ok(HolderMetric::Shares)
    } else if lower_is(t, "value") {
        Ok(HolderMetric::Value)
    } else {
        Err(AppError::Validation(owned("metric must be either `shares` or `value`")))
    }
}

/// The medal beside a leaderboard rank (counted from zero).
pub open spec fn medal_text(index: int) -> Seq<char> {
    if index == 0 {
        "🥇"@
    } else if index == 1 {
        "🥈"@
    } else if index == 2 {
        "🥉"@
    } else {
        "🐀"@
    }
}

/// The medal beside a leaderboard rank (counted from zero).
pub fn leaderboard_medal(index: usize) -> (r: &'static str)
    ensures
        r@ == medal_text(index as int),
{
    if index == 0 {
        "🥇"
    } else if index == 1 {
        "🥈"
    } else if index == 2 {
        "🥉"
    } else {
        "🐀"
    }
}

/// A Discord timestamp tag for the instant `seconds` after the epoch, shown
/// in full and relative form.
pub fn discord_timestamp(seconds: i64) -> (r: String)
    ensures
        r@ == "<t:"@ + int_decimal(seconds as int) + ":F> (<t:"@ + int_decimal(seconds as int)
            + ":R>)"@,
{
    let mut s = owned("<t:");
    push_int_decimal(&mut s, seconds);
    push_str(&mut s, ":F> (<t:");
    push_int_decimal(&mut s, seconds);
    push_str(&mut s, ":R>)");
    s
}

/// The mark shown beside amounts: the custom emoji, or the plain emoji
/// when there is no custom one.
pub open spec fn currency_mark_text(c: CurrencyConfig) -> Seq<char> {
    if c.custom_emoji@.len() > 0 {
        c.custom_emoji@
    } else {
        c.emoji@
    }
}

/// The mark shown beside amounts.
pub fn currency_mark(c: &CurrencyConfig) -> (r: String)
    ensures
        r@ == currency_mark_text(*c),
{
    if c.custom_emoji.unicode_len() > 0 {
        c.custom_emoji.clone()
    } else {
        c.emoji.clone()
    }
}

/// The digits of an amount's magnitude `absolute`: the short form
/// `short` when the currency abbreviates, else grouped by the thousands
/// separator; then marked negative as the currency writes negatives.
pub open spec fn number_text(c: CurrencyConfig, absolute: int, negative: bool, short: Seq<char>) -> Seq<char> {
    let base = if c.short_suffixes {
        short
    } else {
        with_separator_text(absolute, c.thousands_separator@)
    };
    if !negative {
        base
    } else {
        match c.negative_style {
            NegativeStyle::Minus => "-"@ + base,
            NegativeStyle::Parens => "("@ + base + ")"@,
        }
    }
}

/// An amount of money as the currency writes it. `short` is the short form
/// of the amount's magnitude (`1.5k`), used when the currency abbreviates.
pub open spec fn money_plain_text(c: CurrencyConfig, amount: int, embed_context: bool, short: Seq<char>) -> Seq<char> {
    let absolute = if amount < 0 {
        -amount
    } else {
        amount
    };
    let number = number_text(c, absolute, amount < 0, short);
    let mark = currency_mark_text(c);
    let show_mark = if embed_context {
        c.use_emoji_in_embeds && mark.len() > 0
    } else {
        c.use_emoji_in_plaintext && mark.len() > 0
    };
    let label = if absolute == 1 {
        c.singular@
    } else {
        c.plural@
    };
    let textual = if c.show_textual_symbol {
        c.textual_symbol@
    } else {
        label
    };
    let suffix = if c.show_code {
        c.code@
    } else {
        textual
    };
    let space = if c.space_between {
        " "@
    } else {
        ""@
    };
    let body = if c.show_symbol && c.symbol@.len() > 0 {
        match c.position {
            CurrencyPosition::Prefix => c.symbol@ + space + number,
            CurrencyPosition::Suffix => number + space + c.symbol@,
        }
    } else {
        number + space + suffix
    };
    if show_mark {
        mark + " "@ + body
    } else {
        body
    }
}

/// Writes an amount of money as the currency does: its digits (short or
/// grouped), the sign style, the symbol or unit on the configured side, and
/// the currency mark in front where the context shows it. `short_number`
/// is the short form of the amount's magnitude.
pub fn money_plain(currency: &CurrencyConfig, amount: i64, embed_context: bool, short_number: &str) -> (r:
    String)
    requires
        amount > i64::MIN,
    ensures
        r@ == money_plain_text(*currency, amount as int, embed_context, short_number@),
{
    let negative = amount < 0;
    let absolute: i64 = if negative {
        0 - amount
    } else {
        amount
    };
    let base = if currency.short_suffixes {
        owned(short_number)
    } else {
        with_separator(absolute, currency.thousands_separator.as_str())
    };
    let number = if !negative {
        base
    } else {
        match currency.negative_style {
            NegativeStyle::Minus => concat("-", base.as_str()),
            NegativeStyle::Parens => {
                let mut t = concat("(", base.as_str());
                push_str(&mut t, ")");
                t
            },
        }
    };
    let mark = currency_mark(currency);
    let has_mark = mark.unicode_len() > 0;
    let show_mark = if embed_context {
        currency.use_emoji_in_embeds && has_mark
    } else {
        currency.use_emoji_in_plaintext && has_mark
    };
    let label = if absolute == 1 {
        currency.singular.as_str()
    } else {
        currency.plural.as_str()
    };
    let textual = if currency.show_textual_symbol {
        currency.textual_symbol.as_str()
    } else {
        label
    };
    let suffix = if currency.show_code {
        currency.code.as_str()
    } else {
        textual
    };
    let space = if currency.space_between {
        " "
    } else {
        ""
    };
    let body = if currency.show_symbol && currency.symbol.unicode_len() > 0 {
        match currency.position {
            CurrencyPosition::Prefix => {
                let mut t = owned(currency.symbol.as_str());
                push_str(&mut t, space);
                push_str(&mut t, number.as_str());
                t
            },
            CurrencyPosition::Suffix => {
                let mut t = owned(number.as_str());
                push_str(&mut t, space);
                push_str(&mut t, currency.symbol.as_str());
                t
            },
        }
    } else {
        let mut t = owned(number.as_str());
        push_str(&mut t, space);
        push_str(&mut t, suffix);
        t
    };
    if show_mark {
        let mut t = owned(mark.as_str());
        push_str(&mut t, " ");
        push_str(&mut t, body.as_str());
        t
    } else {
        body
    }
}

/// An amount of money in bold, as embeds show it.
pub fn money(currency: &CurrencyConfig, amount: i64, short_number: &str) -> (r: String)
    requires
        amount > i64::MIN,
    ensures
        r@ == "**"@ + money_plain_text(*currency, amount as int, true, short_number@) + "**"@,
{
    let plain = money_plain(currency, amount, true, short_number);
    let mut t = owned("**");
    push_str(&mut t, plain.as_str());
    push_str(&mut t, "**");
    t
}

/// A member on the leaderboard.
#[derive(Clone, Debug)]
pub struct LeaderboardEntry {
    pub discord_user_id: String,
    pub display_name: Option<String>,
    pub balance_mana: i64,
}

/// What the leaderboard says when nobody has money yet.
pub fn empty_leaderboard_text() -> (r: &'static str)
    ensures
        r@ == "Nobody has fake money yet. The rat economy is still asleep."@,
{
    "Nobody has fake money yet. The rat economy is still asleep."
}

/// The leaderboard line of the entry at `index` (from 0): its medal, its
/// rank, the member's name (their id when they have none) and their
/// balance as money is written (`balance_text`).
pub fn leaderboard_line(index: usize, entry: &LeaderboardEntry, balance_text: &str) -> (r: String)
    requires
        index < u64::MAX,
    ensures
        r@ == medal_text(index as int) + " **"@ + nat_decimal((index + 1) as nat) + ". "@ + match entry.display_name {
            Some(n) => n@,
            None => entry.discord_user_id@,
        } + "** — "@ + balance_text@,
{
    let mut m = owned(leaderboard_medal(index));
    push_str(&mut m, " **");
    push_nat_decimal(&mut m, (index as u64) + 1);
    push_str(&mut m, ". ");
    match &entry.display_name {
        Some(n) => push_str(&mut m, n.as_str()),
        None => push_str(&mut m, entry.discord_user_id.as_str()),
    }
    push_str(&mut m, "** — ");
    push_str(&mut m, balance_text);
    m
}

} // verus!
