//! Server policy: the settings of loans, Manifold polling, currency
//! rendering, bonds and the bot's own behaviour, how partial settings from
//! the base and local files combine, and the defaults that fill the gaps.

use vstd::prelude::*;
use vstd::string::*;

use crate::error::{fails_with, AppError, ErrorKind};
use crate::text::{concat, owned, parse_i64, parse_i64_spec, push_char, str_eq, trim, trim_seq};

verus! {

/// Loan rules of a server.
#[derive(Clone, Debug)]
pub struct LoanPolicyConfig {
    pub allow_money_loans: bool,
    pub allow_share_loans: bool,
    pub allow_partial_repayment: bool,
    pub allow_early_repayment: bool,
    pub allow_interest: bool,
    pub default_interest_bps: i64,
    pub max_interest_bps: i64,
    pub default_duration_seconds: i64,
    pub max_duration_seconds: i64,
    pub max_open_loans_per_user: i64,
}

/// Manifold polling settings.
#[derive(Clone, Debug)]
pub struct ManifoldConfig {
    pub api_base_url: String,
    pub snapshot_ttl_seconds: i64,
    pub poll_interval_seconds: i64,
}

/// Where the currency symbol goes relative to the amount.
#[derive(Clone, Copy, Debug, PartialEq, Eq, Structural)]
pub enum CurrencyPosition {
    Prefix,
    Suffix,
}

/// How negative amounts are written.
#[derive(Clone, Copy, Debug, PartialEq, Eq, Structural)]
pub enum NegativeStyle {
    Minus,
    Parens,
}

/// How money is named and rendered.
#[derive(Clone, Debug)]
pub struct CurrencyConfig {
    pub code: String,
    pub display_name: String,
    pub singular: String,
    pub plural: String,
    pub symbol: String,
    pub textual_symbol: String,
    pub emoji: String,
    pub custom_emoji: String,
    pub image_symbol_path: String,
    pub image_symbol_url: String,
    pub position: CurrencyPosition,
    pub space_between: bool,
    pub show_symbol: bool,
    pub show_textual_symbol: bool,
    pub show_code: bool,
    pub use_emoji_in_embeds: bool,
    pub use_emoji_in_plaintext: bool,
    pub decimals: usize,
    pub thousands_separator: String,
    pub negative_style: NegativeStyle,
    pub short_suffixes: bool,
}

/// Bond issuance rules of a server.
#[derive(Clone, Debug)]
pub struct BondPolicyConfig {
    pub enabled: bool,
    pub default_yield_period_seconds: i64,
    pub max_yield_bps: i64,
    pub min_maturity_seconds: i64,
    pub max_maturity_seconds: i64,
    pub max_open_issuances_per_user: i64,
    pub worker_interval_seconds: i64,
}

/// What the bot itself does in each server's economy.
#[derive(Clone, Debug)]
pub struct BotPolicyConfig {
    pub auto_claim: bool,
    pub auto_accept_loans: bool,
    pub startup_announcement_channel_name: String,
    pub startup_announcement_fallback_channel_name: String,
    pub max_loan_interest_bps: i64,
    pub min_loan_duration_seconds: i64,
    pub auto_buy_bonds: bool,
    pub min_bond_yield_bps: i64,
    pub max_bond_yield_bps: i64,
    pub min_bond_maturity_seconds: i64,
    pub max_bond_maturity_seconds: i64,
    pub max_bond_price_mana: i64,
    pub max_bond_purchase_quantity: i64,
    pub max_total_bond_exposure_mana: i64,
    pub worker_interval_seconds: i64,
}

impl CurrencyPosition {
    /// Reads a position name: `prefix`, or else suffix.
    pub fn from_str(value: &str) -> (r: CurrencyPosition)
        ensures
            r == (if value@ == "prefix"@ {
                CurrencyPosition::Prefix
            } else {
                CurrencyPosition::Suffix
            }),
    {
        if str_eq(value, "prefix") {
            CurrencyPosition::Prefix
        } else {
            CurrencyPosition::Suffix
        }
    }
}

impl NegativeStyle {
    /// Reads a negative style name: `parens`, or else a minus sign.
    pub fn from_str(value: &str) -> (r: NegativeStyle)
        ensures
            r == (if value@ == "parens"@ {
                NegativeStyle::Parens
            } else {
                NegativeStyle::Minus
            }),
    {
        if str_eq(value, "parens") {
            NegativeStyle::Parens
        } else {
            NegativeStyle::Minus
        }
    }
}

/// The setting an overlay gives, or else the base one.
pub open spec fn pick<T>(overlay: Option<T>, base: Option<T>) -> Option<T> {
    if overlay is Some {
        overlay
    } else {
        base
    }
}

/// The setting an overlay gives, or else the base one.
pub fn pick_setting<T>(overlay: Option<T>, base: Option<T>) -> (r: Option<T>)
    ensures
        r == pick(overlay, base),
{
    match overlay {
        Some(v) => Some(v),
        None => base,
    }
}

/// Loan settings as one configuration file gives them.
#[derive(Clone, Debug)]
pub struct PartialLoanPolicyConfig {
    pub allow_money_loans: Option<bool>,
    pub allow_share_loans: Option<bool>,
    pub allow_partial_repayment: Option<bool>,
    pub allow_early_repayment: Option<bool>,
    pub allow_interest: Option<bool>,
    pub default_interest_bps: Option<i64>,
    pub max_interest_bps: Option<i64>,
    pub default_duration_seconds: Option<i64>,
    pub max_duration_seconds: Option<i64>,
    pub max_open_loans_per_user: Option<i64>,
}

/// Manifold settings as one configuration file gives them.
#[derive(Clone, Debug)]
pub struct PartialManifoldConfig {
    pub api_base_url: Option<String>,
    pub snapshot_ttl_seconds: Option<i64>,
    pub poll_interval_seconds: Option<i64>,
}

/// Currency settings as one configuration file gives them.
#[derive(Clone, Debug)]
pub struct PartialCurrencyConfig {
    pub code: Option<String>,
    pub display_name: Option<String>,
    pub singular: Option<String>,
    pub plural: Option<String>,
    pub symbol: Option<String>,
    pub textual_symbol: Option<String>,
    pub emoji: Option<String>,
    pub custom_emoji: Option<String>,
    pub image_symbol_path: Option<String>,
    pub image_symbol_url: Option<String>,
    pub position: Option<String>,
    pub space_between: Option<bool>,
    pub show_symbol: Option<bool>,
    pub show_textual_symbol: Option<bool>,
    pub show_code: Option<bool>,
    pub use_emoji_in_embeds: Option<bool>,
    pub use_emoji_in_plaintext: Option<bool>,
    pub decimals: Option<usize>,
    pub thousands_separator: Option<String>,
    pub negative_style: Option<String>,
    pub short_suffixes: Option<bool>,
}

/// Loan settings of `base` with every setting that `overlay` gives replacing
/// the base one.
pub open spec fn loan_merge(base: PartialLoanPolicyConfig, overlay: PartialLoanPolicyConfig) -> PartialLoanPolicyConfig {
    PartialLoanPolicyConfig {
        allow_money_loans: pick(overlay.allow_money_loans, base.allow_money_loans),
        allow_share_loans: pick(overlay.allow_share_loans, base.allow_share_loans),
        allow_partial_repayment: pick(overlay.allow_partial_repayment, base.allow_partial_repayment),
        allow_early_repayment: pick(overlay.allow_early_repayment, base.allow_early_repayment),
        allow_interest: pick(overlay.allow_interest, base.allow_interest),
        default_interest_bps: pick(overlay.default_interest_bps, base.default_interest_bps),
        max_interest_bps: pick(overlay.max_interest_bps, base.max_interest_bps),
        default_duration_seconds: pick(overlay.default_duration_seconds, base.default_duration_seconds),
        max_duration_seconds: pick(overlay.max_duration_seconds, base.max_duration_seconds),
        max_open_loans_per_user: pick(overlay.max_open_loans_per_user, base.max_open_loans_per_user),
    }
}

/// Manifold settings of `base` with every setting that `overlay` gives
/// replacing the base one.
pub open spec fn manifold_merge(base: PartialManifoldConfig, overlay: PartialManifoldConfig) -> PartialManifoldConfig {
    PartialManifoldConfig {
        api_base_url: pick(overlay.api_base_url, base.api_base_url),
        snapshot_ttl_seconds: pick(overlay.snapshot_ttl_seconds, base.snapshot_ttl_seconds),
        poll_interval_seconds: pick(overlay.poll_interval_seconds, base.poll_interval_seconds),
    }
}

/// Currency settings of `base` with every setting that `overlay` gives
/// replacing the base one.
pub open spec fn currency_merge(base: PartialCurrencyConfig, overlay: PartialCurrencyConfig) -> PartialCurrencyConfig {
    PartialCurrencyConfig {
        code: pick(overlay.code, base.code),
        display_name: pick(overlay.display_name, base.display_name),
        singular: pick(overlay.singular, base.singular),
        plural: pick(overlay.plural, base.plural),
        symbol: pick(overlay.symbol, base.symbol),
        textual_symbol: pick(overlay.textual_symbol, base.textual_symbol),
        emoji: pick(overlay.emoji, base.emoji),
        custom_emoji: pick(overlay.custom_emoji, base.custom_emoji),
        image_symbol_path: pick(overlay.image_symbol_path, base.image_symbol_path),
        image_symbol_url: pick(overlay.image_symbol_url, base.image_symbol_url),
        position: pick(overlay.position, base.position),
        space_between: pick(overlay.space_between, base.space_between),
        show_symbol: pick(overlay.show_symbol, base.show_symbol),
        show_textual_symbol: pick(overlay.show_textual_symbol, base.show_textual_symbol),
        show_code: pick(overlay.show_code, base.show_code),
        use_emoji_in_embeds: pick(overlay.use_emoji_in_embeds, base.use_emoji_in_embeds),
        use_emoji_in_plaintext: pick(overlay.use_emoji_in_plaintext, base.use_emoji_in_plaintext),
        decimals: pick(overlay.decimals, base.decimals),
        thousands_separator: pick(overlay.thousands_separator, base.thousands_separator),
        negative_style: pick(overlay.negative_style, base.negative_style),
        short_suffixes: pick(overlay.short_suffixes, base.short_suffixes),
    }
}

impl PartialLoanPolicyConfig {
    /// Combines these settings with an overlay: every setting the overlay
    /// gives wins.
    pub fn merge(self, overlay: Self) -> (r: Self)
        ensures
            r == loan_merge(self, overlay),
    {
        PartialLoanPolicyConfig {
            allow_money_loans: pick_setting(overlay.allow_money_loans, self.allow_money_loans),
            allow_share_loans: pick_setting(overlay.allow_share_loans, self.allow_share_loans),
            allow_partial_repayment: pick_setting(overlay.allow_partial_repayment, self.allow_partial_repayment),
            allow_early_repayment: pick_setting(overlay.allow_early_repayment, self.allow_early_repayment),
            allow_interest: pick_setting(overlay.allow_interest, self.allow_interest),
            default_interest_bps: pick_setting(overlay.default_interest_bps, self.default_interest_bps),
            max_interest_bps: pick_setting(overlay.max_interest_bps, self.max_interest_bps),
            default_duration_seconds: pick_setting(overlay.default_duration_seconds, self.default_duration_seconds),
            max_duration_seconds: pick_setting(overlay.max_duration_seconds, self.max_duration_seconds),
            max_open_loans_per_user: pick_setting(overlay.max_open_loans_per_user, self.max_open_loans_per_user),
        }
    }

    /// No loan settings at all.
    pub fn empty() -> (r: Self)
        ensures
            r == empty_loan_settings(),
    {
        PartialLoanPolicyConfig {
            allow_money_loans: None,
            allow_share_loans: None,
            allow_partial_repayment: None,
            allow_early_repayment: None,
            allow_interest: None,
            default_interest_bps: None,
            max_interest_bps: None,
            default_duration_seconds: None,
            max_duration_seconds: None,
            max_open_loans_per_user: None,
        }
    }
}

/// No loan settings at all.
pub open spec fn empty_loan_settings() -> PartialLoanPolicyConfig {
    PartialLoanPolicyConfig {
        allow_money_loans: None,
        allow_share_loans: None,
        allow_partial_repayment: None,
        allow_early_repayment: None,
        allow_interest: None,
        default_interest_bps: None,
        max_interest_bps: None,
        default_duration_seconds: None,
        max_duration_seconds: None,
        max_open_loans_per_user: None,
    }
}

impl PartialManifoldConfig {
    /// Combines these settings with an overlay: every setting the overlay
    /// gives wins.
    pub fn merge(self, overlay: Self) -> (r: Self)
        ensures
            r == manifold_merge(self, overlay),
    {
        PartialManifoldConfig {
            api_base_url: pick_setting(overlay.api_base_url, self.api_base_url),
            snapshot_ttl_seconds: pick_setting(overlay.snapshot_ttl_seconds, self.snapshot_ttl_seconds),
            poll_interval_seconds: pick_setting(overlay.poll_interval_seconds, self.poll_interval_seconds),
        }
    }
}

impl PartialCurrencyConfig {
    /// Combines these settings with an overlay: every setting the overlay
    /// gives wins.
    pub fn merge(self, overlay: Self) -> (r: Self)
        ensures
            r == currency_merge(self, overlay),
    {
        PartialCurrencyConfig {
            code: pick_setting(overlay.code, self.code),
            display_name: pick_setting(overlay.display_name, self.display_name),
            singular: pick_setting(overlay.singular, self.singular),
            plural: pick_setting(overlay.plural, self.plural),
            symbol: pick_setting(overlay.symbol, self.symbol),
            textual_symbol: pick_setting(overlay.textual_symbol, self.textual_symbol),
            emoji: pick_setting(overlay.emoji, self.emoji),
            custom_emoji: pick_setting(overlay.custom_emoji, self.custom_emoji),
            image_symbol_path: pick_setting(overlay.image_symbol_path, self.image_symbol_path),
            image_symbol_url: pick_setting(overlay.image_symbol_url, self.image_symbol_url),
            position: pick_setting(overlay.position, self.position),
            space_between: pick_setting(overlay.space_between, self.space_between),
            show_symbol: pick_setting(overlay.show_symbol, self.show_symbol),
            show_textual_symbol: pick_setting(overlay.show_textual_symbol, self.show_textual_symbol),
            show_code: pick_setting(overlay.show_code, self.show_code),
            use_emoji_in_embeds: pick_setting(overlay.use_emoji_in_embeds, self.use_emoji_in_embeds),
            use_emoji_in_plaintext: pick_setting(overlay.use_emoji_in_plaintext, self.use_emoji_in_plaintext),
            decimals: pick_setting(overlay.decimals, self.decimals),
            thousands_separator: pick_setting(overlay.thousands_separator, self.thousands_separator),
            negative_style: pick_setting(overlay.negative_style, self.negative_style),
            short_suffixes: pick_setting(overlay.short_suffixes, self.short_suffixes),
        }
    }
}

/// Combining settings is associative: merging three layers gives the same
/// result whichever pair is merged first.
pub proof fn lemma_loan_merge_associative(
    a: PartialLoanPolicyConfig,
    b: PartialLoanPolicyConfig,
    c: PartialLoanPolicyConfig,
)
    ensures
        loan_merge(loan_merge(a, b), c) == loan_merge(a, loan_merge(b, c)),
{
}

/// An empty layer changes nothing, on either side of a merge.
pub proof fn lemma_loan_merge_identity(a: PartialLoanPolicyConfig)
    ensures
        loan_merge(a, empty_loan_settings()) == a,
        loan_merge(empty_loan_settings(), a) == a,
{
}

/// Merging a layer with itself changes nothing, and a setting the overlay
/// gives always wins.
pub proof fn lemma_loan_merge_overlay_wins(a: PartialLoanPolicyConfig, b: PartialLoanPolicyConfig)
    ensures
        loan_merge(a, a) == a,
        b.max_interest_bps is Some ==> loan_merge(a, b).max_interest_bps == b.max_interest_bps,
        b.allow_money_loans is Some ==> loan_merge(a, b).allow_money_loans == b.allow_money_loans,
{
}

/// Combining Manifold settings is associative.
pub proof fn lemma_manifold_merge_associative(
    a: PartialManifoldConfig,
    b: PartialManifoldConfig,
    c: PartialManifoldConfig,
)
    ensures
        manifold_merge(manifold_merge(a, b), c) == manifold_merge(a, manifold_merge(b, c)),
{
}

/// Combining currency settings is associative.
pub proof fn lemma_currency_merge_associative(
    a: PartialCurrencyConfig,
    b: PartialCurrencyConfig,
    c: PartialCurrencyConfig,
)
    ensures
        currency_merge(currency_merge(a, b), c) == currency_merge(a, currency_merge(b, c)),
{
    let ghost code = pick(c.code, pick(b.code, a.code));
    assert(currency_merge(currency_merge(a, b), c).code == code);
    assert(currency_merge(a, currency_merge(b, c)).code == code);
    let ghost display_name = pick(c.display_name, pick(b.display_name, a.display_name));
    assert(currency_merge(currency_merge(a, b), c).display_name == display_name);
    assert(currency_merge(a, currency_merge(b, c)).display_name == display_name);
    let ghost singular = pick(c.singular, pick(b.singular, a.singular));
    assert(currency_merge(currency_merge(a, b), c).singular == singular);
    assert(currency_merge(a, currency_merge(b, c)).singular == singular);
    let ghost plural = pick(c.plural, pick(b.plural, a.plural));
    assert(currency_merge(currency_merge(a, b), c).plural == plural);
    assert(currency_merge(a, currency_merge(b, c)).plural == plural);
    let ghost symbol = pick(c.symbol, pick(b.symbol, a.symbol));
    assert(currency_merge(currency_merge(a, b), c).symbol == symbol);
    assert(currency_merge(a, currency_merge(b, c)).symbol == symbol);
    let ghost textual_symbol = pick(c.textual_symbol, pick(b.textual_symbol, a.textual_symbol));
    assert(currency_merge(currency_merge(a, b), c).textual_symbol == textual_symbol);
    assert(currency_merge(a, currency_merge(b, c)).textual_symbol == textual_symbol);
    let ghost emoji = pick(c.emoji, pick(b.emoji, a.emoji));
    assert(currency_merge(currency_merge(a, b), c).emoji == emoji);
    assert(currency_merge(a, currency_merge(b, c)).emoji == emoji);
    let ghost custom_emoji = pick(c.custom_emoji, pick(b.custom_emoji, a.custom_emoji));
    assert(currency_merge(currency_merge(a, b), c).custom_emoji == custom_emoji);
    assert(currency_merge(a, currency_merge(b, c)).custom_emoji == custom_emoji);
    let ghost image_symbol_path = pick(c.image_symbol_path, pick(b.image_symbol_path, a.image_symbol_path));
    assert(currency_merge(currency_merge(a, b), c).image_symbol_path == image_symbol_path);
    assert(currency_merge(a, currency_merge(b, c)).image_symbol_path == image_symbol_path);
    let ghost image_symbol_url = pick(c.image_symbol_url, pick(b.image_symbol_url, a.image_symbol_url));
    assert(currency_merge(currency_merge(a, b), c).image_symbol_url == image_symbol_url);
    assert(currency_merge(a, currency_merge(b, c)).image_symbol_url == image_symbol_url);
    let ghost position = pick(c.position, pick(b.position, a.position));
    assert(currency_merge(currency_merge(a, b), c).position == position);
    assert(currency_merge(a, currency_merge(b, c)).position == position);
    let ghost space_between = pick(c.space_between, pick(b.space_between, a.space_between));
    assert(currency_merge(currency_merge(a, b), c).space_between == space_between);
    assert(currency_merge(a, currency_merge(b, c)).space_between == space_between);
    let ghost show_symbol = pick(c.show_symbol, pick(b.show_symbol, a.show_symbol));
    assert(currency_merge(currency_merge(a, b), c).show_symbol == show_symbol);
    assert(currency_merge(a, currency_merge(b, c)).show_symbol == show_symbol);
    let ghost show_textual_symbol = pick(c.show_textual_symbol, pick(b.show_textual_symbol, a.show_textual_symbol));
    assert(currency_merge(currency_merge(a, b), c).show_textual_symbol == show_textual_symbol);
    assert(currency_merge(a, currency_merge(b, c)).show_textual_symbol == show_textual_symbol);
    let ghost show_code = pick(c.show_code, pick(b.show_code, a.show_code));
    assert(currency_merge(currency_merge(a, b), c).show_code == show_code);
    assert(currency_merge(a, currency_merge(b, c)).show_code == show_code);
    let ghost use_emoji_in_embeds = pick(c.use_emoji_in_embeds, pick(b.use_emoji_in_embeds, a.use_emoji_in_embeds));
    assert(currency_merge(currency_merge(a, b), c).use_emoji_in_embeds == use_emoji_in_embeds);
    assert(currency_merge(a, currency_merge(b, c)).use_emoji_in_embeds == use_emoji_in_embeds);
    let ghost use_emoji_in_plaintext = pick(c.use_emoji_in_plaintext, pick(b.use_emoji_in_plaintext, a.use_emoji_in_plaintext));
    assert(currency_merge(currency_merge(a, b), c).use_emoji_in_plaintext == use_emoji_in_plaintext);
    assert(currency_merge(a, currency_merge(b, c)).use_emoji_in_plaintext == use_emoji_in_plaintext);
    let ghost decimals = pick(c.decimals, pick(b.decimals, a.decimals));
    assert(currency_merge(currency_merge(a, b), c).decimals == decimals);
    assert(currency_merge(a, currency_merge(b, c)).decimals == decimals);
    let ghost thousands_separator = pick(c.thousands_separator, pick(b.thousands_separator, a.thousands_separator));
    assert(currency_merge(currency_merge(a, b), c).thousands_separator == thousands_separator);
    assert(currency_merge(a, currency_merge(b, c)).thousands_separator == thousands_separator);
    let ghost negative_style = pick(c.negative_style, pick(b.negative_style, a.negative_style));
    assert(currency_merge(currency_merge(a, b), c).negative_style == negative_style);
    assert(currency_merge(a, currency_merge(b, c)).negative_style == negative_style);
    let ghost short_suffixes = pick(c.short_suffixes, pick(b.short_suffixes, a.short_suffixes));
    assert(currency_merge(currency_merge(a, b), c).short_suffixes == short_suffixes);
    assert(currency_merge(a, currency_merge(b, c)).short_suffixes == short_suffixes);
}

/// The loan policy that partial settings give, with the defaults for every
/// missing setting.
pub open spec fn resolved_loans(p: PartialLoanPolicyConfig) -> LoanPolicyConfig {
    LoanPolicyConfig {
        allow_money_loans: p.allow_money_loans.unwrap_or(true),
        allow_share_loans: p.allow_share_loans.unwrap_or(true),
        allow_partial_repayment: p.allow_partial_repayment.unwrap_or(true),
        allow_early_repayment: p.allow_early_repayment.unwrap_or(true),
        allow_interest: p.allow_interest.unwrap_or(true),
        default_interest_bps: p.default_interest_bps.unwrap_or(0),
        max_interest_bps: p.max_interest_bps.unwrap_or(2_500),
        default_duration_seconds: p.default_duration_seconds.unwrap_or(86_400),
        max_duration_seconds: p.max_duration_seconds.unwrap_or(2_592_000),
        max_open_loans_per_user: p.max_open_loans_per_user.unwrap_or(10),
    }
}

/// The loan policy that partial settings give: money and share loans,
/// partial and early repayment and interest are allowed unless turned off;
/// interest defaults to 0 bps and is capped at 2500 bps; loans last a day by
/// default and at most 30 days; a member may have 10 open loans.
pub fn resolve_loan_policy(p: PartialLoanPolicyConfig) -> (r: LoanPolicyConfig)
    ensures
        r == resolved_loans(p),
{
    LoanPolicyConfig {
        allow_money_loans: setting_or(p.allow_money_loans, true),
        allow_share_loans: setting_or(p.allow_share_loans, true),
        allow_partial_repayment: setting_or(p.allow_partial_repayment, true),
        allow_early_repayment: setting_or(p.allow_early_repayment, true),
        allow_interest: setting_or(p.allow_interest, true),
        default_interest_bps: setting_or(p.default_interest_bps, 0),
        max_interest_bps: setting_or(p.max_interest_bps, 2_500),
        default_duration_seconds: setting_or(p.default_duration_seconds, 86_400),
        max_duration_seconds: setting_or(p.max_duration_seconds, 2_592_000),
        max_open_loans_per_user: setting_or(p.max_open_loans_per_user, 10),
    }
}

/// A setting, or its default when it is missing.
pub fn setting_or<T>(value: Option<T>, default: T) -> (r: T)
    ensures
        r == value.unwrap_or(default),
{
    match value {
        Some(v) => v,
        None => default,
    }
}

/// A text setting, or an owned copy of its default when it is missing.
pub fn text_setting_or(value: Option<String>, default: &str) -> (r: String)
    ensures
        r@ == (match value {
            Some(v) => v@,
            None => default@,
        }),
{
    match value {
        Some(v) => v,
        None => owned(default),
    }
}

/// `r` is the Manifold polling that partial settings `p` and the
/// environment's API address give.
pub open spec fn manifold_resolved(r: ManifoldConfig, p: PartialManifoldConfig, env_api_base_url: Option<Seq<char>>) -> bool {
    &&& r.api_base_url@ == (match p.api_base_url {
        Some(u) => u@,
        None => match env_api_base_url {
            Some(u) => u,
            None => "https://api.manifold.markets/v0"@,
        },
    })
    &&& r.snapshot_ttl_seconds == p.snapshot_ttl_seconds.unwrap_or(60)
    &&& r.poll_interval_seconds == p.poll_interval_seconds.unwrap_or(120)
}

/// The Manifold settings that partial settings give: the API address from
/// the files, else from the environment, else the public API; snapshots
/// stay fresh 60 seconds and resolutions are polled every 120 seconds unless
/// set otherwise.
pub fn resolve_manifold(p: PartialManifoldConfig, env_api_base_url: Option<String>) -> (r: ManifoldConfig)
    ensures
        manifold_resolved(r, p, match env_api_base_url {
            Some(u) => Some(u@),
            None => None,
        }),
{
    let url = match p.api_base_url {
        Some(u) => u,
        None => text_setting_or(env_api_base_url, "https://api.manifold.markets/v0"),
    };
    ManifoldConfig {
        api_base_url: url,
        snapshot_ttl_seconds: setting_or(p.snapshot_ttl_seconds, 60),
        poll_interval_seconds: setting_or(p.poll_interval_seconds, 120),
    }
}

/// The text a setting gives, or `default`.
pub open spec fn text_or(value: Option<String>, default: Seq<char>) -> Seq<char> {
    match value {
        Some(v) => v@,
        None => default,
    }
}

/// `r` is the currency rendering that partial settings `p` give, each
/// missing setting at its default.
pub open spec fn currency_resolved(r: CurrencyConfig, p: PartialCurrencyConfig) -> bool {
    &&& r.code@ == text_or(p.code, "MANA"@)
    &&& r.display_name@ == text_or(p.display_name, "Fake Mana"@)
    &&& r.singular@ == text_or(p.singular, "mana"@)
    &&& r.plural@ == text_or(p.plural, "mana"@)
    &&& r.symbol@ == text_or(p.symbol, ""@)
    &&& r.textual_symbol@ == text_or(p.textual_symbol, "mana"@)
    &&& r.emoji@ == text_or(p.emoji, "💰"@)
    &&& r.custom_emoji@ == text_or(p.custom_emoji, ""@)
    &&& r.image_symbol_path@ == text_or(p.image_symbol_path, ""@)
    &&& r.image_symbol_url@ == text_or(p.image_symbol_url, ""@)
    &&& r.position == (if text_or(p.position, "suffix"@) == "prefix"@ {
        CurrencyPosition::Prefix
    } else {
        CurrencyPosition::Suffix
    })
    &&& r.space_between == p.space_between.unwrap_or(true)
    &&& r.show_symbol == p.show_symbol.unwrap_or(false)
    &&& r.show_textual_symbol == p.show_textual_symbol.unwrap_or(true)
    &&& r.show_code == p.show_code.unwrap_or(false)
    &&& r.use_emoji_in_embeds == p.use_emoji_in_embeds.unwrap_or(true)
    &&& r.use_emoji_in_plaintext == p.use_emoji_in_plaintext.unwrap_or(false)
    &&& r.decimals == p.decimals.unwrap_or(0)
    &&& r.thousands_separator@ == text_or(p.thousands_separator, ","@)
    &&& r.negative_style == (if text_or(p.negative_style, "minus"@) == "parens"@ {
        NegativeStyle::Parens
    } else {
        NegativeStyle::Minus
    })
    &&& r.short_suffixes == p.short_suffixes.unwrap_or(true)
}

/// The currency settings that partial settings give, with the defaults of
/// "Fake Mana" for every missing one.
pub fn resolve_currency(p: PartialCurrencyConfig) -> (r: CurrencyConfig)
    ensures
        currency_resolved(r, p),
{
    let position_name = text_setting_or(p.position, "suffix");
    let negative_name = text_setting_or(p.negative_style, "minus");
    CurrencyConfig {
        code: text_setting_or(p.code, "MANA"),
        display_name: text_setting_or(p.display_name, "Fake Mana"),
        singular: text_setting_or(p.singular, "mana"),
        plural: text_setting_or(p.plural, "mana"),
        symbol: text_setting_or(p.symbol, ""),
        textual_symbol: text_setting_or(p.textual_symbol, "mana"),
        emoji: text_setting_or(p.emoji, "💰"),
        custom_emoji: text_setting_or(p.custom_emoji, ""),
        image_symbol_path: text_setting_or(p.image_symbol_path, ""),
        image_symbol_url: text_setting_or(p.image_symbol_url, ""),
        position: CurrencyPosition::from_str(position_name.as_str()),
        space_between: setting_or(p.space_between, true),
        show_symbol: setting_or(p.show_symbol, false),
        show_textual_symbol: setting_or(p.show_textual_symbol, true),
        show_code: setting_or(p.show_code, false),
        use_emoji_in_embeds: setting_or(p.use_emoji_in_embeds, true),
        use_emoji_in_plaintext: setting_or(p.use_emoji_in_plaintext, false),
        decimals: setting_or(p.decimals, 0),
        thousands_separator: text_setting_or(p.thousands_separator, ","),
        negative_style: NegativeStyle::from_str(negative_name.as_str()),
        short_suffixes: setting_or(p.short_suffixes, true),
    }
}

/// Reads an integer setting from the environment: the default when the
/// variable is unset, its value when it spells an integer, otherwise a
/// configuration error naming the variable.
pub fn env_i64(name: &str, value: Option<&str>, default: i64) -> (r: Result<i64, AppError>)
    ensures
        match value {
            None => r == Ok::<i64, AppError>(default),
            Some(v) => match parse_i64_spec(v@) {
                Some(n) => r == Ok::<i64, AppError>(n),
                None => fails_with(r, ErrorKind::Config, "failed to parse `"@ + name@ + "` as i64"@),
            },
        },
{
    match value {
        None => Ok(default),
        Some(v) => match parse_i64(v) {
            Some(n) => Ok(n),
            None => Err(AppError::Config(concat(concat("failed to parse `", name).as_str(), "` as i64"))),
        },
    }
}

/// The Discord token to use: the one from the files unless blank, else the
/// one from the environment unless blank, else none (empty).
pub fn resolve_discord_token(from_files: Option<String>, from_env: Option<String>) -> (r: String)
    ensures
        r@ == (if from_files matches Some(t) && trim_seq(t@).len() != 0 {
            from_files->0@
        } else if from_env matches Some(t) && trim_seq(t@).len() != 0 {
            from_env->0@
        } else {
            Seq::empty()
        }),
{
    if let Some(t) = from_files {
        if trim(t.as_str()).unicode_len() != 0 {
            return t;
        }
    }
    if let Some(t) = from_env {
        if trim(t.as_str()).unicode_len() != 0 {
            return t;
        }
    }
    String::new()
}

/// Refuses to run the bot without a Discord token.
pub fn validate_for_runtime(discord_token: &str) -> (r: Result<(), AppError>)
    ensures
        trim_seq(discord_token@).len() == 0 <==> (r matches Err(e) && e.kind()
            == ErrorKind::MissingDiscordToken),
        r is Ok <==> trim_seq(discord_token@).len() != 0,
{
    if trim(discord_token).unicode_len() == 0 {
        return Err(AppError::MissingDiscordToken);
    }
    Ok(())
}

/// A path written with forward slashes only, as SQLite URLs want.
pub open spec fn forward_slashes(path: Seq<char>) -> Seq<char> {
    Seq::new(path.len(), |k: int| if path[k] == '\\' { '/' } else { path[k] })
}

/// Turns every backslash of a path into a forward slash.
pub fn normalize_for_sqlite_url(path: &str) -> (r: String)
    ensures
        r@ == forward_slashes(path@),
{
    let n = path.unicode_len();
    let mut s = String::new();
    let mut i: usize = 0;
    while i < n
        invariant
            n == path@.len(),
            i <= n,
            s@ == forward_slashes(path@).take(i as int),
        decreases n - i,
    {
        let c = path.get_char(i);
        let d = if c == '\\' {
            '/'
        } else {
            c
        };
        push_char(&mut s, d);
        assert(forward_slashes(path@).take(i + 1) =~= forward_slashes(path@).take(i as int).push(d));
        i = i + 1;
    }
    assert(forward_slashes(path@).take(n as int) =~= forward_slashes(path@));
    s
}

/// The SQLite URL of a database file.
pub fn sqlite_url_for(path: &str) -> (r: String)
    ensures
        r@ == "sqlite://"@ + forward_slashes(path@),
{
    let normalized = normalize_for_sqlite_url(path);
    concat("sqlite://", normalized.as_str())
}

/// Transfer settings as one configuration file gives them.
#[derive(Clone, Debug)]
pub struct PartialTransferPolicyConfig {
    pub allow_money_donations: Option<bool>,
    pub allow_share_donations: Option<bool>,
    pub allow_money_offers: Option<bool>,
    pub allow_share_offers: Option<bool>,
    pub min_money_transfer: Option<i64>,
    pub max_open_offers_per_user: Option<i64>,
}

/// Transfer settings of `base` with every setting that `overlay` gives replacing
/// the base one.
pub open spec fn transfer_merge(base: PartialTransferPolicyConfig, overlay: PartialTransferPolicyConfig) -> PartialTransferPolicyConfig {
    PartialTransferPolicyConfig {
        allow_money_donations: pick(overlay.allow_money_donations, base.allow_money_donations),
        allow_share_donations: pick(overlay.allow_share_donations, base.allow_share_donations),
        allow_money_offers: pick(overlay.allow_money_offers, base.allow_money_offers),
        allow_share_offers: pick(overlay.allow_share_offers, base.allow_share_offers),
        min_money_transfer: pick(overlay.min_money_transfer, base.min_money_transfer),
        max_open_offers_per_user: pick(overlay.max_open_offers_per_user, base.max_open_offers_per_user),
    }
}

impl PartialTransferPolicyConfig {
    /// Combines these settings with an overlay: every setting the overlay
    /// gives wins.
    pub fn merge(self, overlay: Self) -> (r: Self)
        ensures
            r == transfer_merge(self, overlay),
    {
        PartialTransferPolicyConfig {
            allow_money_donations: pick_setting(overlay.allow_money_donations, self.allow_money_donations),
            allow_share_donations: pick_setting(overlay.allow_share_donations, self.allow_share_donations),
            allow_money_offers: pick_setting(overlay.allow_money_offers, self.allow_money_offers),
            allow_share_offers: pick_setting(overlay.allow_share_offers, self.allow_share_offers),
            min_money_transfer: pick_setting(overlay.min_money_transfer, self.min_money_transfer),
            max_open_offers_per_user: pick_setting(overlay.max_open_offers_per_user, self.max_open_offers_per_user),
        }
    }
}

/// Combining transfer settings is associative.
pub proof fn lemma_transfer_merge_associative(a: PartialTransferPolicyConfig, b: PartialTransferPolicyConfig, c: PartialTransferPolicyConfig)
    ensures
        transfer_merge(transfer_merge(a, b), c) == transfer_merge(a, transfer_merge(b, c)),
{
}

/// Bond settings as one configuration file gives them.
#[derive(Clone, Debug)]
pub struct PartialBondPolicyConfig {
    pub enabled: Option<bool>,
    pub default_yield_period_seconds: Option<i64>,
    pub max_yield_bps: Option<i64>,
    pub min_maturity_seconds: Option<i64>,
    pub max_maturity_seconds: Option<i64>,
    pub max_open_issuances_per_user: Option<i64>,
    pub worker_interval_seconds: Option<i64>,
}

/// Bond settings of `base` with every setting that `overlay` gives replacing
/// the base one.
pub open spec fn bond_merge(base: PartialBondPolicyConfig, overlay: PartialBondPolicyConfig) -> PartialBondPolicyConfig {
    PartialBondPolicyConfig {
        enabled: pick(overlay.enabled, base.enabled),
        default_yield_period_seconds: pick(overlay.default_yield_period_seconds, base.default_yield_period_seconds),
        max_yield_bps: pick(overlay.max_yield_bps, base.max_yield_bps),
        min_maturity_seconds: pick(overlay.min_maturity_seconds, base.min_maturity_seconds),
        max_maturity_seconds: pick(overlay.max_maturity_seconds, base.max_maturity_seconds),
        max_open_issuances_per_user: pick(overlay.max_open_issuances_per_user, base.max_open_issuances_per_user),
        worker_interval_seconds: pick(overlay.worker_interval_seconds, base.worker_interval_seconds),
    }
}

impl PartialBondPolicyConfig {
    /// Combines these settings with an overlay: every setting the overlay
    /// gives wins.
    pub fn merge(self, overlay: Self) -> (r: Self)
        ensures
            r == bond_merge(self, overlay),
    {
        PartialBondPolicyConfig {
            enabled: pick_setting(overlay.enabled, self.enabled),
            default_yield_period_seconds: pick_setting(overlay.default_yield_period_seconds, self.default_yield_period_seconds),
            max_yield_bps: pick_setting(overlay.max_yield_bps, self.max_yield_bps),
            min_maturity_seconds: pick_setting(overlay.min_maturity_seconds, self.min_maturity_seconds),
            max_maturity_seconds: pick_setting(overlay.max_maturity_seconds, self.max_maturity_seconds),
            max_open_issuances_per_user: pick_setting(overlay.max_open_issuances_per_user, self.max_open_issuances_per_user),
            worker_interval_seconds: pick_setting(overlay.worker_interval_seconds, self.worker_interval_seconds),
        }
    }
}

/// Combining bond settings is associative.
pub proof fn lemma_bond_merge_associative(a: PartialBondPolicyConfig, b: PartialBondPolicyConfig, c: PartialBondPolicyConfig)
    ensures
        bond_merge(bond_merge(a, b), c) == bond_merge(a, bond_merge(b, c)),
{
}

/// The bot's own settings as one configuration file gives them.
#[derive(Clone, Debug)]
pub struct PartialBotPolicyConfig {
    pub auto_claim: Option<bool>,
    pub auto_accept_loans: Option<bool>,
    pub startup_announcement_channel_name: Option<String>,
    pub startup_announcement_fallback_channel_name: Option<String>,
    pub max_loan_interest_bps: Option<i64>,
    pub min_loan_duration_seconds: Option<i64>,
    pub auto_buy_bonds: Option<bool>,
    pub min_bond_yield_bps: Option<i64>,
    pub max_bond_yield_bps: Option<i64>,
    pub min_bond_maturity_seconds: Option<i64>,
    pub max_bond_maturity_seconds: Option<i64>,
    pub max_bond_price_mana: Option<i64>,
    pub max_bond_purchase_quantity: Option<i64>,
    pub max_total_bond_exposure_mana: Option<i64>,
    pub worker_interval_seconds: Option<i64>,
}

/// The bot's own settings of `base` with every setting that `overlay` gives replacing
/// the base one.
pub open spec fn bot_merge(base: PartialBotPolicyConfig, overlay: PartialBotPolicyConfig) -> PartialBotPolicyConfig {
    PartialBotPolicyConfig {
        auto_claim: pick(overlay.auto_claim, base.auto_claim),
        auto_accept_loans: pick(overlay.auto_accept_loans, base.auto_accept_loans),
        startup_announcement_channel_name: pick(overlay.startup_announcement_channel_name, base.startup_announcement_channel_name),
        startup_announcement_fallback_channel_name: pick(overlay.startup_announcement_fallback_channel_name, base.startup_announcement_fallback_channel_name),
        max_loan_interest_bps: pick(overlay.max_loan_interest_bps, base.max_loan_interest_bps),
        min_loan_duration_seconds: pick(overlay.min_loan_duration_seconds, base.min_loan_duration_seconds),
        auto_buy_bonds: pick(overlay.auto_buy_bonds, base.auto_buy_bonds),
        min_bond_yield_bps: pick(overlay.min_bond_yield_bps, base.min_bond_yield_bps),
        max_bond_yield_bps: pick(overlay.max_bond_yield_bps, base.max_bond_yield_bps),
        min_bond_maturity_seconds: pick(overlay.min_bond_maturity_seconds, base.min_bond_maturity_seconds),
        max_bond_maturity_seconds: pick(overlay.max_bond_maturity_seconds, base.max_bond_maturity_seconds),
        max_bond_price_mana: pick(overlay.max_bond_price_mana, base.max_bond_price_mana),
        max_bond_purchase_quantity: pick(overlay.max_bond_purchase_quantity, base.max_bond_purchase_quantity),
        max_total_bond_exposure_mana: pick(overlay.max_total_bond_exposure_mana, base.max_total_bond_exposure_mana),
        worker_interval_seconds: pick(overlay.worker_interval_seconds, base.worker_interval_seconds),
    }
}

impl PartialBotPolicyConfig {
    /// Combines these settings with an overlay: every setting the overlay
    /// gives wins.
    pub fn merge(self, overlay: Self) -> (r: Self)
        ensures
            r == bot_merge(self, overlay),
    {
        PartialBotPolicyConfig {
            auto_claim: pick_setting(overlay.auto_claim, self.auto_claim),
            auto_accept_loans: pick_setting(overlay.auto_accept_loans, self.auto_accept_loans),
            startup_announcement_channel_name: pick_setting(overlay.startup_announcement_channel_name, self.startup_announcement_channel_name),
            startup_announcement_fallback_channel_name: pick_setting(overlay.startup_announcement_fallback_channel_name, self.startup_announcement_fallback_channel_name),
            max_loan_interest_bps: pick_setting(overlay.max_loan_interest_bps, self.max_loan_interest_bps),
            min_loan_duration_seconds: pick_setting(overlay.min_loan_duration_seconds, self.min_loan_duration_seconds),
            auto_buy_bonds: pick_setting(overlay.auto_buy_bonds, self.auto_buy_bonds),
            min_bond_yield_bps: pick_setting(overlay.min_bond_yield_bps, self.min_bond_yield_bps),
            max_bond_yield_bps: pick_setting(overlay.max_bond_yield_bps, self.max_bond_yield_bps),
            min_bond_maturity_seconds: pick_setting(overlay.min_bond_maturity_seconds, self.min_bond_maturity_seconds),
            max_bond_maturity_seconds: pick_setting(overlay.max_bond_maturity_seconds, self.max_bond_maturity_seconds),
            max_bond_price_mana: pick_setting(overlay.max_bond_price_mana, self.max_bond_price_mana),
            max_bond_purchase_quantity: pick_setting(overlay.max_bond_purchase_quantity, self.max_bond_purchase_quantity),
            max_total_bond_exposure_mana: pick_setting(overlay.max_total_bond_exposure_mana, self.max_total_bond_exposure_mana),
            worker_interval_seconds: pick_setting(overlay.worker_interval_seconds, self.worker_interval_seconds),
        }
    }
}

/// Combining the bot's own settings is associative.
pub proof fn lemma_bot_merge_associative(a: PartialBotPolicyConfig, b: PartialBotPolicyConfig, c: PartialBotPolicyConfig)
    ensures
        bot_merge(bot_merge(a, b), c) == bot_merge(a, bot_merge(b, c)),
{
}

/// Economy settings (other than the float liquidity) as one configuration file gives them.
#[derive(Clone, Debug)]
pub struct PartialPolicyConfig {
    pub starting_balance: Option<i64>,
    pub claim_amount: Option<i64>,
    pub hourly_claim: Option<i64>,
    pub claim_period_seconds: Option<i64>,
    pub claim_cooldown_seconds: Option<i64>,
    pub claim_period_name: Option<String>,
    pub share_offer_expiration_seconds: Option<i64>,
    pub share_offer_cleanup_interval_seconds: Option<i64>,
}

/// Economy settings (other than the float liquidity) of `base` with every setting that `overlay` gives replacing
/// the base one.
pub open spec fn policy_merge(base: PartialPolicyConfig, overlay: PartialPolicyConfig) -> PartialPolicyConfig {
    PartialPolicyConfig {
        starting_balance: pick(overlay.starting_balance, base.starting_balance),
        claim_amount: pick(overlay.claim_amount, base.claim_amount),
        hourly_claim: pick(overlay.hourly_claim, base.hourly_claim),
        claim_period_seconds: pick(overlay.claim_period_seconds, base.claim_period_seconds),
        claim_cooldown_seconds: pick(overlay.claim_cooldown_seconds, base.claim_cooldown_seconds),
        claim_period_name: pick(overlay.claim_period_name, base.claim_period_name),
        share_offer_expiration_seconds: pick(overlay.share_offer_expiration_seconds, base.share_offer_expiration_seconds),
        share_offer_cleanup_interval_seconds: pick(overlay.share_offer_cleanup_interval_seconds, base.share_offer_cleanup_interval_seconds),
    }
}

impl PartialPolicyConfig {
    /// Combines these settings with an overlay: every setting the overlay
    /// gives wins.
    pub fn merge(self, overlay: Self) -> (r: Self)
        ensures
            r == policy_merge(self, overlay),
    {
        PartialPolicyConfig {
            starting_balance: pick_setting(overlay.starting_balance, self.starting_balance),
            claim_amount: pick_setting(overlay.claim_amount, self.claim_amount),
            hourly_claim: pick_setting(overlay.hourly_claim, self.hourly_claim),
            claim_period_seconds: pick_setting(overlay.claim_period_seconds, self.claim_period_seconds),
            claim_cooldown_seconds: pick_setting(overlay.claim_cooldown_seconds, self.claim_cooldown_seconds),
            claim_period_name: pick_setting(overlay.claim_period_name, self.claim_period_name),
            share_offer_expiration_seconds: pick_setting(overlay.share_offer_expiration_seconds, self.share_offer_expiration_seconds),
            share_offer_cleanup_interval_seconds: pick_setting(overlay.share_offer_cleanup_interval_seconds, self.share_offer_cleanup_interval_seconds),
        }
    }
}

/// Combining economy settings (other than the float liquidity) is associative.
pub proof fn lemma_policy_merge_associative(a: PartialPolicyConfig, b: PartialPolicyConfig, c: PartialPolicyConfig)
    ensures
        policy_merge(policy_merge(a, b), c) == policy_merge(a, policy_merge(b, c)),
{
}

/// Money transfer rules of a server (the share-amount minimum, a float, is
/// kept by the bot).
#[derive(Clone, Debug)]
pub struct TransferRules {
    pub allow_money_donations: bool,
    pub allow_share_donations: bool,
    pub allow_money_offers: bool,
    pub allow_share_offers: bool,
    pub min_money_transfer: i64,
    pub max_open_offers_per_user: i64,
}

/// `r` is the transfer rules that partial settings `p` give.
pub open spec fn transfers_resolved(r: TransferRules, p: PartialTransferPolicyConfig) -> bool {
    &&& r.allow_money_donations == p.allow_money_donations.unwrap_or(true)
    &&& r.allow_share_donations == p.allow_share_donations.unwrap_or(true)
    &&& r.allow_money_offers == p.allow_money_offers.unwrap_or(true)
    &&& r.allow_share_offers == p.allow_share_offers.unwrap_or(true)
    &&& r.min_money_transfer == p.min_money_transfer.unwrap_or(1)
    &&& r.max_open_offers_per_user == p.max_open_offers_per_user.unwrap_or(25)
}

/// The transfer rules that partial settings give, each missing one at its
/// default: every kind of transfer allowed, a minimum money transfer of
/// one, and 25 open offers per member.
pub fn resolve_transfer_policy(p: PartialTransferPolicyConfig) -> (r: TransferRules)
    ensures
        transfers_resolved(r, p),
{
    TransferRules {
        allow_money_donations: setting_or(p.allow_money_donations, true),
        allow_share_donations: setting_or(p.allow_share_donations, true),
        allow_money_offers: setting_or(p.allow_money_offers, true),
        allow_share_offers: setting_or(p.allow_share_offers, true),
        min_money_transfer: setting_or(p.min_money_transfer, 1),
        max_open_offers_per_user: setting_or(p.max_open_offers_per_user, 25),
    }
}

/// `r` is the bond rules that partial settings `p` give.
pub open spec fn bonds_resolved(r: BondPolicyConfig, p: PartialBondPolicyConfig) -> bool {
    &&& r.enabled == p.enabled.unwrap_or(true)
    &&& r.default_yield_period_seconds == p.default_yield_period_seconds.unwrap_or(3_600)
    &&& r.max_yield_bps == p.max_yield_bps.unwrap_or(5_000)
    &&& r.min_maturity_seconds == p.min_maturity_seconds.unwrap_or(3_600)
    &&& r.max_maturity_seconds == p.max_maturity_seconds.unwrap_or(7_776_000)
    &&& r.max_open_issuances_per_user == p.max_open_issuances_per_user.unwrap_or(10)
    &&& r.worker_interval_seconds == p.worker_interval_seconds.unwrap_or(60)
}

/// The bond rules that partial settings give, each missing one at its
/// default: bonds enabled, hourly yield periods, at most 5000 bps, maturity
/// between an hour and ninety days, ten open issuances per member, and a
/// worker every minute.
pub fn resolve_bond_policy(p: PartialBondPolicyConfig) -> (r: BondPolicyConfig)
    ensures
        bonds_resolved(r, p),
{
    BondPolicyConfig {
        enabled: setting_or(p.enabled, true),
        default_yield_period_seconds: setting_or(p.default_yield_period_seconds, 3_600),
        max_yield_bps: setting_or(p.max_yield_bps, 5_000),
        min_maturity_seconds: setting_or(p.min_maturity_seconds, 3_600),
        max_maturity_seconds: setting_or(p.max_maturity_seconds, 7_776_000),
        max_open_issuances_per_user: setting_or(p.max_open_issuances_per_user, 10),
        worker_interval_seconds: setting_or(p.worker_interval_seconds, 60),
    }
}

/// `r` is the bot's rules that partial settings `p` give.
pub open spec fn bot_resolved(r: BotPolicyConfig, p: PartialBotPolicyConfig) -> bool {
    &&& r.auto_claim == p.auto_claim.unwrap_or(true)
    &&& r.auto_accept_loans == p.auto_accept_loans.unwrap_or(true)
    &&& r.startup_announcement_channel_name@ == (match p.startup_announcement_channel_name {
        Some(v) => v@,
        None => "bots"@,
    })
    &&& r.startup_announcement_fallback_channel_name@ == (match p.startup_announcement_fallback_channel_name {
        Some(v) => v@,
        None => "general"@,
    })
    &&& r.max_loan_interest_bps == p.max_loan_interest_bps.unwrap_or(500)
    &&& r.min_loan_duration_seconds == p.min_loan_duration_seconds.unwrap_or(3_600)
    &&& r.auto_buy_bonds == p.auto_buy_bonds.unwrap_or(true)
    &&& r.min_bond_yield_bps == p.min_bond_yield_bps.unwrap_or(100)
    &&& r.max_bond_yield_bps == p.max_bond_yield_bps.unwrap_or(500)
    &&& r.min_bond_maturity_seconds == p.min_bond_maturity_seconds.unwrap_or(3_600)
    &&& r.max_bond_maturity_seconds == p.max_bond_maturity_seconds.unwrap_or(86_400)
    &&& r.max_bond_price_mana == p.max_bond_price_mana.unwrap_or(5_000)
    &&& r.max_bond_purchase_quantity == p.max_bond_purchase_quantity.unwrap_or(1)
    &&& r.max_total_bond_exposure_mana == p.max_total_bond_exposure_mana.unwrap_or(20_000)
    &&& r.worker_interval_seconds == p.worker_interval_seconds.unwrap_or(60)
}

/// The bot's rules that partial settings give, each missing one at its
/// default.
pub fn resolve_bot_policy(p: PartialBotPolicyConfig) -> (r: BotPolicyConfig)
    ensures
        bot_resolved(r, p),
{
    BotPolicyConfig {
        auto_claim: setting_or(p.auto_claim, true),
        auto_accept_loans: setting_or(p.auto_accept_loans, true),
        startup_announcement_channel_name: text_setting_or(p.startup_announcement_channel_name, "bots"),
        startup_announcement_fallback_channel_name: text_setting_or(p.startup_announcement_fallback_channel_name, "general"),
        max_loan_interest_bps: setting_or(p.max_loan_interest_bps, 500),
        min_loan_duration_seconds: setting_or(p.min_loan_duration_seconds, 3_600),
        auto_buy_bonds: setting_or(p.auto_buy_bonds, true),
        min_bond_yield_bps: setting_or(p.min_bond_yield_bps, 100),
        max_bond_yield_bps: setting_or(p.max_bond_yield_bps, 500),
        min_bond_maturity_seconds: setting_or(p.min_bond_maturity_seconds, 3_600),
        max_bond_maturity_seconds: setting_or(p.max_bond_maturity_seconds, 86_400),
        max_bond_price_mana: setting_or(p.max_bond_price_mana, 5_000),
        max_bond_purchase_quantity: setting_or(p.max_bond_purchase_quantity, 1),
        max_total_bond_exposure_mana: setting_or(p.max_total_bond_exposure_mana, 20_000),
        worker_interval_seconds: setting_or(p.worker_interval_seconds, 60),
    }
}

/// Economy rules of a server other than the float liquidity parameter.
#[derive(Clone, Debug)]
pub struct EconomyRules {
    pub starting_balance: i64,
    pub claim_amount: i64,
    pub claim_period_seconds: i64,
    pub claim_period_name: String,
    pub share_offer_expiration_seconds: i64,
    pub share_offer_cleanup_interval_seconds: i64,
}

/// An optional string slice as a sequence.
pub open spec fn text_view(value: Option<&str>) -> Option<Seq<char>> {
    match value {
        Some(v) => Some(v@),
        None => None,
    }
}

/// An integer setting from the files, else from the environment variable
/// (its text read as an integer), else the default; `None` when the files
/// leave it out and the variable does not spell an integer.
pub open spec fn layered_setting(file: Option<i64>, env: Option<Seq<char>>, default: i64) -> Option<i64> {
    match file {
        Some(v) => Some(v),
        None => match env {
            None => Some(default),
            Some(text) => parse_i64_spec(text),
        },
    }
}

/// An integer setting from the files, else from the environment.
fn file_or_env(file: Option<i64>, name: &str, env: Option<&str>, default: i64) -> (r: Result<i64, AppError>)
    ensures
        match layered_setting(file, text_view(env), default) {
            Some(v) => r == Ok::<i64, AppError>(v),
            None => fails_with(r, ErrorKind::Config, "failed to parse `"@ + name@ + "` as i64"@),
        },
{
    match file {
        Some(v) => Ok(v),
        None => env_i64(name, env, default),
    }
}

/// The starting balance, claim amount and claim period that partial
/// settings and the environment give, or the message refusing the first
/// environment variable that is needed but does not spell an integer.
pub open spec fn economy_settings(
    p: PartialPolicyConfig,
    env_starting_balance: Option<Seq<char>>,
    env_claim_amount: Option<Seq<char>>,
    env_claim_period_seconds: Option<Seq<char>>,
) -> Result<(i64, i64, i64), Seq<char>> {
    match layered_setting(p.starting_balance, env_starting_balance, 1_000) {
        None => Err("failed to parse `STARTING_BALANCE` as i64"@),
        Some(starting) => match layered_setting(pick(p.claim_amount, p.hourly_claim), env_claim_amount, 10_000) {
            None => Err("failed to parse `CLAIM_AMOUNT` as i64"@),
            Some(amount) => match layered_setting(
                pick(p.claim_period_seconds, p.claim_cooldown_seconds),
                env_claim_period_seconds,
                43_200,
            ) {
                None => Err("failed to parse `CLAIM_PERIOD_SECONDS` as i64"@),
                Some(period) => Ok((starting, amount, period)),
            },
        },
    }
}

/// `x` holds the three integers `t` and the rest of partial settings `p`,
/// each missing one at its default.
pub open spec fn economy_fields(x: EconomyRules, p: PartialPolicyConfig, t: (i64, i64, i64)) -> bool {
    &&& x.starting_balance == t.0
    &&& x.claim_amount == t.1
    &&& x.claim_period_seconds == t.2
    &&& x.claim_period_name@ == (match p.claim_period_name {
        Some(n) => n@,
        None => "twice-daily login"@,
    })
    &&& x.share_offer_expiration_seconds == p.share_offer_expiration_seconds.unwrap_or(60)
    &&& x.share_offer_cleanup_interval_seconds == p.share_offer_cleanup_interval_seconds.unwrap_or(15)
}

/// The economy rules that partial settings and the environment give: the
/// starting balance from the files, else `STARTING_BALANCE`, else 1000; the
/// claim amount (`claim_amount`, else the older `hourly_claim`) else
/// `CLAIM_AMOUNT`, else 10000; the claim period (`claim_period_seconds`,
/// else the older `claim_cooldown_seconds`) else `CLAIM_PERIOD_SECONDS`,
/// else twelve hours; a variable that is set but not an integer is refused,
/// the first such in that order.
pub fn resolve_economy_policy(
    p: PartialPolicyConfig,
    env_starting_balance: Option<&str>,
    env_claim_amount: Option<&str>,
    env_claim_period_seconds: Option<&str>,
) -> (r: Result<EconomyRules, AppError>)
    ensures
        match economy_settings(
            p,
            text_view(env_starting_balance),
            text_view(env_claim_amount),
            text_view(env_claim_period_seconds),
        ) {
            Err(m) => fails_with(r, ErrorKind::Config, m),
            Ok(t) => r matches Ok(x) && economy_fields(x, p, t),
        },
{
    proof {
        reveal_strlit("failed to parse `");
        reveal_strlit("` as i64");
        reveal_strlit("STARTING_BALANCE");
        reveal_strlit("CLAIM_AMOUNT");
        reveal_strlit("CLAIM_PERIOD_SECONDS");
        reveal_strlit("failed to parse `STARTING_BALANCE` as i64");
        reveal_strlit("failed to parse `CLAIM_AMOUNT` as i64");
        reveal_strlit("failed to parse `CLAIM_PERIOD_SECONDS` as i64");
        assert("failed to parse `"@ + "STARTING_BALANCE"@ + "` as i64"@
            =~= "failed to parse `STARTING_BALANCE` as i64"@);
        assert("failed to parse `"@ + "CLAIM_AMOUNT"@ + "` as i64"@
            =~= "failed to parse `CLAIM_AMOUNT` as i64"@);
        assert("failed to parse `"@ + "CLAIM_PERIOD_SECONDS"@ + "` as i64"@
            =~= "failed to parse `CLAIM_PERIOD_SECONDS` as i64"@);
    }
    let starting_balance = match file_or_env(p.starting_balance, "STARTING_BALANCE", env_starting_balance, 1_000) {
        Ok(v) => v,
        Err(e) => {
            return Err(e);
        },
    };
    let claim_amount = match file_or_env(
        pick_setting(p.claim_amount, p.hourly_claim),
        "CLAIM_AMOUNT",
        env_claim_amount,
        10_000,
    ) {
        Ok(v) => v,
        Err(e) => {
            return Err(e);
        },
    };
    let claim_period_seconds = match file_or_env(
        pick_setting(p.claim_period_seconds, p.claim_cooldown_seconds),
        "CLAIM_PERIOD_SECONDS",
        env_claim_period_seconds,
        43_200,
    ) {
        Ok(v) => v,
        Err(e) => {
            return Err(e);
        },
    };
    Ok(EconomyRules {
        starting_balance,
        claim_amount,
        claim_period_seconds,
        claim_period_name: text_setting_or(p.claim_period_name, "twice-daily login"),
        share_offer_expiration_seconds: setting_or(p.share_offer_expiration_seconds, 60),
        share_offer_cleanup_interval_seconds: setting_or(p.share_offer_cleanup_interval_seconds, 15),
    })
}

/// A setting after the local file is laid over the base file and the
/// default fills the gap: the local file's when it gives one, else the base
/// file's, else the default.
pub proof fn lemma_local_file_wins<T>(base: Option<T>, local: Option<T>, default: T)
    ensures
        pick(local, base).unwrap_or(default) == (if local is Some {
            local->0
        } else if base is Some {
            base->0
        } else {
            default
        }),
{
}

/// An integer setting with an environment fallback: the local file's when
/// it gives one, else the base file's, else the environment's, else the
/// default.
pub proof fn lemma_local_file_wins_over_environment(
    base: Option<i64>,
    local: Option<i64>,
    env: Option<Seq<char>>,
    default: i64,
)
    ensures
        layered_setting(pick(local, base), env, default) == (if local is Some {
            local
        } else if base is Some {
            base
        } else if env is Some {
            parse_i64_spec(env->0)
        } else {
            Some(default)
        }),
{
}


/// Everything one configuration file sets, table by table.
#[derive(Clone, Debug)]
pub struct PartialSettings {
    pub discord_token: Option<String>,
    pub cache_dir: Option<String>,
    pub database_url: Option<String>,
    pub policies: PartialPolicyConfig,
    pub transfers: PartialTransferPolicyConfig,
    pub loans: PartialLoanPolicyConfig,
    pub manifold: PartialManifoldConfig,
    pub currency: PartialCurrencyConfig,
    pub bonds: PartialBondPolicyConfig,
    pub bot: PartialBotPolicyConfig,
}

/// The settings of `base` with every setting that `overlay` gives, in every
/// table, replacing the base one.
pub open spec fn settings_merge(base: PartialSettings, overlay: PartialSettings) -> PartialSettings {
    PartialSettings {
        discord_token: pick(overlay.discord_token, base.discord_token),
        cache_dir: pick(overlay.cache_dir, base.cache_dir),
        database_url: pick(overlay.database_url, base.database_url),
        policies: policy_merge(base.policies, overlay.policies),
        transfers: transfer_merge(base.transfers, overlay.transfers),
        loans: loan_merge(base.loans, overlay.loans),
        manifold: manifold_merge(base.manifold, overlay.manifold),
        currency: currency_merge(base.currency, overlay.currency),
        bonds: bond_merge(base.bonds, overlay.bonds),
        bot: bot_merge(base.bot, overlay.bot),
    }
}

/// What the environment supplies when the files leave a setting out.
#[derive(Clone, Debug)]
pub struct EnvironmentSettings {
    pub discord_token: Option<String>,
    pub cache_dir: Option<String>,
    pub database_url: Option<String>,
    pub manifold_api_base_url: Option<String>,
    pub starting_balance: Option<String>,
    pub claim_amount: Option<String>,
    pub claim_period_seconds: Option<String>,
}

/// The whole configuration of the bot's economy, every setting resolved.
/// The database address is `None` when neither the files nor the
/// environment give one (the bot then derives it from the cache directory).
#[derive(Clone, Debug)]
pub struct Settings {
    pub discord_token: String,
    pub cache_dir: String,
    pub database_url: Option<String>,
    pub economy: EconomyRules,
    pub transfers: TransferRules,
    pub loans: LoanPolicyConfig,
    pub manifold: ManifoldConfig,
    pub currency: CurrencyConfig,
    pub bonds: BondPolicyConfig,
    pub bot: BotPolicyConfig,
}

/// An optional string as a sequence.
pub open spec fn text_of(value: Option<String>) -> Option<Seq<char>> {
    match value {
        Some(v) => Some(v@),
        None => None,
    }
}

/// A text setting that is not blank, if there is one.
pub open spec fn non_blank(value: Option<String>) -> bool {
    value matches Some(t) && trim_seq(t@).len() != 0
}

/// `s` is the configuration that the layered settings `m` and the
/// environment `env` give, with the economy's integers `t`.
pub open spec fn settings_fields(s: Settings, m: PartialSettings, env: EnvironmentSettings, t: (i64, i64, i64)) -> bool {
    &&& s.discord_token@ == (if non_blank(m.discord_token) {
        m.discord_token->0@
    } else if non_blank(env.discord_token) {
        env.discord_token->0@
    } else {
        Seq::empty()
    })
    &&& s.cache_dir@ == (match pick(text_of(m.cache_dir), text_of(env.cache_dir)) {
        Some(d) => d,
        None => ".cache"@,
    })
    &&& text_of(s.database_url) == pick(text_of(m.database_url), text_of(env.database_url))
    &&& economy_fields(s.economy, m.policies, t)
    &&& transfers_resolved(s.transfers, m.transfers)
    &&& s.loans == resolved_loans(m.loans)
    &&& manifold_resolved(s.manifold, m.manifold, text_of(env.manifold_api_base_url))
    &&& currency_resolved(s.currency, m.currency)
    &&& bonds_resolved(s.bonds, m.bonds)
    &&& bot_resolved(s.bot, m.bot)
}

/// `r` is what loading the base file's settings, the local file's over them,
/// and the environment give.
pub open spec fn configuration_loaded(
    r: Result<Settings, AppError>,
    base: PartialSettings,
    local: PartialSettings,
    env: EnvironmentSettings,
) -> bool {
    let m = settings_merge(base, local);
    match economy_settings(
        m.policies,
        text_of(env.starting_balance),
        text_of(env.claim_amount),
        text_of(env.claim_period_seconds),
    ) {
        Err(msg) => fails_with(r, ErrorKind::Config, msg),
        Ok(t) => r matches Ok(s) && settings_fields(s, m, env, t),
    }
}

/// A borrowed view of an optional string.
fn borrowed(value: &Option<String>) -> (r: Option<&str>)
    ensures
        text_view(r) == text_of(*value),
{
    match value {
        Some(v) => Some(v.as_str()),
        None => None,
    }
}

/// Loads the whole configuration: the local file's settings laid over the
/// base file's, table by table, then the environment and the defaults for
/// what both leave out.
pub fn load_settings(base: PartialSettings, local: PartialSettings, env: EnvironmentSettings) -> (r: Result<
    Settings,
    AppError,
>)
    ensures
        configuration_loaded(r, base, local, env),
{
    let policies = base.policies.merge(local.policies);
    let economy = match resolve_economy_policy(
        policies,
        borrowed(&env.starting_balance),
        borrowed(&env.claim_amount),
        borrowed(&env.claim_period_seconds),
    ) {
        Ok(x) => x,
        Err(e) => {
            return Err(e);
        },
    };
    let cache_dir = match pick_setting(local.cache_dir, base.cache_dir) {
        Some(d) => d,
        None => text_setting_or(env.cache_dir, ".cache"),
    };
    Ok(Settings {
        discord_token: resolve_discord_token(pick_setting(local.discord_token, base.discord_token), env.discord_token),
        cache_dir,
        database_url: match pick_setting(local.database_url, base.database_url) {
            Some(u) => Some(u),
            None => env.database_url,
        },
        economy,
        transfers: resolve_transfer_policy(base.transfers.merge(local.transfers)),
        loans: resolve_loan_policy(base.loans.merge(local.loans)),
        manifold: resolve_manifold(base.manifold.merge(local.manifold), env.manifold_api_base_url),
        currency: resolve_currency(base.currency.merge(local.currency)),
        bonds: resolve_bond_policy(base.bonds.merge(local.bonds)),
        bot: resolve_bot_policy(base.bot.merge(local.bot)),
    })
}

/// Configuration layering, for the whole loaded configuration: every
/// setting is the local file's when it gives one, else the base file's,
/// else the environment's where the environment supplies one, else the
/// default. Spelled out here for one setting of each table; every other
/// setting has the same form in `settings_fields`.
pub proof fn lemma_configuration_layering(
    base: PartialSettings,
    local: PartialSettings,
    env: EnvironmentSettings,
    s: Settings,
)
    requires
        configuration_loaded(Ok(s), base, local, env),
    ensures
        Some(s.economy.starting_balance) == (if local.policies.starting_balance is Some {
            local.policies.starting_balance
        } else if base.policies.starting_balance is Some {
            base.policies.starting_balance
        } else if env.starting_balance is Some {
            parse_i64_spec(env.starting_balance->0@)
        } else {
            Some(1_000i64)
        }),
        s.cache_dir@ == (if local.cache_dir is Some {
            local.cache_dir->0@
        } else if base.cache_dir is Some {
            base.cache_dir->0@
        } else if env.cache_dir is Some {
            env.cache_dir->0@
        } else {
            ".cache"@
        }),
        s.transfers.min_money_transfer == pick(local.transfers.min_money_transfer, base.transfers.min_money_transfer).unwrap_or(1),
        s.loans.max_interest_bps == pick(local.loans.max_interest_bps, base.loans.max_interest_bps).unwrap_or(2_500),
        s.manifold.poll_interval_seconds == pick(local.manifold.poll_interval_seconds, base.manifold.poll_interval_seconds).unwrap_or(120),
        s.currency.decimals == pick(local.currency.decimals, base.currency.decimals).unwrap_or(0),
        s.bonds.max_yield_bps == pick(local.bonds.max_yield_bps, base.bonds.max_yield_bps).unwrap_or(5_000),
        s.bot.auto_claim == pick(local.bot.auto_claim, base.bot.auto_claim).unwrap_or(true),
{
    lemma_local_file_wins_over_environment(
        base.policies.starting_balance,
        local.policies.starting_balance,
        text_of(env.starting_balance),
        1_000,
    );
}

} // verus!
