//! Reading Manifold markets: which market a link or id refers to, the API
//! addresses asked for it, and how Manifold's resolution and market kind
//! map onto the economy's own.

use vstd::prelude::*;

use crate::error::{fails_with, AppError, ErrorKind};
use crate::market::{ExternalMarketStatus, ExternalResolution};
use crate::text::{
    after_last, decimal, int_decimal, last_path_piece, owned, push_str, starts_with, str_eq,
    trim_trailing_slashes, without_trailing_slashes,
};

verus! {

/// What `url::Url::parse` makes of `text`: the error's message when it is
/// not a URL, otherwise the last segment of its path (`None` for a URL
/// whose path has no segments).
pub uninterp spec fn url_path_tail(text: Seq<char>) -> Result<Option<Seq<char>>, Seq<char>>;

/// Calls `url::Url::parse`, then takes the last of the parsed URL's
/// `path_segments()`; on failure, the `ParseError`'s message. The contract
/// only names the outcome, which depends on the text alone.
#[verifier::external_body]
fn parse_url_path_tail(text: &str) -> (r: Result<Option<String>, String>)
    ensures
        match r {
            Ok(Some(tail)) => url_path_tail(text@) == Ok::<Option<Seq<char>>, Seq<char>>(Some(tail@)),
            Ok(None) => url_path_tail(text@) == Ok::<Option<Seq<char>>, Seq<char>>(None),
            Err(m) => url_path_tail(text@) == Err::<Option<Seq<char>>, Seq<char>>(m@),
        },
{
    match url::Url::parse(text) {
        Ok(parsed) => Ok(parsed.path_segments().and_then(|segments| segments.last()).map(|s| s.to_string())),
        Err(error) => Err(error.to_string()),
    }
}

/// How a Manifold market is looked up.
#[derive(Clone, Debug)]
pub enum MarketReference {
    /// By its slug, the last piece of its link.
    Slug(String),
    /// By its id.
    Id(String),
}

/// `text` begins with `http://` or `https://`.
pub open spec fn is_web_link(text: Seq<char>) -> bool {
    (text.len() >= 7 && text.take(7) == "http://"@) || (text.len() >= 8 && text.take(8)
        == "https://"@)
}

/// The reference a link or id stands for when it is not read as a URL:
/// the text after its last `/` as a slug when it has one, else the text
/// itself as an id.
pub open spec fn plain_reference(text: Seq<char>, r: MarketReference) -> bool {
    if exists|k: int| 0 <= k < text.len() && text[k] == '/' {
        r matches MarketReference::Slug(s) && s@ == text.skip(after_last(text, '/'))
    } else {
        r matches MarketReference::Id(s) && s@ == text
    }
}

/// Reads what a member pasted to track a Manifold market: a web link is
/// parsed as a URL and the last segment of its path is the slug (a link
/// that does not parse is an error); other text containing `/` gives the
/// slug after its last `/`; anything else is a market id.
pub fn market_reference(url_or_id: &str) -> (r: Result<MarketReference, AppError>)
    ensures
        is_web_link(url_or_id@) ==> match url_path_tail(url_or_id@) {
            Err(m) => fails_with(r, ErrorKind::Url, m),
            Ok(Some(tail)) => r matches Ok(MarketReference::Slug(s)) && s@ == tail,
            Ok(None) => r matches Ok(reference) && plain_reference(url_or_id@, reference),
        },
        !is_web_link(url_or_id@) ==> (r matches Ok(reference) && plain_reference(url_or_id@, reference)),
{
    let http = starts_with(url_or_id, "http://");
    let https = starts_with(url_or_id, "https://");
    proof {
        reveal_strlit("http://");
        reveal_strlit("https://");
    }
    if http || https {
        match parse_url_path_tail(url_or_id) {
            Err(m) => {
                return Err(AppError::Url(m));
            },
            Ok(Some(tail)) => {
                return Ok(MarketReference::Slug(tail));
            },
            Ok(None) => {},
        }
    }
    let (piece, has_slash) = last_path_piece(url_or_id);
    if has_slash {
        Ok(MarketReference::Slug(owned(piece)))
    } else {
        Ok(MarketReference::Id(owned(url_or_id)))
    }
}

/// The API address of a market: the base address without trailing `/`,
/// then `/market/` and the id or `/slug/` and the slug.
pub open spec fn api_address(base_url: Seq<char>, reference: MarketReference) -> Seq<char> {
    match reference {
        MarketReference::Id(id) => trim_trailing_slashes(base_url) + "/market/"@ + id@,
        MarketReference::Slug(slug) => trim_trailing_slashes(base_url) + "/slug/"@ + slug@,
    }
}

/// The API address a market is fetched from.
pub fn market_api_url(base_url: &str, reference: &MarketReference) -> (r: String)
    ensures
        r@ == api_address(base_url@, *reference),
{
    let mut m = owned(without_trailing_slashes(base_url));
    match reference {
        MarketReference::Id(id) => {
            push_str(&mut m, "/market/");
            push_str(&mut m, id.as_str());
        },
        MarketReference::Slug(slug) => {
            push_str(&mut m, "/slug/");
            push_str(&mut m, slug.as_str());
        },
    }
    m
}

/// An answer of a multiple-choice Manifold market, by id and number.
#[derive(Clone, Debug)]
pub struct ManifoldAnswerRef {
    pub id: String,
    pub number: i64,
}

/// `answer` is the one a resolution text names: by its number written in
/// decimal, or by its id.
pub open spec fn names_answer(resolution: Seq<char>, answer: ManifoldAnswerRef) -> bool {
    int_decimal(answer.number as int) == resolution || answer.id@ == resolution
}

/// The answer id a multiple-choice resolution names.
pub open spec fn chosen_answer(r: Option<ExternalResolution>) -> Option<Seq<char>> {
    match r {
        Some(ExternalResolution::MultipleChoice { winning_outcome_id }) => Some(winning_outcome_id@),
        _ => None,
    }
}

/// What a Manifold resolution text means: `YES`, `NO` and `CANCEL` are
/// read as such; other text names the first answer whose number or id it
/// is, and is ambiguous when no answer matches.
pub open spec fn resolution_meaning(
    resolution: Option<Seq<char>>,
    answers: Option<Seq<ManifoldAnswerRef>>,
    r: Option<ExternalResolution>,
) -> bool {
    match resolution {
        None => r is None,
        Some(text) => if text == "YES"@ {
            r == Some(ExternalResolution::BinaryYes)
        } else if text == "NO"@ {
            r == Some(ExternalResolution::BinaryNo)
        } else if text == "CANCEL"@ {
            r == Some(ExternalResolution::Cancelled)
        } else {
            match answers {
                Some(list) => if exists|k: int| 0 <= k < list.len() && names_answer(text, #[trigger] list[k]) {
                    exists|i: int|
                        0 <= i < list.len() && #[trigger] names_answer(text, list[i]) && (forall|j: int|
                            0 <= j < i ==> !names_answer(text, #[trigger] list[j]))
                            && chosen_answer(r) == Some(list[i].id@)
                } else {
                    r matches Some(ExternalResolution::Ambiguous(t)) && t@ == text
                },
                None => r matches Some(ExternalResolution::Ambiguous(t)) && t@ == text,
            }
        },
    }
}

/// Binary and cancelled resolutions settle as such, whatever answers the
/// market lists: `YES` pays the YES holders, `NO` the NO holders, `CANCEL`
/// cancels, and no resolution leaves the market open.
pub proof fn lemma_binary_resolutions_settle(answers: Option<Seq<ManifoldAnswerRef>>, r: Option<ExternalResolution>)
    ensures
        resolution_meaning(Some("YES"@), answers, r) ==> r == Some(ExternalResolution::BinaryYes),
        resolution_meaning(Some("NO"@), answers, r) ==> r == Some(ExternalResolution::BinaryNo),
        resolution_meaning(Some("CANCEL"@), answers, r) ==> r == Some(ExternalResolution::Cancelled),
        resolution_meaning(None, answers, r) ==> r is None,
{
    reveal_strlit("YES");
    reveal_strlit("NO");
    reveal_strlit("CANCEL");
    assert("NO"@.len() != "YES"@.len());
    assert("CANCEL"@.len() != "YES"@.len() && "CANCEL"@.len() != "NO"@.len());
}

/// A text other than `YES`, `NO` and `CANCEL` that names no listed answer
/// is never settled: it goes to manual review with the text kept.
pub proof fn lemma_unknown_resolutions_need_review(
    text: Seq<char>,
    answers: Option<Seq<ManifoldAnswerRef>>,
    r: Option<ExternalResolution>,
)
    requires
        text != "YES"@,
        text != "NO"@,
        text != "CANCEL"@,
        !(answers matches Some(list) && exists|k: int| 0 <= k < list.len() && names_answer(text, #[trigger] list[k])),
        resolution_meaning(Some(text), answers, r),
    ensures
        r matches Some(ExternalResolution::Ambiguous(t)) && t@ == text,
{
}

/// Reads Manifold's resolution of a market.
pub fn classify_resolution(resolution: Option<&str>, answers: Option<&Vec<ManifoldAnswerRef>>) -> (r:
    Option<ExternalResolution>)
    ensures
        resolution_meaning(
            match resolution {
                Some(t) => Some(t@),
                None => None,
            },
            match answers {
                Some(a) => Some(a@),
                None => None,
            },
            r,
        ),
        resolution is None ==> r is None,
        resolution matches Some(t) && t@ == "YES"@ ==> r == Some(ExternalResolution::BinaryYes),
        resolution matches Some(t) && t@ == "NO"@ ==> r == Some(ExternalResolution::BinaryNo),
        resolution matches Some(t) && t@ == "CANCEL"@ ==> r == Some(ExternalResolution::Cancelled),
{
    proof {
        reveal_strlit("YES");
        reveal_strlit("NO");
        reveal_strlit("CANCEL");
        assert("NO"@.len() != "YES"@.len());
        assert("CANCEL"@.len() != "YES"@.len() && "CANCEL"@.len() != "NO"@.len());
    }
    let text = match resolution {
        None => {
            return None;
        },
        Some(t) => t,
    };
    if str_eq(text, "YES") {
        return Some(ExternalResolution::BinaryYes);
    }
    if str_eq(text, "NO") {
        return Some(ExternalResolution::BinaryNo);
    }
    if str_eq(text, "CANCEL") {
        return Some(ExternalResolution::Cancelled);
    }
    match answers {
        Some(list) => {
            let mut i: usize = 0;
            while i < list.len()
                invariant
                    i <= list.len(),
                    resolution == Some(text),
                    answers == Some(list),
                    text@ != "YES"@,
                    text@ != "NO"@,
                    text@ != "CANCEL"@,
                    forall|j: int| 0 <= j < i ==> !names_answer(text@, #[trigger] list@[j]),
                decreases list.len() - i,
            {
                let number = decimal(list[i].number);
                if str_eq(number.as_str(), text) || str_eq(list[i].id.as_str(), text) {
                    let winning_outcome_id = list[i].id.clone();
                    let r = Some(ExternalResolution::MultipleChoice { winning_outcome_id });
                    assert(names_answer(text@, list@[i as int]));
                    assert(exists|k: int| 0 <= k < list@.len() && names_answer(text@, #[trigger] list@[k]));
                    assert(chosen_answer(r) == Some(list@[i as int].id@));
                    assert(exists|k: int|
                        0 <= k < list@.len() && #[trigger] names_answer(text@, list@[k]) && (forall|j: int|
                            0 <= j < k ==> !names_answer(text@, #[trigger] list@[j]))
                            && chosen_answer(r) == Some(list@[k].id@));
                    assert(resolution_meaning(Some(text@), Some(list@), r));
                    return r;
                }
                i = i + 1;
            }
            Some(ExternalResolution::Ambiguous(owned(text)))
        },
        None => Some(ExternalResolution::Ambiguous(owned(text))),
    }
}

/// A Manifold market counts as resolved when Manifold says so or when it
/// carries a resolution; otherwise it is open.
pub fn snapshot_status(is_resolved: Option<bool>, resolution: &Option<ExternalResolution>) -> (r:
    ExternalMarketStatus)
    ensures
        r == (if is_resolved == Some(true) || resolution is Some {
            ExternalMarketStatus::Resolved
        } else {
            ExternalMarketStatus::Open
        }),
{
    let flagged = match is_resolved {
        Some(b) => b,
        None => false,
    };
    if flagged || resolution.is_some() {
        ExternalMarketStatus::Resolved
    } else {
        ExternalMarketStatus::Open
    }
}

/// The kinds of Manifold market the economy mirrors.
#[derive(Clone, Copy, Debug, PartialEq, Eq, Structural)]
pub enum OutcomeKind {
    /// A YES/NO market.
    Binary,
    /// A market with a list of answers.
    MultipleChoice,
}

/// The kind of a Manifold market from its `outcomeType`; a binary market
/// must carry a probability. Other kinds are not mirrored.
pub fn outcome_kind(outcome_type: &str, has_probability: bool) -> (r: Result<OutcomeKind, AppError>)
    ensures
        outcome_type@ == "BINARY"@ ==> if has_probability {
            r == Ok::<OutcomeKind, AppError>(OutcomeKind::Binary)
        } else {
            fails_with(r, ErrorKind::External, "manifold binary market did not include probability"@)
        },
        (outcome_type@ == "MULTIPLE_CHOICE"@ || outcome_type@ == "DEPENDENT_MULTIPLE_CHOICE"@) ==> r
            == Ok::<OutcomeKind, AppError>(OutcomeKind::MultipleChoice),
        !(outcome_type@ == "BINARY"@ || outcome_type@ == "MULTIPLE_CHOICE"@ || outcome_type@
            == "DEPENDENT_MULTIPLE_CHOICE"@) ==> fails_with(
            r,
            ErrorKind::External,
            "unsupported manifold market type `"@ + outcome_type@ + "`"@,
        ),
{
    proof {
        reveal_strlit("BINARY");
        reveal_strlit("MULTIPLE_CHOICE");
        reveal_strlit("DEPENDENT_MULTIPLE_CHOICE");
        assert("BINARY"@.len() == 6);
        assert("MULTIPLE_CHOICE"@.len() == 15);
        assert("DEPENDENT_MULTIPLE_CHOICE"@.len() == 25);
    }
    if str_eq(outcome_type, "BINARY") {
        if !has_probability {
            return Err(
                AppError::External(owned("manifold binary market did not include probability")),
            );
        }
        return Ok(OutcomeKind::Binary);
    }
    if str_eq(outcome_type, "MULTIPLE_CHOICE") || str_eq(outcome_type, "DEPENDENT_MULTIPLE_CHOICE") {
        return Ok(OutcomeKind::MultipleChoice);
    }
    let mut m = owned("unsupported manifold market type `");
    push_str(&mut m, outcome_type);
    push_str(&mut m, "`");
    Err(AppError::External(m))
}

} // verus!
