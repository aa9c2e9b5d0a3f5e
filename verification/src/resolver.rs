//! Resolution of item links to canonical identifiers.
//!
//! A canonical long-form link carries the numeric identifier in its path
//! and is resolved by pure extraction.  Anything else must be a known
//! short link, whose single redirect hop — the caller performs the HTTP
//! round trip — answers with a `Location` value that is then matched the
//! same way.

use vstd::prelude::*;
use vstd::string::StrSliceExecFns;

use crate::command::{Error, ErrorView};
use crate::text::{
    is_digit_char, lemma_skip_digits, lit_at, skip_digits, skip_digits_exec, starts_with,
    starts_with_str, str_at, sub_text,
};

verus! {

/// The digit run starting exactly at `s`, if nonempty.
pub open spec fn digit_run(u: Seq<char>, s: int) -> Option<Seq<char>> {
    let d = skip_digits(u, s);
    if d > s {
        Some(u.subrange(s, d))
    } else {
        None
    }
}

/// The identifier of a canonical link occurrence starting at `p`: the
/// scheme, one of the two known long-form hosts, and a nonempty digit run.
pub open spec fn canonical_at(u: Seq<char>, p: int) -> Option<Seq<char>> {
    let h = "https://"@.len() as int;
    if lit_at(u, p, "https://"@) {
        if lit_at(u, p + h, "t.bilibili.com/"@) {
            digit_run(u, p + h + "t.bilibili.com/"@.len())
        } else if lit_at(u, p + h, "m.bilibili.com/dynamic/"@) {
            digit_run(u, p + h + "m.bilibili.com/dynamic/"@.len())
        } else {
            None
        }
    } else {
        None
    }
}

/// The identifier of the leftmost canonical link occurrence at or after
/// position `p`.
pub open spec fn canonical_search(u: Seq<char>, p: int) -> Option<Seq<char>>
    decreases u.len() - p,
{
    if p < 0 || p >= u.len() {
        None
    } else {
        match canonical_at(u, p) {
            Some(id) => Some(id),
            None => canonical_search(u, p + 1),
        }
    }
}

/// The identifier the canonical-form pattern extracts from `u`, if any.
pub open spec fn canonical_match(u: Seq<char>) -> Option<Seq<char>> {
    canonical_search(u, 0)
}

/// A canonical identifier is a nonempty run of digits.
pub proof fn lemma_canonical_id_digits(u: Seq<char>, p: int)
    requires
        0 <= p,
        canonical_search(u, p) is Some,
    ensures
        canonical_search(u, p)->0.len() >= 1,
        forall|m: int|
            0 <= m < canonical_search(u, p)->0.len() ==> is_digit_char(
                #[trigger] canonical_search(u, p)->0[m],
            ),
    decreases u.len() - p,
{
    if p < u.len() {
        if canonical_at(u, p) is Some {
            let h = "https://"@.len() as int;
            if lit_at(u, p + h, "t.bilibili.com/"@) {
                let s = p + h + "t.bilibili.com/"@.len();
                lemma_skip_digits(u, s);
            } else {
                let s = p + h + "m.bilibili.com/dynamic/"@.len();
                lemma_skip_digits(u, s);
            }
        } else {
            lemma_canonical_id_digits(u, p + 1);
        }
    }
}

fn digit_run_exec(u: &Vec<char>, s: usize) -> (r: Option<Vec<char>>)
    requires
        s <= u@.len(),
    ensures
        match r {
            Some(id) => digit_run(u@, s as int) == Some(id@),
            None => digit_run(u@, s as int) is None,
        },
{
    let d = skip_digits_exec(u, s);
    proof {
        lemma_skip_digits(u@, s as int);
    }
    if d > s {
        Some(sub_text(u, s, d))
    } else {
        None
    }
}

fn canonical_at_exec(u: &Vec<char>, p: usize) -> (r: Option<Vec<char>>)
    requires
        p <= u@.len(),
    ensures
        match r {
            Some(id) => canonical_at(u@, p as int) == Some(id@),
            None => canonical_at(u@, p as int) is None,
        },
{
    let h = "https://".unicode_len();
    if !str_at(u, p, "https://") {
        return None;
    }
    assert(p + h <= u.len());
    if str_at(u, p + h, "t.bilibili.com/") {
        let m = "t.bilibili.com/".unicode_len();
        assert(p + h + m <= u.len());
        digit_run_exec(u, p + h + m)
    } else if str_at(u, p + h, "m.bilibili.com/dynamic/") {
        let m = "m.bilibili.com/dynamic/".unicode_len();
        assert(p + h + m <= u.len());
        digit_run_exec(u, p + h + m)
    } else {
        None
    }
}

/// Extracts the canonical identifier from `u` by pure pattern matching,
/// without any network traffic.
pub fn canonical_id(u: &Vec<char>) -> (r: Option<Vec<char>>)
    ensures
        match r {
            Some(id) => canonical_match(u@) == Some(id@),
            None => canonical_match(u@) is None,
        },
{
    let mut p: usize = 0;
    while p < u.len()
        invariant
            p <= u@.len(),
            canonical_search(u@, 0) == canonical_search(u@, p as int),
        decreases u@.len() - p,
    {
        match canonical_at_exec(u, p) {
            Some(id) => {
                return Some(id);
            },
            None => {
                p = p + 1;
            },
        }
    }
    None
}

/// What the first resolution step decided.
pub enum ResolveStep {
    /// The link was canonical; here is its identifier, no network call
    /// is needed.
    Resolved(Vec<char>),
    /// The link is a known short link: fetch it without following
    /// redirects and hand the `Location` header to [`resolve_location`].
    Fetch,
}

/// The mathematical value of a [`ResolveStep`].
pub enum ResolveStepView {
    Resolved(Seq<char>),
    Fetch,
}

impl View for ResolveStep {
    type V = ResolveStepView;

    open spec fn view(&self) -> ResolveStepView {
        match self {
            ResolveStep::Resolved(id) => ResolveStepView::Resolved(id@),
            ResolveStep::Fetch => ResolveStepView::Fetch,
        }
    }
}

/// The first resolution step on `u`: the canonical identifier where the
/// pattern matches, else the order to fetch a known short link, else the
/// unrecognized-link error.
pub open spec fn resolve_step_spec(u: Seq<char>) -> Result<ResolveStepView, ErrorView> {
    match canonical_match(u) {
        Some(id) => Ok(ResolveStepView::Resolved(id)),
        None => {
            if starts_with(u, "https://b23.tv/"@) {
                Ok(ResolveStepView::Fetch)
            } else {
                Err(ErrorView::UnrecognizedLink)
            }
        },
    }
}

/// Decides how to resolve the link `u`, performing no network traffic
/// itself.
pub fn resolve_step(u: &Vec<char>) -> (r: Result<ResolveStep, Error>)
    ensures
        match r {
            Ok(s) => resolve_step_spec(u@) == Ok::<ResolveStepView, ErrorView>(s@),
            Err(e) => resolve_step_spec(u@) == Err::<ResolveStepView, ErrorView>(e@),
        },
{
    match canonical_id(u) {
        Some(id) => Ok(ResolveStep::Resolved(id)),
        None => {
            if starts_with_str(u, "https://b23.tv/") {
                Ok(ResolveStep::Fetch)
            } else {
                Err(Error::UnrecognizedLink)
            }
        },
    }
}

/// The second resolution step, on the `Location` value of the redirect
/// answer: a missing header is the redirect failure, a location without a
/// canonical identifier is the not-found failure.
pub open spec fn resolve_location_spec(loc: Option<Seq<char>>) -> Result<Seq<char>, ErrorView> {
    match loc {
        None => Err(ErrorView::RedirectFailed),
        Some(l) => match canonical_match(l) {
            Some(id) => Ok(id),
            None => Err(ErrorView::IdNotFound),
        },
    }
}

/// Extracts the canonical identifier from the `Location` value a short
/// link answered with, if it answered with one at all.
pub fn resolve_location(loc: &Option<Vec<char>>) -> (r: Result<Vec<char>, Error>)
    ensures
        match r {
            Ok(id) => resolve_location_spec(view_loc(loc)) == Ok::<Seq<char>, ErrorView>(id@),
            Err(e) => resolve_location_spec(view_loc(loc)) == Err::<Seq<char>, ErrorView>(e@),
        },
{
    match loc {
        None => Err(Error::RedirectFailed),
        Some(l) => match canonical_id(l) {
            Some(id) => Ok(id),
            None => Err(Error::IdNotFound),
        },
    }
}

/// The view of an optional location text.
pub open spec fn view_loc(loc: &Option<Vec<char>>) -> Option<Seq<char>> {
    match loc {
        None => None,
        Some(l) => Some(l@),
    }
}

} // verus!
