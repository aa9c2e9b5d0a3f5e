//! Laws of the classifier and the resolver, stated and proved once over
//! all inputs.

use vstd::prelude::*;

use crate::classify::{
    category_command, change_match, classify_spec, lemma_skip_plus, query_match, query_prefix_len,
    shortcut_sign, url_match, ClassifiedView,
};
use crate::command::{CmdView, ErrorView};
use crate::resolver::{
    canonical_match, lemma_canonical_id_digits, resolve_location_spec, resolve_step_spec,
    ResolveStepView,
};
use crate::text::{
    ends_with, is_digit_char, lemma_skip_spaces, lemma_skip_word, lower_spec, skip_spaces,
    starts_with,
};

verus! {

/// Text that uses none of the command forms — no query pattern or query
/// prefix, no archive or kpi suffix, no change prefix, and no shortcut
/// ending with a recognizable link — classifies to no command and no
/// error: unrelated chat stays silent.
pub proof fn lemma_unmatched_text_is_silent(t: Seq<char>, now: int)
    requires
        query_match(t) is None,
        !starts_with(t, "分类"@),
        !(t.len() >= 1 && t[0] == '?'),
        !ends_with(t, "归档"@),
        !ends_with(lower_spec(t), "kpi"@),
        !starts_with(t, "修改分类"@),
        shortcut_sign(t) is None || url_match(t) is None,
    ensures
        classify_spec(t, now) == ClassifiedView::NoMatch,
{
}

/// Whether a command's identifier and stored category, where it carries
/// them, are nonempty.
pub open spec fn tokens_nonempty(c: CmdView) -> bool {
    match c {
        CmdView::Add { id, category } => id.len() >= 1 && category.len() >= 1,
        CmdView::Delete { id } => id.len() >= 1,
        CmdView::Change { id, category } => id.len() >= 1 && category.len() >= 1,
        CmdView::Query { id } => id.len() >= 1,
        CmdView::Summary { .. } => true,
        CmdView::Kpi { .. } => true,
    }
}

/// Classification never builds a command with an empty identifier or an
/// empty stored category, and a shortcut never hands the resolver an
/// empty link.
pub proof fn lemma_classified_tokens_nonempty(t: Seq<char>, now: int)
    ensures
        match classify_spec(t, now) {
            ClassifiedView::Matched(c) => tokens_nonempty(c),
            ClassifiedView::Resolve { url, .. } => url.len() >= 1,
            _ => true,
        },
{
    if query_match(t) is Some {
        let k = query_prefix_len(t)->0;
        assert(0 <= k <= t.len());
        lemma_skip_spaces(t, k);
        assert(query_match(t)->0.len() >= 1);
    } else if starts_with(t, "分类"@) || (t.len() >= 1 && t[0] == '?') {
    } else if ends_with(t, "归档"@) {
    } else if ends_with(lower_spec(t), "kpi"@) {
    } else if starts_with(t, "修改分类"@) {
        if change_match(t) is Some {
            let k = "修改分类"@.len() as int;
            lemma_skip_spaces(t, k);
            let j1 = skip_spaces(t, k);
            lemma_skip_word(t, j1);
            let (id, raw) = change_match(t)->0;
            assert(id.len() >= 1);
            assert(raw.len() >= 1);
            lemma_skip_plus(raw, 0);
            match category_command(id, raw) {
                Some(c) => {
                    assert(tokens_nonempty(c));
                },
                None => {},
            }
        }
    } else {
        match shortcut_sign(t) {
            Some(add) => match url_match(t) {
                Some((p, e)) => {
                    lemma_url_match_spans(t, 0);
                    assert(t.subrange(p, e).len() >= 1);
                },
                None => {},
            },
            None => {},
        }
    }
}

/// A link occurrence has a positive width.
proof fn lemma_url_match_spans(t: Seq<char>, p: int)
    requires
        crate::classify::url_search(t, p) is Some,
    ensures
        ({
            let (a, e) = crate::classify::url_search(t, p)->0;
            0 <= a && a < e <= t.len()
        }),
    decreases t.len() - p,
{
    if 0 <= p < t.len() {
        if crate::classify::url_match_at(t, p) is Some {
            lemma_url_match_at_spans(t, p);
        } else {
            lemma_url_match_spans(t, p + 1);
        }
    }
}

/// A link match starting at `p` ends after `p` and inside the text.
proof fn lemma_url_match_at_spans(t: Seq<char>, p: int)
    requires
        0 <= p,
        crate::classify::url_match_at(t, p) is Some,
    ensures
        p < crate::classify::url_match_at(t, p)->0 <= t.len(),
{
    let h = "https://"@.len() as int;
    if crate::classify::url_alt1_end(t, p + h) is Some {
        crate::text::lemma_skip_word(t, p + h + "b23.tv/"@.len());
    } else {
        lemma_best_bili_tail(t, p + h, t.len() as int);
    }
}

/// Where the greedy search finds a long-link tail, its end lies after the
/// search's start and inside the text.
proof fn lemma_best_bili_tail(t: Seq<char>, p8: int, q: int)
    requires
        0 <= p8,
        crate::classify::url_alt2_end(t, p8) is Some,
    ensures
        p8 < crate::classify::url_alt2_end(t, p8)->0 <= t.len(),
{
    lemma_best_bili_some(t, p8, t.len() as int);
}

/// The tail the greedy search settles on is a well-bounded match.
proof fn lemma_best_bili_some(t: Seq<char>, p8: int, q: int)
    requires
        0 <= p8,
        crate::classify::best_bili(t, p8, q) is Some,
    ensures
        ({
            let s = crate::classify::best_bili(t, p8, q)->0;
            p8 < s && crate::classify::bili_tail_end(t, s) is Some && (p8
                < crate::classify::bili_tail_end(t, s)->0 <= t.len())
        }),
    decreases q - p8,
{
    if q > p8 {
        if crate::classify::no_newline_between(t, p8, q) && crate::classify::bili_tail_end(t, q)
            is Some {
            let a = ".bilibili"@.len() as int;
            let b = "com/"@.len() as int;
            crate::text::lemma_skip_word(t, q + a + 1 + b);
        } else {
            lemma_best_bili_some(t, p8, q - 1);
        }
    }
}

/// Resolving a canonical-form link never asks for a fetch: the identifier
/// comes from the pattern alone, without a network call.
pub proof fn lemma_canonical_needs_no_fetch(u: Seq<char>)
    requires
        canonical_match(u) is Some,
    ensures
        resolve_step_spec(u) == Ok::<ResolveStepView, ErrorView>(
            ResolveStepView::Resolved(canonical_match(u)->0),
        ),
{
}

/// A short link answered without a `Location` header fails as a redirect
/// failure; it never passes as an empty identifier.
pub proof fn lemma_missing_location_fails()
    ensures
        resolve_location_spec(None) == Err::<Seq<char>, ErrorView>(ErrorView::RedirectFailed),
{
}

/// A successful resolution yields a nonempty, all-digit identifier.
pub proof fn lemma_resolved_id_nonempty(loc: Seq<char>)
    requires
        resolve_location_spec(Some(loc)) is Ok,
    ensures
        resolve_location_spec(Some(loc))->Ok_0.len() >= 1,
        forall|m: int|
            0 <= m < resolve_location_spec(Some(loc))->Ok_0.len() ==> is_digit_char(
                #[trigger] resolve_location_spec(Some(loc))->Ok_0[m],
            ),
{
    lemma_canonical_id_digits(loc, 0);
}

/// The identifier is the same whether a canonical link is resolved
/// directly or reached as the redirect target of a short link.
pub proof fn lemma_short_and_canonical_agree(l: Seq<char>)
    requires
        canonical_match(l) is Some,
    ensures
        resolve_location_spec(Some(l)) == Ok::<Seq<char>, ErrorView>(canonical_match(l)->0),
        resolve_step_spec(l) == Ok::<ResolveStepView, ErrorView>(
            ResolveStepView::Resolved(canonical_match(l)->0),
        ),
{
}

} // verus!
