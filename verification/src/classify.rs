//! Ordered classification of chat text into commands.
//!
//! The first matching rule wins: the one-token query pattern, an explicit
//! query prefix (whose malformed use is an error), the archive vocabulary,
//! the case-insensitive kpi vocabulary, the change-category pattern (whose
//! malformed use is an error), and last the shortcut form, a message that
//! ends in `+` or `-` and holds a recognizable item link.  Text matching
//! none of these is no command and stays silent.

use vstd::prelude::*;
use vstd::string::StrSliceExecFns;

use crate::command::{CmdView, Command, ErrorView, Error, MAX_TIMESTAMP, TWO_DAYS};
use crate::text::{
    ends_with, ends_with_str, lemma_skip_spaces, lemma_skip_word, lit_at, lower_spec, lower_text,
    no_space_from, no_space_from_exec, skip_spaces, skip_spaces_exec, skip_word, skip_word_exec,
    starts_with, starts_with_str, str_at, sub_text, text_eq_str,
};

verus! {

/// What classification decided for one message.
pub enum Classified {
    /// The text is unrelated chat; no reply is owed.
    NoMatch,
    /// A command, ready for the executor.
    Matched(Command),
    /// The shortcut form matched: `url` must be resolved to an identifier
    /// first; `add` tells whether the text ended in `+` (add) or `-`
    /// (delete).
    Resolve { url: Vec<char>, add: bool },
    /// An explicit command prefix was used with malformed parameters.
    Rejected(Error),
}

/// The mathematical value of a [`Classified`].
pub enum ClassifiedView {
    NoMatch,
    Matched(CmdView),
    Resolve { url: Seq<char>, add: bool },
    Rejected(ErrorView),
}

impl View for Classified {
    type V = ClassifiedView;

    open spec fn view(&self) -> ClassifiedView {
        match self {
            Classified::NoMatch => ClassifiedView::NoMatch,
            Classified::Matched(c) => ClassifiedView::Matched(c@),
            Classified::Resolve { url, add } => ClassifiedView::Resolve { url: url@, add: *add },
            Classified::Rejected(e) => ClassifiedView::Rejected(e@),
        }
    }
}

/// The length of the query keyword that opens `t`, if any: the word
/// keyword, or one of the two question marks.
pub open spec fn query_prefix_len(t: Seq<char>) -> Option<int> {
    if starts_with(t, "分类"@) {
        Some("分类"@.len() as int)
    } else if t.len() >= 1 && (t[0] == '?' || t[0] == '？') {
        Some(1int)
    } else {
        None
    }
}

/// The identifier of a well-formed query message: a query keyword, at
/// least one space, and a single word token reaching the end of the text.
pub open spec fn query_match(t: Seq<char>) -> Option<Seq<char>> {
    match query_prefix_len(t) {
        None => None,
        Some(k) => {
            let j = skip_spaces(t, k);
            if j > k && j < t.len() && skip_word(t, j) == t.len() {
                Some(t.subrange(j, t.len() as int))
            } else {
                None
            }
        },
    }
}

fn query_prefix_len_exec(t: &Vec<char>) -> (r: Option<usize>)
    ensures
        match r {
            Some(k) => query_prefix_len(t@) == Some(k as int) && k <= t@.len(),
            None => query_prefix_len(t@) is None,
        },
{
    if starts_with_str(t, "分类") {
        Some("分类".unicode_len())
    } else if t.len() >= 1 && (t[0] == '?' || t[0] == '？') {
        Some(1)
    } else {
        None
    }
}

fn query_match_exec(t: &Vec<char>) -> (r: Option<Vec<char>>)
    ensures
        match r {
            Some(id) => query_match(t@) == Some(id@),
            None => query_match(t@) is None,
        },
{
    match query_prefix_len_exec(t) {
        None => None,
        Some(k) => {
            let j = skip_spaces_exec(t, k);
            proof {
                lemma_skip_spaces(t@, k as int);
            }
            if j > k && j < t.len() {
                let w = skip_word_exec(t, j);
                proof {
                    lemma_skip_word(t@, j as int);
                }
                if w == t.len() {
                    Some(sub_text(t, j, t.len()))
                } else {
                    None
                }
            } else {
                None
            }
        },
    }
}

/// The `(identifier, raw category)` pair of a well-formed change message:
/// the change keyword, spaces, a word token, spaces, and a final token
/// without spaces reaching the end of the text.
pub open spec fn change_match(t: Seq<char>) -> Option<(Seq<char>, Seq<char>)> {
    if starts_with(t, "修改分类"@) {
        let k = "修改分类"@.len() as int;
        let j1 = skip_spaces(t, k);
        let j2 = skip_word(t, j1);
        let j3 = skip_spaces(t, j2);
        if j1 > k && j2 > j1 && j3 > j2 && j3 < t.len() && no_space_from(t, j3) {
            Some((t.subrange(j1, j2), t.subrange(j3, t.len() as int)))
        } else {
            None
        }
    } else {
        None
    }
}

fn change_match_exec(t: &Vec<char>) -> (r: Option<(Vec<char>, Vec<char>)>)
    ensures
        match r {
            Some(p) => change_match(t@) == Some((p.0@, p.1@)),
            None => change_match(t@) is None,
        },
{
    if !starts_with_str(t, "修改分类") {
        return None;
    }
    let k = "修改分类".unicode_len();
    assert(k <= t.len());
    let j1 = skip_spaces_exec(t, k);
    proof {
        lemma_skip_spaces(t@, k as int);
    }
    let j2 = skip_word_exec(t, j1);
    proof {
        lemma_skip_word(t@, j1 as int);
    }
    let j3 = skip_spaces_exec(t, j2);
    proof {
        lemma_skip_spaces(t@, j2 as int);
    }
    if j1 > k && j2 > j1 && j3 > j2 && j3 < t.len() && no_space_from_exec(t, j3) {
        Some((sub_text(t, j1, j2), sub_text(t, j3, t.len())))
    } else {
        None
    }
}

/// The first position at or after `i` that does not hold `+`, or the end
/// of the text.
pub open spec fn skip_plus(t: Seq<char>, i: int) -> int
    decreases t.len() - i,
{
    if i < 0 || i >= t.len() {
        i
    } else if t[i] == '+' {
        skip_plus(t, i + 1)
    } else {
        i
    }
}

pub proof fn lemma_skip_plus(t: Seq<char>, i: int)
    requires
        0 <= i <= t.len(),
    ensures
        i <= skip_plus(t, i) <= t.len(),
    decreases t.len() - i,
{
    if i < t.len() && t[i] == '+' {
        lemma_skip_plus(t, i + 1);
    }
}

fn skip_plus_exec(t: &Vec<char>, i: usize) -> (r: usize)
    requires
        i <= t@.len(),
    ensures
        r == skip_plus(t@, i as int),
        i <= r <= t@.len(),
{
    let mut j: usize = i;
    while j < t.len() && t[j] == '+'
        invariant
            i <= j <= t@.len(),
            skip_plus(t@, i as int) == skip_plus(t@, j as int),
        decreases t@.len() - j,
    {
        j = j + 1;
    }
    j
}

/// The command a raw category token stands for: the delete sentinels make
/// a delete, a leading run of `+` is stripped and makes an add, and any
/// other token is stored as the new category.  A token of sentinels alone
/// would leave an empty category, which no command may store: it is
/// malformed.
pub open spec fn category_command(id: Seq<char>, raw: Seq<char>) -> Option<CmdView> {
    if raw == "删除"@ || raw == "-"@ {
        Some(CmdView::Delete { id })
    } else if raw.len() >= 1 && raw[0] == '+' {
        let s = skip_plus(raw, 0);
        if s < raw.len() {
            Some(CmdView::Add { id, category: raw.subrange(s, raw.len() as int) })
        } else {
            None
        }
    } else {
        Some(CmdView::Change { id, category: raw })
    }
}

fn category_command_exec(id: Vec<char>, raw: Vec<char>) -> (r: Option<Command>)
    ensures
        match r {
            Some(c) => category_command(id@, raw@) == Some(c@),
            None => category_command(id@, raw@) is None,
        },
{
    if text_eq_str(&raw, "删除") || text_eq_str(&raw, "-") {
        Some(Command::Delete { id })
    } else if raw.len() >= 1 && raw[0] == '+' {
        let s = skip_plus_exec(&raw, 0);
        if s < raw.len() {
            let category = sub_text(&raw, s, raw.len());
            Some(Command::Add { id, category })
        } else {
            None
        }
    } else {
        Some(Command::Change { id, category: raw })
    }
}

/// How many days back an archive request reaches, by its fixed vocabulary;
/// any other text is no request.
pub open spec fn summary_days(t: Seq<char>) -> Option<int> {
    if t == "今日归档"@ || t == "今天归档"@ || t == "归档"@ {
        Some(0int)
    } else if t == "昨天归档"@ || t == "昨日归档"@ {
        Some(1int)
    } else if t == "前天归档"@ {
        Some(2int)
    } else {
        None
    }
}

fn summary_days_exec(t: &Vec<char>) -> (r: Option<u8>)
    ensures
        match r {
            Some(d) => summary_days(t@) == Some(d as int),
            None => summary_days(t@) is None,
        },
{
    if text_eq_str(t, "今日归档") || text_eq_str(t, "今天归档") || text_eq_str(t, "归档") {
        Some(0)
    } else if text_eq_str(t, "昨天归档") || text_eq_str(t, "昨日归档") {
        Some(1)
    } else if text_eq_str(t, "前天归档") {
        Some(2)
    } else {
        None
    }
}

/// How many days back a kpi request reaches, judged on the lower-cased
/// text, by its fixed vocabulary.
pub open spec fn kpi_days(l: Seq<char>) -> Option<int> {
    if l == "今日kpi"@ || l == "今天kpi"@ || l == "kpi"@ {
        Some(0int)
    } else if l == "昨天kpi"@ || l == "昨日kpi"@ {
        Some(1int)
    } else if l == "前天kpi"@ {
        Some(2int)
    } else {
        None
    }
}

fn kpi_days_exec(l: &Vec<char>) -> (r: Option<u8>)
    ensures
        match r {
            Some(d) => kpi_days(l@) == Some(d as int),
            None => kpi_days(l@) is None,
        },
{
    if text_eq_str(l, "今日kpi") || text_eq_str(l, "今天kpi") || text_eq_str(l, "kpi") {
        Some(0)
    } else if text_eq_str(l, "昨天kpi") || text_eq_str(l, "昨日kpi") {
        Some(1)
    } else if text_eq_str(l, "前天kpi") {
        Some(2)
    } else {
        None
    }
}

/// Whether no newline stands in `t` at the positions `[lo, hi)`; the
/// free-text part of the link pattern cannot cross a line break.
pub open spec fn no_newline_between(t: Seq<char>, lo: int, hi: int) -> bool {
    forall|m: int| lo <= m < hi ==> t[m] != '\n'
}

fn no_newline_between_exec(t: &Vec<char>, lo: usize, hi: usize) -> (r: bool)
    requires
        lo <= hi <= t@.len(),
    ensures
        r == no_newline_between(t@, lo as int, hi as int),
{
    let mut j: usize = lo;
    while j < hi
        invariant
            lo <= j <= hi <= t@.len(),
            forall|m: int| lo <= m < j ==> t@[m] != '\n',
        decreases hi - j,
    {
        if t[j] == '\n' {
            return false;
        }
        j = j + 1;
    }
    true
}

/// The end of a long-link tail starting at `q`: the literal `.bilibili`,
/// one character that is no newline, the literal `com/`, and a nonempty
/// word run; the position after the word run.
pub open spec fn bili_tail_end(t: Seq<char>, q: int) -> Option<int> {
    let a = ".bilibili"@.len() as int;
    let b = "com/"@.len() as int;
    if lit_at(t, q, ".bilibili"@) && q + a < t.len() && t[q + a] != '\n' && lit_at(
        t,
        q + a + 1,
        "com/"@,
    ) {
        let w = skip_word(t, q + a + 1 + b);
        if w > q + a + 1 + b {
            Some(w)
        } else {
            None
        }
    } else {
        None
    }
}

fn bili_tail_end_exec(t: &Vec<char>, q: usize) -> (r: Option<usize>)
    requires
        q <= t@.len(),
    ensures
        match r {
            Some(e) => bili_tail_end(t@, q as int) == Some(e as int) && q < e <= t@.len(),
            None => bili_tail_end(t@, q as int) is None,
        },
{
    let a = ".bilibili".unicode_len();
    let b = "com/".unicode_len();
    if !str_at(t, q, ".bilibili") {
        return None;
    }
    assert(q + a <= t.len());
    if q + a < t.len() && t[q + a] != '\n' && str_at(t, q + a + 1, "com/") {
        assert(q + a + 1 + b <= t.len());
        let w = skip_word_exec(t, q + a + 1 + b);
        proof {
            lemma_skip_word(t@, q + a + 1 + b);
        }
        if w > q + a + 1 + b {
            Some(w)
        } else {
            None
        }
    } else {
        None
    }
}

/// The largest start `q` at or below `hi` of a long-link tail, with only
/// non-newline characters, at least one, between `p8` and `q`: the greedy
/// choice of the link pattern's free-text part.
pub open spec fn best_bili(t: Seq<char>, p8: int, q: int) -> Option<int>
    decreases q - p8,
{
    if q <= p8 {
        None
    } else if no_newline_between(t, p8, q) && bili_tail_end(t, q) is Some {
        Some(q)
    } else {
        best_bili(t, p8, q - 1)
    }
}

/// The end of a long-link match whose literal part starts after position
/// `p8`, under the greedy choice.
pub open spec fn url_alt2_end(t: Seq<char>, p8: int) -> Option<int> {
    match best_bili(t, p8, t.len() as int) {
        Some(q) => bili_tail_end(t, q),
        None => None,
    }
}

fn url_alt2_end_exec(t: &Vec<char>, p8: usize) -> (r: Option<usize>)
    requires
        p8 <= t@.len(),
    ensures
        match r {
            Some(e) => url_alt2_end(t@, p8 as int) == Some(e as int) && e <= t@.len(),
            None => url_alt2_end(t@, p8 as int) is None,
        },
{
    let mut q: usize = t.len();
    while q > p8
        invariant
            p8 <= q <= t@.len(),
            best_bili(t@, p8 as int, t@.len() as int) == best_bili(t@, p8 as int, q as int),
        decreases q,
    {
        if no_newline_between_exec(t, p8, q) {
            let e = bili_tail_end_exec(t, q);
            if let Some(e) = e {
                return Some(e);
            }
        }
        q = q - 1;
    }
    None
}

/// The end of a short-link match starting at `p8`: the literal `b23.tv/`
/// and a nonempty word run.
pub open spec fn url_alt1_end(t: Seq<char>, p8: int) -> Option<int> {
    let m = "b23.tv/"@.len() as int;
    if lit_at(t, p8, "b23.tv/"@) {
        let w = skip_word(t, p8 + m);
        if w > p8 + m {
            Some(w)
        } else {
            None
        }
    } else {
        None
    }
}

fn url_alt1_end_exec(t: &Vec<char>, p8: usize) -> (r: Option<usize>)
    requires
        p8 <= t@.len(),
    ensures
        match r {
            Some(e) => url_alt1_end(t@, p8 as int) == Some(e as int) && e <= t@.len(),
            None => url_alt1_end(t@, p8 as int) is None,
        },
{
    let m = "b23.tv/".unicode_len();
    if str_at(t, p8, "b23.tv/") {
        assert(p8 + m <= t.len());
        let w = skip_word_exec(t, p8 + m);
        proof {
            lemma_skip_word(t@, p8 + m);
        }
        if w > p8 + m {
            Some(w)
        } else {
            None
        }
    } else {
        None
    }
}

/// The end of an item-link match starting at `p`: the scheme, then the
/// short-link host, preferred, or the greedy long-link form.
pub open spec fn url_match_at(t: Seq<char>, p: int) -> Option<int> {
    let h = "https://"@.len() as int;
    if lit_at(t, p, "https://"@) {
        if url_alt1_end(t, p + h) is Some {
            url_alt1_end(t, p + h)
        } else {
            url_alt2_end(t, p + h)
        }
    } else {
        None
    }
}

fn url_match_at_exec(t: &Vec<char>, p: usize) -> (r: Option<usize>)
    requires
        p <= t@.len(),
    ensures
        match r {
            Some(e) => url_match_at(t@, p as int) == Some(e as int) && p < e <= t@.len(),
            None => url_match_at(t@, p as int) is None,
        },
{
    let h = "https://".unicode_len();
    if str_at(t, p, "https://") {
        assert(p + h <= t.len());
        match url_alt1_end_exec(t, p + h) {
            Some(e) => {
                proof {
                    lemma_skip_word(t@, p + h + "b23.tv/"@.len());
                }
                Some(e)
            },
            None => {
                match url_alt2_end_exec(t, p + h) {
                    Some(e) => {
                        proof {
                            if let Some(q) = best_bili(t@, p + h, t@.len() as int) {
                                lemma_best_bili_bounds(t@, p + h, t@.len() as int);
                            }
                        }
                        Some(e)
                    },
                    None => None,
                }
            },
        }
    } else {
        None
    }
}

proof fn lemma_best_bili_bounds(t: Seq<char>, p8: int, q: int)
    requires
        0 <= p8,
    ensures
        best_bili(t, p8, q) is Some ==> p8 < best_bili(t, p8, q)->0,
    decreases q - p8,
{
    if q > p8 && !(no_newline_between(t, p8, q) && bili_tail_end(t, q) is Some) {
        lemma_best_bili_bounds(t, p8, q - 1);
    }
}

/// The leftmost item-link occurrence at or after position `p`.
pub open spec fn url_search(t: Seq<char>, p: int) -> Option<(int, int)>
    decreases t.len() - p,
{
    if p < 0 || p >= t.len() {
        None
    } else {
        match url_match_at(t, p) {
            Some(e) => Some((p, e)),
            None => url_search(t, p + 1),
        }
    }
}

/// The leftmost item-link occurrence in `t`: its start and end positions.
pub open spec fn url_match(t: Seq<char>) -> Option<(int, int)> {
    url_search(t, 0)
}

fn url_match_exec(t: &Vec<char>) -> (r: Option<(usize, usize)>)
    ensures
        match r {
            Some(p) => url_match(t@) == Some((p.0 as int, p.1 as int)) && p.0 < p.1 <= t@.len(),
            None => url_match(t@) is None,
        },
{
    let mut p: usize = 0;
    while p < t.len()
        invariant
            p <= t@.len(),
            url_search(t@, 0) == url_search(t@, p as int),
        decreases t@.len() - p,
    {
        match url_match_at_exec(t, p) {
            Some(e) => {
                return Some((p, e));
            },
            None => {
                p = p + 1;
            },
        }
    }
    None
}

/// The link of a shortcut message: for text that ends in `+` or `-`, the
/// leftmost recognizable item link in it, if there is one.
pub fn extract_shortcut_change_category_url(s: &Vec<char>) -> (r: Option<Vec<char>>)
    ensures
        match r {
            Some(u) => shortcut_sign(s@) is Some && url_match(s@) is Some && u@ == s@.subrange(
                (url_match(s@)->0).0,
                (url_match(s@)->0).1,
            ),
            None => shortcut_sign(s@) is None || url_match(s@) is None,
        },
{
    let last_plus = s.len() >= 1 && s[s.len() - 1] == '+';
    let last_minus = s.len() >= 1 && s[s.len() - 1] == '-';
    if !(last_plus || last_minus) {
        return None;
    }
    match url_match_exec(s) {
        Some(p) => Some(sub_text(s, p.0, p.1)),
        None => None,
    }
}

/// Whether the text asks to add (`+`) or to delete (`-`) by its final
/// character; any other ending is no shortcut.
pub open spec fn shortcut_sign(t: Seq<char>) -> Option<bool> {
    if t.len() >= 1 && t[t.len() - 1] == '+' {
        Some(true)
    } else if t.len() >= 1 && t[t.len() - 1] == '-' {
        Some(false)
    } else {
        None
    }
}

/// The classification of `t`, with `now` the current time in seconds since
/// the Unix epoch, applying the rules in their fixed order of precedence.
pub open spec fn classify_spec(t: Seq<char>, now: int) -> ClassifiedView {
    if query_match(t) is Some {
        ClassifiedView::Matched(CmdView::Query { id: query_match(t)->0 })
    } else if starts_with(t, "分类"@) || (t.len() >= 1 && t[0] == '?') {
        ClassifiedView::Rejected(ErrorView::QueryFormat)
    } else if ends_with(t, "归档"@) {
        match summary_days(t) {
            Some(d) => ClassifiedView::Matched(CmdView::Summary { date: now - d * 86400 }),
            None => ClassifiedView::NoMatch,
        }
    } else if ends_with(lower_spec(t), "kpi"@) {
        match kpi_days(lower_spec(t)) {
            Some(d) => ClassifiedView::Matched(CmdView::Kpi { date: now - d * 86400 }),
            None => ClassifiedView::NoMatch,
        }
    } else if starts_with(t, "修改分类"@) {
        match change_match(t) {
            Some(p) => match category_command(p.0, p.1) {
                Some(c) => ClassifiedView::Matched(c),
                None => ClassifiedView::Rejected(ErrorView::ChangeFormat),
            },
            None => ClassifiedView::Rejected(ErrorView::ChangeFormat),
        }
    } else {
        match shortcut_sign(t) {
            None => ClassifiedView::NoMatch,
            Some(add) => match url_match(t) {
                None => ClassifiedView::NoMatch,
                Some((p, e)) => ClassifiedView::Resolve { url: t.subrange(p, e), add },
            },
        }
    }
}

/// Commands out of classification are well formed.
pub open spec fn classified_wf(c: ClassifiedView) -> bool {
    match c {
        ClassifiedView::Matched(cmd) => cmd.wf(),
        _ => true,
    }
}

/// Classifies one pre-trimmed chat message, `now` being the current time
/// in seconds since the Unix epoch.
pub fn classify(text: &Vec<char>, now: i64) -> (r: Classified)
    requires
        TWO_DAYS <= now <= MAX_TIMESTAMP,
    ensures
        r@ == classify_spec(text@, now as int),
        classified_wf(r@),
{
    if let Some(id) = query_match_exec(text) {
        return Classified::Matched(Command::Query { id });
    }
    if starts_with_str(text, "分类") || (text.len() >= 1 && text[0] == '?') {
        return Classified::Rejected(Error::QueryFormat);
    }
    if ends_with_str(text, "归档") {
        return match summary_days_exec(text) {
            Some(d) => Classified::Matched(
                Command::Summary { date: now - (d as i64) * 86400 },
            ),
            None => Classified::NoMatch,
        };
    }
    let lowered = lower_text(text);
    if ends_with_str(&lowered, "kpi") {
        return match kpi_days_exec(&lowered) {
            Some(d) => Classified::Matched(Command::Kpi { date: now - (d as i64) * 86400 }),
            None => Classified::NoMatch,
        };
    }
    if starts_with_str(text, "修改分类") {
        return match change_match_exec(text) {
            Some(p) => match category_command_exec(p.0, p.1) {
                Some(c) => Classified::Matched(c),
                None => Classified::Rejected(Error::ChangeFormat),
            },
            None => Classified::Rejected(Error::ChangeFormat),
        };
    }
    let sign: Option<bool> = if text.len() >= 1 && text[text.len() - 1] == '+' {
        Some(true)
    } else if text.len() >= 1 && text[text.len() - 1] == '-' {
        Some(false)
    } else {
        None
    };
    match sign {
        None => Classified::NoMatch,
        Some(add) => match url_match_exec(text) {
            None => Classified::NoMatch,
            Some(p) => Classified::Resolve { url: sub_text(text, p.0, p.1), add },
        },
    }
}

} // verus!
