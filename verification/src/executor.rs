//! Turning commands into HTTP request plans and responses into reply
//! text.
//!
//! The executor performs no traffic itself: [`plan_request`] says which
//! call to make and [`interpret_response`] says what to reply given the
//! status and body that came back, including the service's business
//! errors, which are surfaced as plain reply text.

use vstd::prelude::*;

use crate::clock::{format_rfc3339, rfc3339_utc};
use crate::command::{CmdView, Command, Error, ErrorView};
use crate::decode::{
    category_of, decode_category, decode_envelope, decode_kpi, decode_summary, envelope_of,
    kpi_rows_of, kpi_rows_view, rows_view, summary_rows_of, texts_view, KpiRow, SummaryRow,
};
use crate::text::{push_str, push_text, str_to_chars, text_eq_str};

verus! {

/// A hexadecimal digit in lower case, as the JSON escape of a control
/// character uses it.
pub open spec fn hex_digit(n: int) -> char
    recommends
        0 <= n < 16,
{
    if n < 10 {
        ((n + 48) as u32) as char
    } else {
        ((n + 87) as u32) as char
    }
}

fn hex_digit_exec(n: u32) -> (r: char)
    requires
        n < 16,
    ensures
        r == hex_digit(n as int),
{
    if n < 10 {
        ((n as u8) + 48) as char
    } else {
        ((n as u8) + 87) as char
    }
}

/// The JSON string escape of one character: quotes, backslashes and
/// control characters are escaped exactly as the service's JSON encoder
/// writes them, everything else stands for itself.
pub open spec fn json_escape_char(c: char) -> Seq<char> {
    if c == '"' {
        seq!['\\', '"']
    } else if c == '\\' {
        seq!['\\', '\\']
    } else if c == '\u{8}' {
        seq!['\\', 'b']
    } else if c == '\t' {
        seq!['\\', 't']
    } else if c == '\n' {
        seq!['\\', 'n']
    } else if c == '\u{c}' {
        seq!['\\', 'f']
    } else if c == '\r' {
        seq!['\\', 'r']
    } else if (c as u32) < 32 {
        seq!['\\', 'u', '0', '0', hex_digit(c as u32 as int / 16), hex_digit(c as u32 as int % 16)]
    } else {
        seq![c]
    }
}

/// The JSON string escape of the characters of `s` at and after `i`.
pub open spec fn json_escape_from(s: Seq<char>, i: int) -> Seq<char>
    decreases s.len() - i,
{
    if i < 0 || i >= s.len() {
        Seq::empty()
    } else {
        json_escape_char(s[i]) + json_escape_from(s, i + 1)
    }
}

/// The JSON string escape of a whole text.
pub open spec fn json_escape(s: Seq<char>) -> Seq<char> {
    json_escape_from(s, 0)
}

fn push_escape_char(out: &mut Vec<char>, c: char)
    ensures
        final(out)@ == old(out)@ + json_escape_char(c),
{
    if c == '"' {
        out.push('\\');
        out.push('"');
        assert(out@ =~= old(out)@ + json_escape_char(c));
    } else if c == '\\' {
        out.push('\\');
        out.push('\\');
        assert(out@ =~= old(out)@ + json_escape_char(c));
    } else if c == '\u{8}' {
        out.push('\\');
        out.push('b');
        assert(out@ =~= old(out)@ + json_escape_char(c));
    } else if c == '\t' {
        out.push('\\');
        out.push('t');
        assert(out@ =~= old(out)@ + json_escape_char(c));
    } else if c == '\n' {
        out.push('\\');
        out.push('n');
        assert(out@ =~= old(out)@ + json_escape_char(c));
    } else if c == '\u{c}' {
        out.push('\\');
        out.push('f');
        assert(out@ =~= old(out)@ + json_escape_char(c));
    } else if c == '\r' {
        out.push('\\');
        out.push('r');
        assert(out@ =~= old(out)@ + json_escape_char(c));
    } else {
        let u: u32 = c as u32;
        if u < 32 {
            out.push('\\');
            out.push('u');
            out.push('0');
            out.push('0');
            out.push(hex_digit_exec(u / 16));
            out.push(hex_digit_exec(u % 16));
            assert(out@ =~= old(out)@ + json_escape_char(c));
        } else {
            out.push(c);
            assert(out@ =~= old(out)@ + json_escape_char(c));
        }
    }
}

fn push_escape_from(out: &mut Vec<char>, s: &Vec<char>, i: usize)
    requires
        i <= s@.len(),
    ensures
        final(out)@ == old(out)@ + json_escape_from(s@, i as int),
    decreases s@.len() - i,
{
    if i < s.len() {
        push_escape_char(out, s[i]);
        push_escape_from(out, s, i + 1);
        assert(out@ =~= old(out)@ + json_escape_from(s@, i as int));
    } else {
        assert(out@ =~= old(out)@ + json_escape_from(s@, i as int));
    }
}

/// The JSON request body that attaches a category to an item.
pub open spec fn category_body(cat: Seq<char>) -> Seq<char> {
    "{\"category\":\""@ + json_escape(cat) + "\"}"@
}

/// Builds the JSON request body that attaches the category `cat`.
pub fn build_category_body(cat: &Vec<char>) -> (r: Vec<char>)
    ensures
        r@ == category_body(cat@),
{
    let mut r: Vec<char> = Vec::new();
    push_str(&mut r, "{\"category\":\"");
    push_escape_from(&mut r, cat, 0);
    push_str(&mut r, "\"}");
    proof {
        assert(r@ =~= category_body(cat@));
    }
    r
}

/// The HTTP method of a request plan.
#[derive(Clone, Copy, Debug, PartialEq, Eq, Structural)]
pub enum Method {
    Get,
    Post,
    Patch,
    Delete,
}

/// One HTTP call the caller is to make: method, URL, and the JSON body
/// where the call carries one.
pub struct RequestPlan {
    pub method: Method,
    pub url: Vec<char>,
    pub body: Option<Vec<char>>,
}

/// The mathematical value of a [`RequestPlan`].
pub struct PlanView {
    pub method: Method,
    pub url: Seq<char>,
    pub body: Option<Seq<char>>,
}

impl View for RequestPlan {
    type V = PlanView;

    open spec fn view(&self) -> PlanView {
        PlanView {
            method: self.method,
            url: self.url@,
            body: match &self.body {
                Some(b) => Some(b@),
                None => None,
            },
        }
    }
}

/// The URL of one item's category resource.
pub open spec fn item_url(base: Seq<char>, id: Seq<char>) -> Seq<char> {
    base + "/items/"@ + id + "/category"@
}

/// The URL of the summary listing for an instant.
pub open spec fn summary_url(base: Seq<char>, date: int) -> Seq<char> {
    base + "/summary?t="@ + rfc3339_utc(date)
}

/// The URL of the kpi listing for an instant.
pub open spec fn kpi_url(base: Seq<char>, date: int) -> Seq<char> {
    base + "/kpi?t="@ + rfc3339_utc(date)
}

/// The call each command makes: mutations address the item's category
/// resource, the listings address their report under the date rendered as
/// RFC 3339.
pub open spec fn plan_spec(c: CmdView, base: Seq<char>) -> PlanView {
    match c {
        CmdView::Add { id, category } => PlanView {
            method: Method::Post,
            url: item_url(base, id),
            body: Some(category_body(category)),
        },
        CmdView::Delete { id } => PlanView {
            method: Method::Delete,
            url: item_url(base, id),
            body: None,
        },
        CmdView::Change { id, category } => PlanView {
            method: Method::Patch,
            url: item_url(base, id),
            body: Some(category_body(category)),
        },
        CmdView::Query { id } => PlanView { method: Method::Get, url: item_url(base, id), body: None },
        CmdView::Summary { date } => PlanView {
            method: Method::Get,
            url: summary_url(base, date),
            body: None,
        },
        CmdView::Kpi { date } => PlanView { method: Method::Get, url: kpi_url(base, date), body: None },
    }
}

fn build_item_url(base: &Vec<char>, id: &Vec<char>) -> (r: Vec<char>)
    ensures
        r@ == item_url(base@, id@),
{
    let mut r: Vec<char> = Vec::new();
    push_text(&mut r, base);
    push_str(&mut r, "/items/");
    push_text(&mut r, id);
    push_str(&mut r, "/category");
    proof {
        assert(r@ =~= item_url(base@, id@));
    }
    r
}

/// The one HTTP call that executes `cmd` against the service at `base`.
pub fn plan_request(cmd: &Command, base: &Vec<char>) -> (p: RequestPlan)
    requires
        cmd@.wf(),
    ensures
        p@ == plan_spec(cmd@, base@),
{
    match cmd {
        Command::Add { id, category } => RequestPlan {
            method: Method::Post,
            url: build_item_url(base, id),
            body: Some(build_category_body(category)),
        },
        Command::Delete { id } => RequestPlan {
            method: Method::Delete,
            url: build_item_url(base, id),
            body: None,
        },
        Command::Change { id, category } => RequestPlan {
            method: Method::Patch,
            url: build_item_url(base, id),
            body: Some(build_category_body(category)),
        },
        Command::Query { id } => RequestPlan {
            method: Method::Get,
            url: build_item_url(base, id),
            body: None,
        },
        Command::Summary { date } => {
            let mut url: Vec<char> = Vec::new();
            push_text(&mut url, base);
            push_str(&mut url, "/summary?t=");
            let t = format_rfc3339(*date);
            push_text(&mut url, &t);
            proof {
                assert(url@ =~= summary_url(base@, *date as int));
            }
            RequestPlan { method: Method::Get, url, body: None }
        },
        Command::Kpi { date } => {
            let mut url: Vec<char> = Vec::new();
            push_text(&mut url, base);
            push_str(&mut url, "/kpi?t=");
            let t = format_rfc3339(*date);
            push_text(&mut url, &t);
            proof {
                assert(url@ =~= kpi_url(base@, *date as int));
            }
            RequestPlan { method: Method::Get, url, body: None }
        },
    }
}

/// The decimal digit `n`, for `n` below ten.
pub open spec fn dec_digit(n: int) -> char
    recommends
        0 <= n < 10,
{
    ((n + 48) as u32) as char
}

/// The decimal rendering of a non-negative number.
pub open spec fn dec_str(n: int) -> Seq<char>
    recommends
        n >= 0,
    decreases n,
{
    if n < 10 {
        seq![dec_digit(n)]
    } else {
        dec_str(n / 10) + seq![dec_digit(n % 10)]
    }
}

fn push_u32_dec(out: &mut Vec<char>, n: u32)
    ensures
        final(out)@ == old(out)@ + dec_str(n as int),
    decreases n,
{
    if n >= 10 {
        push_u32_dec(out, n / 10);
    }
    let d: u8 = (n % 10) as u8 + 48;
    out.push(d as char);
    proof {
        assert(out@ =~= old(out)@ + dec_str(n as int));
    }
}

/// The identifiers `ids[from..to]` joined with double spaces.
pub open spec fn join_ids(ids: Seq<Seq<char>>, from: int, to: int) -> Seq<char>
    decreases to - from,
{
    if from < 0 || to > ids.len() || from >= to {
        Seq::empty()
    } else if from + 1 == to {
        ids[from]
    } else {
        ids[from] + "  "@ + join_ids(ids, from + 1, to)
    }
}

/// The lines of a non-feed category from position `from` on: four
/// identifiers per line, double-space separated.
pub open spec fn chunk_lines(ids: Seq<Seq<char>>, from: int) -> Seq<char>
    decreases ids.len() - from,
{
    if from < 0 || from >= ids.len() {
        Seq::empty()
    } else {
        let to = if from + 4 <= ids.len() {
            from + 4
        } else {
            ids.len() as int
        };
        join_ids(ids, from, to) + "\n"@ + chunk_lines(ids, to)
    }
}

/// The lines of the feed category from position `from` on: one
/// identifier per line.
pub open spec fn feed_lines(ids: Seq<Seq<char>>, from: int) -> Seq<char>
    decreases ids.len() - from,
{
    if from < 0 || from >= ids.len() {
        Seq::empty()
    } else {
        ids[from] + "\n"@ + feed_lines(ids, from + 1)
    }
}

/// One category block: a header line, then the identifiers, one per line
/// for the feed category, four per line for every other.
pub open spec fn summary_block(cat: Seq<char>, ids: Seq<Seq<char>>) -> Seq<char> {
    "----- "@ + cat + " -----\n"@ + if cat == "动态"@ {
        feed_lines(ids, 0)
    } else {
        chunk_lines(ids, 0)
    }
}

/// The blocks of the rows from position `from` on.
pub open spec fn summary_text_from(rows: Seq<(Seq<char>, Seq<Seq<char>>)>, from: int) -> Seq<char>
    decreases rows.len() - from,
{
    if from < 0 || from >= rows.len() {
        Seq::empty()
    } else {
        summary_block(rows[from].0, rows[from].1) + summary_text_from(rows, from + 1)
    }
}

/// The reply text of a summary listing.
pub open spec fn format_summary_spec(rows: Seq<(Seq<char>, Seq<Seq<char>>)>) -> Seq<char> {
    summary_text_from(rows, 0)
}

fn push_join_ids(out: &mut Vec<char>, ids: &Vec<Vec<char>>, from: usize, to: usize)
    requires
        from < to <= ids@.len(),
    ensures
        final(out)@ == old(out)@ + join_ids(texts_view(ids@), from as int, to as int),
    decreases to - from,
{
    push_text(out, &ids[from]);
    if from + 1 < to {
        push_str(out, "  ");
        push_join_ids(out, ids, from + 1, to);
    }
    proof {
        assert(out@ =~= old(out)@ + join_ids(texts_view(ids@), from as int, to as int));
    }
}

fn push_chunk_lines(out: &mut Vec<char>, ids: &Vec<Vec<char>>, from: usize)
    requires
        from <= ids@.len(),
    ensures
        final(out)@ == old(out)@ + chunk_lines(texts_view(ids@), from as int),
    decreases ids@.len() - from,
{
    if from < ids.len() {
        let to: usize = if ids.len() - from >= 4 {
            from + 4
        } else {
            ids.len()
        };
        push_join_ids(out, ids, from, to);
        push_str(out, "\n");
        push_chunk_lines(out, ids, to);
        proof {
            assert(out@ =~= old(out)@ + chunk_lines(texts_view(ids@), from as int));
        }
    } else {
        proof {
            assert(out@ =~= old(out)@ + chunk_lines(texts_view(ids@), from as int));
        }
    }
}

fn push_feed_lines(out: &mut Vec<char>, ids: &Vec<Vec<char>>, from: usize)
    requires
        from <= ids@.len(),
    ensures
        final(out)@ == old(out)@ + feed_lines(texts_view(ids@), from as int),
    decreases ids@.len() - from,
{
    if from < ids.len() {
        push_text(out, &ids[from]);
        push_str(out, "\n");
        push_feed_lines(out, ids, from + 1);
    }
    proof {
        assert(out@ =~= old(out)@ + feed_lines(texts_view(ids@), from as int));
    }
}

fn push_summary_from(out: &mut Vec<char>, rows: &Vec<SummaryRow>, from: usize)
    requires
        from <= rows@.len(),
    ensures
        final(out)@ == old(out)@ + summary_text_from(rows_view(rows@), from as int),
    decreases rows@.len() - from,
{
    if from < rows.len() {
        let row = &rows[from];
        push_str(out, "----- ");
        push_text(out, &row.category);
        push_str(out, " -----\n");
        if text_eq_str(&row.category, "动态") {
            push_feed_lines(out, &row.ids, 0);
        } else {
            push_chunk_lines(out, &row.ids, 0);
        }
        push_summary_from(out, rows, from + 1);
        proof {
            assert(rows_view(rows@)[from as int].0 == rows@[from as int].category@);
            assert(rows_view(rows@)[from as int].1 == texts_view(rows@[from as int].ids@));
            assert(out@ =~= old(out)@ + summary_text_from(rows_view(rows@), from as int));
        }
    } else {
        proof {
            assert(out@ =~= old(out)@ + summary_text_from(rows_view(rows@), from as int));
        }
    }
}

/// Renders a summary listing: each category under its header line, the
/// feed category one identifier per line, every other four per line.
pub fn format_summary(rows: &Vec<SummaryRow>) -> (r: Vec<char>)
    ensures
        r@ == format_summary_spec(rows_view(rows@)),
{
    let mut r: Vec<char> = Vec::new();
    push_summary_from(&mut r, rows, 0);
    proof {
        assert(r@ =~= format_summary_spec(rows_view(rows@)));
    }
    r
}

/// One kpi line: the contributor's name and tally.
pub open spec fn kpi_line(name: Seq<char>, times: u32) -> Seq<char> {
    "【"@ + name + "】筛选了【"@ + dec_str(times as int) + "】个\n"@
}

/// The kpi lines of the rows from position `from` on.
pub open spec fn kpi_text_from(rows: Seq<(Seq<char>, u32)>, from: int) -> Seq<char>
    decreases rows.len() - from,
{
    if from < 0 || from >= rows.len() {
        Seq::empty()
    } else {
        kpi_line(rows[from].0, rows[from].1) + kpi_text_from(rows, from + 1)
    }
}

/// The reply text of a kpi listing.
pub open spec fn format_kpi_spec(rows: Seq<(Seq<char>, u32)>) -> Seq<char> {
    kpi_text_from(rows, 0)
}

fn push_kpi_from(out: &mut Vec<char>, rows: &Vec<KpiRow>, from: usize)
    requires
        from <= rows@.len(),
    ensures
        final(out)@ == old(out)@ + kpi_text_from(kpi_rows_view(rows@), from as int),
    decreases rows@.len() - from,
{
    if from < rows.len() {
        let row = &rows[from];
        push_str(out, "【");
        push_text(out, &row.name);
        push_str(out, "】筛选了【");
        push_u32_dec(out, row.times);
        push_str(out, "】个\n");
        push_kpi_from(out, rows, from + 1);
        proof {
            assert(out@ =~= old(out)@ + kpi_text_from(kpi_rows_view(rows@), from as int));
        }
    } else {
        proof {
            assert(out@ =~= old(out)@ + kpi_text_from(kpi_rows_view(rows@), from as int));
        }
    }
}

/// Renders a kpi listing, one line per contributor.
pub fn format_kpi(rows: &Vec<KpiRow>) -> (r: Vec<char>)
    ensures
        r@ == format_kpi_spec(kpi_rows_view(rows@)),
{
    let mut r: Vec<char> = Vec::new();
    push_kpi_from(&mut r, rows, 0);
    proof {
        assert(r@ =~= format_kpi_spec(kpi_rows_view(rows@)));
    }
    r
}

/// The success message of an add.
pub open spec fn add_text(id: Seq<char>, cat: Seq<char>) -> Seq<char> {
    "新建 id "@ + id + " 为 "@ + cat + " 成功"@
}

/// The success message of a delete.
pub open spec fn delete_text(id: Seq<char>) -> Seq<char> {
    "删除 id "@ + id + " 分类成功"@
}

/// The success message of a change.
pub open spec fn change_text(id: Seq<char>, cat: Seq<char>) -> Seq<char> {
    "修改 id "@ + id + " 为 "@ + cat + " 成功"@
}

/// The view of a reply result.
pub open spec fn reply_view(r: Result<Vec<char>, Error>) -> Result<Seq<char>, ErrorView> {
    match r {
        Ok(t) => Ok(t@),
        Err(e) => Err(e@),
    }
}

/// What a non-success status must turn into: the body's own `error` text
/// where the envelope carries one, else the whole envelope rendered back
/// to text — both as plain reply text — and a transport error only where
/// the body is no JSON document at all.
pub open spec fn envelope_reply_rel(body: Seq<char>, r: Result<Seq<char>, ErrorView>) -> bool {
    match envelope_of(body) {
        Some(env) => r == Ok::<Seq<char>, ErrorView>(
            match env.0 {
                Some(e) => e,
                None => env.1,
            },
        ),
        None => r matches Err(ErrorView::Transport(_)),
    }
}

/// Whether a status reports success.
pub open spec fn is_success(status: u16) -> bool {
    200 <= status <= 299
}

/// What the reply to `(status, body)` must be after command `c`: on a
/// success status the command's message, built from the decoded body for
/// the listings; on any other status the envelope rule.  A body that
/// fails its decode is a transport error.
pub open spec fn interpret_rel(
    c: CmdView,
    status: u16,
    body: Seq<char>,
    r: Result<Seq<char>, ErrorView>,
) -> bool {
    if !is_success(status) {
        envelope_reply_rel(body, r)
    } else {
        match c {
            CmdView::Add { id, category } => r == Ok::<Seq<char>, ErrorView>(add_text(id, category)),
            CmdView::Delete { id } => r == Ok::<Seq<char>, ErrorView>(delete_text(id)),
            CmdView::Change { id, category } => r == Ok::<Seq<char>, ErrorView>(
                change_text(id, category),
            ),
            CmdView::Query { .. } => match category_of(body) {
                Some(cat) => match cat {
                    Some(c) => r == Ok::<Seq<char>, ErrorView>(c),
                    None => r == Ok::<Seq<char>, ErrorView>("未分类"@),
                },
                None => r matches Err(ErrorView::Transport(_)),
            },
            CmdView::Summary { .. } => match summary_rows_of(body) {
                Some(rows) => r == Ok::<Seq<char>, ErrorView>(format_summary_spec(rows)),
                None => r matches Err(ErrorView::Transport(_)),
            },
            CmdView::Kpi { .. } => match kpi_rows_of(body) {
                Some(rows) => r == Ok::<Seq<char>, ErrorView>(format_kpi_spec(rows)),
                None => r matches Err(ErrorView::Transport(_)),
            },
        }
    }
}

/// Turns the status and body the service answered with into the reply
/// text for command `cmd`, surfacing a remote-reported business error as
/// the reply itself.
pub fn interpret_response(cmd: &Command, status: u16, body: &Vec<char>) -> (r: Result<
    Vec<char>,
    Error,
>)
    ensures
        interpret_rel(cmd@, status, body@, reply_view(r)),
{
    if status < 200 || status > 299 {
        return match decode_envelope(body) {
            Ok(env) => match env.error_text {
                Some(e) => Ok(e),
                None => Ok(env.canonical),
            },
            Err(t) => Err(Error::Transport(t)),
        };
    }
    match cmd {
        Command::Add { id, category } => {
            let mut r: Vec<char> = Vec::new();
            push_str(&mut r, "新建 id ");
            push_text(&mut r, id);
            push_str(&mut r, " 为 ");
            push_text(&mut r, category);
            push_str(&mut r, " 成功");
            proof {
                assert(r@ =~= add_text(id@, category@));
            }
            Ok(r)
        },
        Command::Delete { id } => {
            let mut r: Vec<char> = Vec::new();
            push_str(&mut r, "删除 id ");
            push_text(&mut r, id);
            push_str(&mut r, " 分类成功");
            proof {
                assert(r@ =~= delete_text(id@));
            }
            Ok(r)
        },
        Command::Change { id, category } => {
            let mut r: Vec<char> = Vec::new();
            push_str(&mut r, "修改 id ");
            push_text(&mut r, id);
            push_str(&mut r, " 为 ");
            push_text(&mut r, category);
            push_str(&mut r, " 成功");
            proof {
                assert(r@ =~= change_text(id@, category@));
            }
            Ok(r)
        },
        Command::Query { .. } => match decode_category(body) {
            Ok(cat) => match cat {
                Some(c) => Ok(c),
                None => Ok(str_to_chars("未分类")),
            },
            Err(t) => Err(Error::Transport(t)),
        },
        Command::Summary { .. } => match decode_summary(body) {
            Ok(rows) => Ok(format_summary(&rows)),
            Err(t) => Err(Error::Transport(t)),
        },
        Command::Kpi { .. } => match decode_kpi(body) {
            Ok(rows) => Ok(format_kpi(&rows)),
            Err(t) => Err(Error::Transport(t)),
        },
    }
}

} // verus!
