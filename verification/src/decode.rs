//! Decoding of the service's JSON response bodies, through serde_json.
//!
//! Each decoder is a trusted boundary: its result is a function of the
//! body text alone, named by an uninterpreted spec function, and a failed
//! parse comes back as the parser's own description, which the executor
//! surfaces as a transport error.

use vstd::prelude::*;

verus! {

/// What the error-envelope decode yields on a body: nothing when the text
/// is no JSON document, else the string content of a top-level `error`
/// field, if there is one, and the canonical re-rendering of the document.
pub uninterp spec fn envelope_of(s: Seq<char>) -> Option<(Option<Seq<char>>, Seq<char>)>;

/// Whether a body parses as a JSON document.
pub open spec fn json_well_formed(s: Seq<char>) -> bool {
    envelope_of(s) is Some
}

/// The string content of a body's top-level `error` field, if any.
pub open spec fn json_error_field(s: Seq<char>) -> Option<Seq<char>> {
    (envelope_of(s)->0).0
}

/// The canonical re-rendering of a body.
pub open spec fn json_canonical(s: Seq<char>) -> Seq<char> {
    (envelope_of(s)->0).1
}

/// A decoded error envelope.
pub struct Envelope {
    /// The string content of the top-level `error` field, if there is one.
    pub error_text: Option<Vec<char>>,
    /// The whole document, rendered back to text.
    pub canonical: Vec<char>,
}

/// Relies on serde_json: `from_str::<Value>`, `Value::get`,
/// `Value::as_str` and `Value::to_string` are functions of the input text
/// alone (object keys are kept sorted).  On a failed parse, the error's
/// own description is returned.
#[verifier::external_body]
pub fn decode_envelope(body: &Vec<char>) -> (r: Result<Envelope, Vec<char>>)
    ensures
        r is Ok <==> envelope_of(body@) is Some,
        r is Ok ==> r->Ok_0.canonical@ == json_canonical(body@),
        r is Ok ==> match r->Ok_0.error_text {
            Some(t) => json_error_field(body@) == Some(t@),
            None => json_error_field(body@) is None,
        },
{
    let s: String = body.iter().collect();
    match serde_json::from_str::<serde_json::Value>(&s) {
        Err(e) => Err(e.to_string().chars().collect()),
        Ok(v) => {
            let error_text = match v.get("error") {
                Some(f) => match f.as_str() {
                    Some(t) => Some(t.chars().collect()),
                    None => None,
                },
                None => None,
            };
            Ok(Envelope { error_text, canonical: v.to_string().chars().collect() })
        },
    }
}

/// What the category decode yields on a body: nothing when the text is no
/// JSON document, else the string content of a top-level `category`
/// field, if there is one.
pub uninterp spec fn category_of(s: Seq<char>) -> Option<Option<Seq<char>>>;

/// Relies on serde_json: `from_str::<Value>`, `Value::get` and
/// `Value::as_str` are functions of the input text alone.  On a failed
/// parse, the error's own description is returned.
#[verifier::external_body]
pub fn decode_category(body: &Vec<char>) -> (r: Result<Option<Vec<char>>, Vec<char>>)
    ensures
        r is Ok <==> category_of(body@) is Some,
        r is Ok ==> match r->Ok_0 {
            Some(c) => category_of(body@) == Some(Some(c@)),
            None => category_of(body@) == Some(None::<Seq<char>>),
        },
{
    let s: String = body.iter().collect();
    match serde_json::from_str::<serde_json::Value>(&s) {
        Err(e) => Err(e.to_string().chars().collect()),
        Ok(v) => match v.get("category") {
            Some(f) => match f.as_str() {
                Some(t) => Ok(Some(t.chars().collect())),
                None => Ok(None),
            },
            None => Ok(None),
        },
    }
}

/// One category of a summary listing: its name and its item identifiers,
/// in the service's order.
pub struct SummaryRow {
    pub category: Vec<char>,
    pub ids: Vec<Vec<char>>,
}

/// The views of a list of texts.
pub open spec fn texts_view(v: Seq<Vec<char>>) -> Seq<Seq<char>> {
    v.map_values(|x: Vec<char>| x@)
}

/// The view of one summary row.
pub open spec fn row_view(r: SummaryRow) -> (Seq<char>, Seq<Seq<char>>) {
    (r.category@, texts_view(r.ids@))
}

/// The views of a list of summary rows.
pub open spec fn rows_view(v: Seq<SummaryRow>) -> Seq<(Seq<char>, Seq<Seq<char>>)> {
    v.map_values(|r: SummaryRow| row_view(r))
}

/// Strict lexicographic order on texts by character value.
pub open spec fn lex_lt(a: Seq<char>, b: Seq<char>) -> bool
    decreases a.len(),
{
    if b.len() == 0 {
        false
    } else if a.len() == 0 {
        true
    } else if a[0] != b[0] {
        (a[0] as u32) < (b[0] as u32)
    } else {
        lex_lt(a.drop_first(), b.drop_first())
    }
}

/// What the summary decode yields on a body: nothing when the text is not
/// a JSON mapping from category names to identifier lists, else the rows
/// of the mapping, ordered by category name.
pub uninterp spec fn summary_rows_of(s: Seq<char>) -> Option<Seq<(Seq<char>, Seq<Seq<char>>)>>;

/// Relies on serde_json's typed decode of a `BTreeMap<String, Vec<String>>`,
/// a function of the input text alone, whose iteration order is its sorted
/// key order — byte-lexicographic on the keys' UTF-8, which coincides with
/// character-value order.  On a failed parse, the error's own description
/// is returned.
#[verifier::external_body]
pub fn decode_summary(body: &Vec<char>) -> (r: Result<Vec<SummaryRow>, Vec<char>>)
    ensures
        r is Ok <==> summary_rows_of(body@) is Some,
        r is Ok ==> summary_rows_of(body@) == Some(rows_view(r->Ok_0@)),
        r is Ok ==> forall|i: int, j: int|
            0 <= i < j < r->Ok_0@.len() ==> lex_lt(
                (#[trigger] r->Ok_0@[i]).category@,
                (#[trigger] r->Ok_0@[j]).category@,
            ),
{
    let s: String = body.iter().collect();
    match serde_json::from_str::<std::collections::BTreeMap<String, Vec<String>>>(&s) {
        Err(e) => Err(e.to_string().chars().collect()),
        Ok(m) => Ok(
            m.into_iter().map(
                |(k, ids)| SummaryRow {
                    category: k.chars().collect(),
                    ids: ids.into_iter().map(|i| i.chars().collect()).collect(),
                },
            ).collect(),
        ),
    }
}

/// One contributor tally of a kpi listing.
pub struct KpiRow {
    pub name: Vec<char>,
    pub times: u32,
}

/// The view of one kpi row.
pub open spec fn kpi_row_view(r: KpiRow) -> (Seq<char>, u32) {
    (r.name@, r.times)
}

/// The views of a list of kpi rows.
pub open spec fn kpi_rows_view(v: Seq<KpiRow>) -> Seq<(Seq<char>, u32)> {
    v.map_values(|r: KpiRow| kpi_row_view(r))
}

/// What the kpi decode yields on a body: nothing when the text is not a
/// JSON list of rows carrying a string `name` and an unsigned 32-bit
/// `times`, else those rows in the service's order.
pub uninterp spec fn kpi_rows_of(s: Seq<char>) -> Option<Seq<(Seq<char>, u32)>>;

/// Relies on serde_json's decode of a list of JSON objects and on
/// `Value::as_str` and `Value::as_u64`, functions of the input text
/// alone; a row without a string `name` and an integral `times` that fits
/// 32 bits fails the decode, as a typed row decode would.  On a failed
/// parse, the error's or a fixed description is returned.
#[verifier::external_body]
pub fn decode_kpi(body: &Vec<char>) -> (r: Result<Vec<KpiRow>, Vec<char>>)
    ensures
        r is Ok <==> kpi_rows_of(body@) is Some,
        r is Ok ==> kpi_rows_of(body@) == Some(kpi_rows_view(r->Ok_0@)),
{
    let s: String = body.iter().collect();
    match serde_json::from_str::<Vec<serde_json::Map<String, serde_json::Value>>>(&s) {
        Err(e) => Err(e.to_string().chars().collect()),
        Ok(rows) => rows.iter().map(|row| {
            let name = row.get("name").and_then(|v| v.as_str());
            let times = row.get("times").and_then(|v| v.as_u64());
            match (name, times) {
                (Some(n), Some(t)) if u32::try_from(t).is_ok() => Ok(KpiRow {
                    name: n.chars().collect(),
                    times: t as u32,
                }),
                _ => Err("invalid kpi row".chars().collect()),
            }
        }).collect(),
    }
}

} // verus!
