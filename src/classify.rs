//! The light "is this a usable video" query: its compact report, one line
//! of `|`-separated fields for the first video stream.
use vstd::prelude::*;
use vstd::string::*;

verus! {

/// The fields of a text separated by `|`, as `str::split('|')` gives them:
/// always at least one, possibly empty.
pub open spec fn split_bar(s: Seq<char>) -> Seq<Seq<char>>
    decreases s.len(),
{
    if s.len() == 0 {
        seq![Seq::empty()]
    } else if s.last() == '|' {
        split_bar(s.drop_last()).push(Seq::empty())
    } else {
        let f = split_bar(s.drop_last());
        f.update(f.len() - 1, f.last().push(s.last()))
    }
}

/// The text without leading and trailing whitespace.
pub uninterp spec fn trimmed(s: Seq<char>) -> Seq<char>;

/// Relies on `str::trim`: leading and trailing whitespace removed.
#[verifier::external_body]
fn trim_text(s: &str) -> (r: String)
    ensures
        r@ == trimmed(s@),
{
    s.trim().to_string()
}

/// Relies on `str::split` with the separator `|`.
#[verifier::external_body]
fn bar_fields(s: &str) -> (r: Vec<String>)
    ensures
        r@.map_values(|f: String| f@) == split_bar(s@),
{
    s.split('|').map(|f| f.to_string()).collect()
}

/// What the compact stream report says: whether its codec type (the second
/// field) is video, and the text of its duration (the third field, trimmed;
/// empty when missing).
pub struct StreamSummary {
    pub is_video: bool,
    pub duration_text: String,
}

/// Reads the compact stream report, trimmed, as codec name, codec type and
/// duration fields.
pub fn summarize_stream_report(report: &str) -> (r: StreamSummary)
    ensures
        ({
            let f = split_bar(trimmed(report@));
            &&& r.is_video == (f.len() > 1 && f[1] == "video"@)
            &&& r.duration_text@ == if f.len() > 2 { trimmed(f[2]) } else { Seq::empty() }
        }),
{
    let text = trim_text(report);
    let fields = bar_fields(text.as_str());
    let ghost f = split_bar(trimmed(report@));
    assert(fields@.len() == f.len());
    let is_video = if fields.len() > 1 {
        assert(fields@[1]@ == f[1]);
        let want = String::from_str("video");
        fields[1] == want
    } else {
        false
    };
    let duration_text = if fields.len() > 2 {
        assert(fields@[2]@ == f[2]);
        trim_text(fields[2].as_str())
    } else {
        String::new()
    };
    StreamSummary { is_video, duration_text }
}

} // verus!
