//! The compiled regular expression, reached through the `regex` crate.
use vstd::prelude::*;
use vstd::string::StringSliceAdditionalSpecFns;

verus! {

#[verifier::external_type_specification]
#[verifier::external_body]
pub struct ExRegex(regex::Regex);

#[verifier::external_type_specification]
#[verifier::external_body]
pub struct ExRegexError(regex::Error);

/// Whether `regex` accepts a pattern in multi-line mode, with `.` not matching `\n`.
pub uninterp spec fn compiles(pattern: Seq<char>) -> bool;

/// The names of the capture slots of a compiled pattern, slot 0 (the whole match) first.
pub uninterp spec fn group_names_of(pattern: Seq<char>) -> Seq<Option<Seq<char>>>;

/// The successive leftmost, non-overlapping matches of a compiled pattern in `text`:
/// for each match, the byte span of each capture slot that took part in it.
pub uninterp spec fn captures_of(pattern: Seq<char>, text: Seq<char>) -> Seq<
    Seq<Option<(usize, usize)>>,
>;

/// A byte span that lies in `text` and starts and ends on character boundaries.
pub open spec fn span_fits(span: (usize, usize), text: Seq<u8>) -> bool {
    span.0 <= span.1 <= text.len() && vstd::utf8::is_char_boundary(text, span.0 as int)
        && vstd::utf8::is_char_boundary(text, span.1 as int)
}

/// The span of the whole of match `k`.
pub open spec fn whole(caps: Seq<Seq<Option<(usize, usize)>>>, k: int) -> (usize, usize) {
    caps[k][0]->Some_0
}

/// What holds of the matches of any pattern in `text`: each has its whole
/// span in slot 0, every span lies in the text, and the matches come in order
/// without overlapping.
pub open spec fn captures_fit(caps: Seq<Seq<Option<(usize, usize)>>>, text: Seq<u8>) -> bool {
    &&& forall|k: int|
        0 <= k < caps.len() ==> caps[k].len() > 0 && #[trigger] caps[k][0] is Some && span_fits(
            caps[k][0]->Some_0,
            text,
        )
    &&& forall|k: int, j: int|
        0 <= k < caps.len() && 0 <= j < caps[k].len() && #[trigger] caps[k][j] is Some
            ==> span_fits(caps[k][j]->Some_0, text)
    &&& forall|k: int| 0 < k < caps.len() ==> #[trigger] whole(caps, k - 1).1 <= whole(caps, k).0
}

/// The views of the per-match slot lists.
pub open spec fn view_captures(caps: Seq<Vec<Option<(usize, usize)>>>) -> Seq<
    Seq<Option<(usize, usize)>>,
> {
    caps.map_values(|g: Vec<Option<(usize, usize)>>| g@)
}

/// The names of capture slots, as text.
pub open spec fn view_names(names: Seq<Option<String>>) -> Seq<Option<Seq<char>>> {
    names.map_values(
        |n: Option<String>|
            match n {
                Some(s) => Some(s@),
                None => None,
            },
    )
}

/// A compiled pattern together with the text it was compiled from.
pub struct Matcher {
    re: regex::Regex,
    source: String,
}

impl Matcher {
    /// The text this matcher was compiled from.
    pub closed spec fn source(&self) -> Seq<char> {
        self.source@
    }
}

/// Relies on `regex::RegexBuilder::build`, with multi-line mode on and `.`
/// not matching `\n`: it succeeds exactly on the patterns it accepts.
#[verifier::external_body]
pub(crate) fn compile(pattern: &String) -> (r: Result<Matcher, regex::Error>)
    ensures
        r is Ok <==> compiles(pattern@),
        r matches Ok(m) ==> m.source() == pattern@,
{
    let re = regex::RegexBuilder::new(pattern).multi_line(true).dot_matches_new_line(false).build()?;
    Ok(Matcher { re, source: pattern.clone() })
}

/// Relies on `regex::Regex::capture_names`: one name, or none, for each slot.
#[verifier::external_body]
pub(crate) fn capture_names(m: &Matcher) -> (r: Vec<Option<String>>)
    ensures
        view_names(r@) == group_names_of(m.source()),
{
    m.re.capture_names().map(|n| n.map(|s| s.to_owned())).collect()
}

/// Relies on `regex::Regex::captures_iter`: the slots of each successive match.
#[verifier::external_body]
pub(crate) fn captures(m: &Matcher, text: &str) -> (r: Vec<Vec<Option<(usize, usize)>>>)
    ensures
        view_captures(r@) == captures_of(m.source(), text@),
        captures_fit(view_captures(r@), text.spec_bytes()),
{
    let mut r = Vec::new();
    for c in m.re.captures_iter(text) {
        r.push(c.iter().map(|g| g.map(|x| (x.start(), x.end()))).collect());
    }
    r
}

} // verus!
