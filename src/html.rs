//! Description text in three forms: sanitized HTML, plain text and Markdown.

use vstd::prelude::*;
use vstd::string::StringExecFns;
use crate::text::{push_char, string_opt, to_chars, trim, trim_str};

verus! {

/// An internal reference code: two hash marks, digits, two hash marks.
pub const REFERENCE_CODE: &'static str = r"##\d+##";

/// A tag: `<`, anything but `>`, then `>`.
pub const TAG: &'static str = r"<[^>]*>";

/// A run of white space.
pub const SPACE_RUN: &'static str = r"\s+";

/// A run of two or more newlines.
pub const NEWLINE_RUN: &'static str = r"\n{2,}";

/// What compiling `pattern` as a regular expression and replacing each of its
/// matches in `text` by `with` gives; none where the pattern does not compile.
pub uninterp spec fn regex_replaced(pattern: Seq<char>, text: Seq<char>, with: Seq<char>) -> Option<
    Seq<char>,
>;

/// What decoding the HTML character entities of `s` gives; none where decoding fails.
pub uninterp spec fn entities_decoded(s: Seq<char>) -> Option<Seq<char>>;

/// What the standard HTML to Markdown conversion of `html` gives; none where it fails.
pub uninterp spec fn markdown_of(html: Seq<char>) -> Option<Seq<char>>;

#[verifier::external_type_specification]
#[verifier::external_body]
pub struct ExDecodeErr(htmlescape::DecodeErr);

#[verifier::external_type_specification]
#[verifier::external_body]
pub struct ExIoError(std::io::Error);

/// Relies on `regex::Regex::new`, which compiles `pattern` or fails, and on
/// `regex::Regex::replace_all`, which replaces every non-overlapping match in
/// `text` by `with`.
#[verifier::external_body]
fn regex_replace_all(pattern: &str, text: &str, with: &str) -> (r: Option<String>)
    ensures
        string_opt(r) == regex_replaced(pattern@, text@, with@),
{
    match regex::Regex::new(pattern) {
        Ok(re) => Some(re.replace_all(text, with).into_owned()),
        Err(_) => None,
    }
}

/// Relies on `htmlescape::decode_html`: the text with its character entities
/// decoded, or an error where it holds an entity that cannot be decoded.
#[verifier::external_body]
fn decode_entities(s: &str) -> (r: Result<String, htmlescape::DecodeErr>)
    ensures
        match r {
            Ok(d) => entities_decoded(s@) == Some(d@),
            Err(_) => entities_decoded(s@) is None,
        },
{
    htmlescape::decode_html(s)
}

/// Relies on `htmd::convert`: the Markdown form of an HTML text, or an error.
#[verifier::external_body]
fn convert_markdown(html: &str) -> (r: Result<String, std::io::Error>)
    ensures
        match r {
            Ok(m) => markdown_of(html@) == Some(m@),
            Err(_) => markdown_of(html@) is None,
        },
{
    htmd::convert(html)
}

/// `r`'s value where there is one, `t` otherwise.
pub open spec fn or_unchanged(r: Option<Seq<char>>, t: Seq<char>) -> Seq<char> {
    match r {
        Some(x) => x,
        None => t,
    }
}

/// `t` with every match of `pattern` replaced by `with`.
pub open spec fn replaced(pattern: Seq<char>, t: Seq<char>, with: Seq<char>) -> Seq<char> {
    or_unchanged(regex_replaced(pattern, t, with), t)
}

/// `t` with its reference codes removed, then trimmed.
pub open spec fn without_codes(t: Seq<char>) -> Seq<char> {
    trim(replaced(REFERENCE_CODE@, t, ""@))
}

/// The plain text of an HTML description: entities decoded (the raw text
/// where that fails), each tag replaced by a space, reference codes removed,
/// runs of white space collapsed to one space, then trimmed.
pub open spec fn plain_text(h: Seq<char>) -> Seq<char> {
    let decoded = or_unchanged(entities_decoded(h), h);
    let no_tags = replaced(TAG@, decoded, " "@);
    let no_codes = without_codes(no_tags);
    trim(replaced(SPACE_RUN@, no_codes, " "@))
}

/// `s` with each newline doubled.
pub open spec fn double_newlines(s: Seq<char>) -> Seq<char>
    decreases s.len(),
{
    if s.len() == 0 {
        s
    } else if s.last() == '\n' {
        double_newlines(s.drop_last()) + seq!['\n', '\n']
    } else {
        double_newlines(s.drop_last()).push(s.last())
    }
}

/// The Markdown form of an HTML description: reference codes removed, then
/// converted; the result trimmed, each run of newlines reduced to one and then
/// each newline doubled. None where the conversion fails.
pub open spec fn markdown_text(h: Seq<char>) -> Option<Seq<char>> {
    match markdown_of(without_codes(h)) {
        Some(m) => Some(double_newlines(replaced(NEWLINE_RUN@, trim(m), "\n"@))),
        None => None,
    }
}

/// Replaces each match of `pattern` in `text` by `with`; `text` is kept as it
/// is where the pattern does not compile.
fn replace_pattern(pattern: &str, text: &str, with: &str) -> (r: String)
    ensures
        r@ == replaced(pattern@, text@, with@),
{
    match regex_replace_all(pattern, text, with) {
        Some(s) => s,
        None => String::from_str(text),
    }
}

/// Removes reference codes from a text, then trims it.
pub fn strip_reference_codes(text: &str) -> (r: String)
    ensures
        r@ == without_codes(text@),
{
    let s = replace_pattern(REFERENCE_CODE, text, "");
    trim_str(s.as_str())
}

/// The HTML description with reference codes removed and its markup kept.
pub fn sanitize_html_description(html: &str) -> (r: String)
    ensures
        r@ == without_codes(html@),
{
    strip_reference_codes(html)
}

/// The plain text of an HTML description.
pub fn clean_html_description(html: &str) -> (r: String)
    ensures
        r@ == plain_text(html@),
{
    let decoded = match decode_entities(html) {
        Ok(d) => d,
        Err(_) => String::from_str(html),
    };
    let no_tags = replace_pattern(TAG, decoded.as_str(), " ");
    let no_codes = strip_reference_codes(no_tags.as_str());
    let collapsed = replace_pattern(SPACE_RUN, no_codes.as_str(), " ");
    trim_str(collapsed.as_str())
}

/// `s` with each newline doubled.
pub fn double_each_newline(s: &str) -> (r: String)
    ensures
        r@ == double_newlines(s@),
{
    let v = to_chars(s);
    let mut out = String::new();
    let mut i: usize = 0;
    while i < v.len()
        invariant
            i <= v@.len(),
            v@ == s@,
            out@ == double_newlines(v@.subrange(0, i as int)),
        decreases v@.len() - i,
    {
        assert(v@.subrange(0, i + 1).drop_last() =~= v@.subrange(0, i as int));
        if v[i] == '\n' {
            push_char(&mut out, '\n');
            push_char(&mut out, '\n');
            assert(out@ =~= double_newlines(v@.subrange(0, i as int)) + seq!['\n', '\n']);
        } else {
            push_char(&mut out, v[i]);
        }
        i = i + 1;
    }
    assert(v@.subrange(0, v@.len() as int) =~= v@);
    out
}

/// The Markdown form of an HTML description, if it converts.
pub fn html_to_markdown(html: &str) -> (r: Option<String>)
    ensures
        string_opt(r) == markdown_text(html@),
{
    let sanitized = strip_reference_codes(html);
    match convert_markdown(sanitized.as_str()) {
        Ok(m) => {
            let trimmed = trim_str(m.as_str());
            let single = replace_pattern(NEWLINE_RUN, trimmed.as_str(), "\n");
            Some(double_each_newline(single.as_str()))
        },
        Err(_) => None,
    }
}

} // verus!
