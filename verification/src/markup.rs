//! Message bodies as markup: special characters escaped, links made
//! clickable.

use vstd::prelude::*;
use crate::text::{chars_of, string_of};

verus! {

/// Whether a character is white space, as `char::is_whitespace` of the
/// standard library tells.
pub uninterp spec fn is_space(c: char) -> bool;

/// `char::is_whitespace`.
#[verifier::external_body]
fn space(c: char) -> (yes: bool)
    ensures
        yes == is_space(c),
{
    c.is_whitespace()
}

/// The first position from `from` on that holds no white space, or the
/// length of `s`.
pub open spec fn text_start(s: Seq<char>, from: int) -> int
    decreases s.len() - from,
{
    if from < 0 || from >= s.len() {
        s.len() as int
    } else if !is_space(s[from]) {
        from
    } else {
        text_start(s, from + 1)
    }
}

/// The position after the last character before `upto` that is no white
/// space, or 0.
pub open spec fn text_end(s: Seq<char>, upto: int) -> int
    decreases upto,
{
    if upto <= 0 || upto > s.len() {
        0
    } else if !is_space(s[upto - 1]) {
        upto
    } else {
        text_end(s, upto - 1)
    }
}

/// `s` without the white space at its start and at its end.
pub open spec fn trimmed(s: Seq<char>) -> Seq<char> {
    let from = text_start(s, 0);
    if from >= s.len() {
        Seq::empty()
    } else {
        s.subrange(from, text_end(s, s.len() as int))
    }
}

/// How a character is written in markup.
pub open spec fn escaped_char(c: char) -> Seq<char> {
    if c == '&' {
        "&amp;"@
    } else if c == '<' {
        "&lt;"@
    } else if c == '>' {
        "&gt;"@
    } else {
        seq![c]
    }
}

/// The first `upto` characters of `s`, each written as markup.
pub open spec fn escaped(s: Seq<char>, upto: int) -> Seq<char>
    decreases upto,
{
    if upto <= 0 {
        Seq::empty()
    } else {
        escaped(s, upto - 1) + escaped_char(s[upto - 1])
    }
}

/// The pattern of a link: `http://` or `https://`, then what is no
/// white space, ending in a character that can end a URL.
pub open spec fn link_pattern() -> Seq<char> {
    "(?P<url>https?://[^\\s]+[-A-Za-z0-9+&@#/%=~_|])"@
}

/// What a link is replaced with: an anchor around it.
pub open spec fn link_anchor() -> Seq<char> {
    "<a href=\"$url\">$url</a>"@
}

/// What `regex::Regex::replace_all` makes of `text` with the regular
/// expression compiled from `pattern` and the replacement `rep`, or
/// nothing where `regex::Regex::new` refuses the pattern.
pub uninterp spec fn regex_replaced(pattern: Seq<char>, text: Seq<char>, rep: Seq<char>) -> Option<
    Seq<char>,
>;

/// `regex::Regex::replace_all` on `text`, with the regular expression
/// that `regex::Regex::new` compiles from `pattern`; `None` where the
/// pattern is refused.
#[verifier::external_body]
fn replace_all(pattern: &str, text: &str, rep: &str) -> (r: Option<String>)
    ensures
        match r {
            Some(t) => regex_replaced(pattern@, text@, rep@) == Some(t@),
            None => regex_replaced(pattern@, text@, rep@) is None,
        },
{
    match regex::Regex::new(pattern) {
        Ok(re) => Some(re.replace_all(text, rep).into_owned()),
        Err(_) => None,
    }
}

/// The markup of `s`: trimmed and escaped, with every link in an
/// anchor.
pub open spec fn markup_text(s: Seq<char>) -> Seq<char> {
    let plain = escaped(trimmed(s), trimmed(s).len() as int);
    match regex_replaced(link_pattern(), plain, link_anchor()) {
        Some(t) => t,
        None => plain,
    }
}

/// Removes the white space at the start and at the end of `s`.
pub fn trim(s: &str) -> (t: String)
    ensures
        t@ == trimmed(s@),
{
    let chars = chars_of(s);
    let n = chars.len();
    let mut from: usize = 0;
    while from < n && space(chars[from])
        invariant
            n == chars@.len(),
            from <= n,
            text_start(chars@, 0) == text_start(chars@, from as int),
        decreases n - from,
    {
        from = from + 1;
    }
    if from >= n {
        return String::new();
    }
    let mut to: usize = n;
    while to > 0 && space(chars[to - 1])
        invariant
            n == chars@.len(),
            to <= n,
            from < n,
            !is_space(chars@[from as int]),
            text_end(chars@, n as int) == text_end(chars@, to as int),
        decreases to,
    {
        to = to - 1;
    }
    assert(from < to) by {
        if to <= from {
            lemma_text_end_covers(chars@, n as int, from as int);
        }
    }
    string_of(&chars, from, to)
}

/// The end of the text lies after every character that is no white
/// space.
pub proof fn lemma_text_end_covers(s: Seq<char>, upto: int, at: int)
    requires
        0 <= at < upto <= s.len(),
        !is_space(s[at]),
    ensures
        text_end(s, upto) > at,
    decreases upto,
{
    if is_space(s[upto - 1]) {
        lemma_text_end_covers(s, upto - 1, at);
    }
}

/// Writes `s` as markup: `&`, `<` and `>` become `&amp;`, `&lt;` and
/// `&gt;`.
pub fn escape(s: &str) -> (t: String)
    ensures
        t@ == escaped(s@, s@.len() as int),
{
    let chars = chars_of(s);
    let mut out = String::new();
    let mut i: usize = 0;
    while i < chars.len()
        invariant
            i <= chars@.len(),
            chars@ == s@,
            out@ == escaped(chars@, i as int),
        decreases chars@.len() - i,
    {
        let c = chars[i];
        if c == '&' {
            out.append("&amp;");
        } else if c == '<' {
            out.append("&lt;");
        } else if c == '>' {
            out.append("&gt;");
        } else {
            out.push(c);
            assert(escaped(chars@, i as int).push(c) =~= escaped(chars@, i as int) + seq![c]);
        }
        i = i + 1;
    }
    out
}

/// The markup of the text `s`.
pub fn markup(s: &str) -> (out: String)
    ensures
        out@ == markup_text(s@),
{
    let plain = escape(trim(s).as_str());
    match replace_all(
        "(?P<url>https?://[^\\s]+[-A-Za-z0-9+&@#/%=~_|])",
        plain.as_str(),
        "<a href=\"$url\">$url</a>",
    ) {
        Some(t) => t,
        None => plain,
    }
}

} // verus!
