use crate::error::TransferError;
use crate::text::{after_last, chars_of, tail_after_last};
use vstd::prelude::*;

verus! {

/// Whether Unicode counts `c` as a letter or a number; the tables that decide
/// it are the standard library's.
pub uninterp spec fn unicode_alphanumeric(c: char) -> bool;

/// `char::is_alphanumeric` decides by the character alone whether it is
/// alphabetic or numeric in Unicode's sense.
pub assume_specification[ char::is_alphanumeric ](c: char) -> (b: bool)
    ensures
        b == unicode_alphanumeric(c),
;

/// The rule for one character of a file name: letters and numbers stay, and
/// so do `.` and `_`; everything else goes.
pub open spec fn keeps(c: char, alphanumeric: bool) -> bool {
    alphanumeric || c == '.' || c == '_'
}

/// Whether `c` may stand in a local file name.
pub open spec fn is_filename_char(c: char) -> bool {
    keeps(c, unicode_alphanumeric(c))
}

/// `s` with every character dropped that may not stand in a file name; the
/// others keep their order.
pub open spec fn sanitized(s: Seq<char>) -> Seq<char> {
    s.filter(|c: char| is_filename_char(c))
}

/// The local file name for a URL: its last path segment, sanitized. A URL
/// whose last segment is empty names no file.
pub open spec fn resolved_filename(url: Seq<char>) -> Option<Seq<char>> {
    let segment = after_last(url, '/');
    if segment.len() == 0 {
        None
    } else {
        Some(sanitized(segment))
    }
}

/// A sanitized name holds nothing but file name characters and is no longer
/// than the text it was made from.
pub proof fn law_sanitized_is_clean(s: Seq<char>)
    ensures
        sanitized(s).len() <= s.len(),
        forall|i: int| 0 <= i < sanitized(s).len() ==> is_filename_char(#[trigger] sanitized(s)[i]),
{
    let pred = |c: char| is_filename_char(c);
    s.lemma_filter_len(pred);
    assert forall|i: int| 0 <= i < sanitized(s).len() implies is_filename_char(
        #[trigger] sanitized(s)[i],
    ) by {
        s.lemma_filter_pred(pred, i);
    }
}

/// A text that holds nothing but file name characters is its own sanitized
/// form.
pub proof fn lemma_clean_is_kept(s: Seq<char>)
    requires
        forall|i: int| 0 <= i < s.len() ==> is_filename_char(#[trigger] s[i]),
    ensures
        sanitized(s) == s,
    decreases s.len(),
{
    reveal(Seq::filter);
    if s.len() > 0 {
        lemma_clean_is_kept(s.drop_last());
        assert(is_filename_char(s[s.len() - 1]));
        assert(s.drop_last().push(s.last()) == s);
    }
}

/// Sanitizing twice changes nothing more.
pub proof fn law_sanitize_idempotent(s: Seq<char>)
    ensures
        sanitized(sanitized(s)) == sanitized(s),
{
    law_sanitized_is_clean(s);
    lemma_clean_is_kept(sanitized(s));
}

/// Decides for one character, once it is known whether it is alphanumeric.
pub fn keeps_char(c: char, alphanumeric: bool) -> (keep: bool)
    ensures
        keep == keeps(c, alphanumeric),
{
    alphanumeric || c == '.' || c == '_'
}

/// Strips from `filename` every character that is not alphanumeric, `.` or
/// `_`. Nothing is escaped or replaced.
pub fn sanitize_filename(filename: &str) -> (name: String)
    ensures
        name@ == sanitized(filename@),
{
    let chars = chars_of(filename);
    let mut name = String::new();
    let mut i: usize = 0;
    proof {
        reveal(Seq::filter);
    }
    while i < chars.len()
        invariant
            0 <= i <= chars@.len(),
            chars@ == filename@,
            name@ == sanitized(chars@.take(i as int)),
        decreases chars@.len() - i,
    {
        let c = chars[i];
        proof {
            reveal(Seq::filter);
            assert(chars@.take(i + 1).drop_last() == chars@.take(i as int));
            assert(chars@.take(i + 1).last() == c);
        }
        if keeps_char(c, c.is_alphanumeric()) {
            name.push(c);
        }
        i = i + 1;
    }
    assert(chars@.take(i as int) == chars@);
    name
}

/// Derives the local file name from a URL: the text behind the final `/`,
/// sanitized. Fails with `Input`, and only then, when nothing stands behind
/// the final `/`.
pub fn resolve_filename(url: &str) -> (r: Result<String, TransferError>)
    ensures
        match r {
            Ok(name) => resolved_filename(url@) == Some(name@),
            Err(e) => e is Input && resolved_filename(url@) is None,
        },
{
    let segment = tail_after_last(url, '/');
    if segment.as_str().is_empty() {
        return Err(TransferError::Input);
    }
    Ok(sanitize_filename(segment.as_str()))
}

} // verus!
