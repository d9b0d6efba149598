use vstd::prelude::*;

verus! {

/// `String::push` appends exactly one character to the end of the string and
/// leaves what was there before untouched.
pub assume_specification[ String::push ](s: &mut String, c: char)
    ensures
        final(s)@ == old(s)@.push(c),
;

/// The characters of `s`, in order.
pub fn chars_of(s: &str) -> (chars: Vec<char>)
    ensures
        chars@ == s@,
{
    let mut chars: Vec<char> = Vec::new();
    for c in it: s.chars()
        invariant
            it.seq() == s@,
            chars@ == it.seq().take(it.index()),
    {
        chars.push(c);
    }
    chars
}

/// The string made of `chars[from..to]`.
pub(crate) fn string_of(chars: &Vec<char>, from: usize, to: usize) -> (s: String)
    requires
        from <= to <= chars@.len(),
    ensures
        s@ == chars@.subrange(from as int, to as int),
{
    let mut s = String::new();
    let mut i: usize = from;
    while i < to
        invariant
            from <= i <= to <= chars@.len(),
            s@ == chars@.subrange(from as int, i as int),
        decreases to - i,
    {
        s.push(chars[i]);
        i = i + 1;
    }
    s
}

/// Whether two strings hold the same characters.
pub fn same_text(a: &str, b: &str) -> (same: bool)
    ensures
        same == (a@ == b@),
{
    let x = chars_of(a);
    let y = chars_of(b);
    if x.len() != y.len() {
        return false;
    }
    let mut i: usize = 0;
    while i < x.len()
        invariant
            x@ == a@,
            y@ == b@,
            x@.len() == y@.len(),
            0 <= i <= x@.len(),
            x@.take(i as int) == y@.take(i as int),
        decreases x@.len() - i,
    {
        if x[i] != y[i] {
            return false;
        }
        i = i + 1;
    }
    assert(x@.take(i as int) == x@);
    assert(y@.take(i as int) == y@);
    true
}

/// The part of `s` behind its last `sep`; all of `s` where it holds none.
pub open spec fn after_last(s: Seq<char>, sep: char) -> Seq<char>
    decreases s.len(),
{
    if s.len() == 0 {
        s
    } else if s.last() == sep {
        Seq::empty()
    } else {
        after_last(s.drop_last(), sep).push(s.last())
    }
}

/// The part behind the last separator is the longest tail of the text that
/// holds no separator: it is a tail, it is free of `sep`, and it either is
/// the whole text or stands directly behind a `sep`.
pub proof fn law_after_last_is_longest_clean_tail(s: Seq<char>, sep: char)
    ensures
        after_last(s, sep).len() <= s.len(),
        after_last(s, sep) == s.skip(s.len() - after_last(s, sep).len()),
        forall|i: int| 0 <= i < after_last(s, sep).len() ==> after_last(s, sep)[i] != sep,
        after_last(s, sep).len() < s.len() ==> s[s.len() - after_last(s, sep).len() - 1] == sep,
    decreases s.len(),
{
    if s.len() == 0 {
    } else if s.last() == sep {
        assert(s.skip(s.len() as int) == Seq::<char>::empty());
    } else {
        let p = s.drop_last();
        law_after_last_is_longest_clean_tail(p, sep);
        let t = after_last(p, sep);
        assert(t.push(s.last()) == s.skip(s.len() - t.len() - 1));
    }
}

/// Behind a separator that is followed by a text without one, that text is
/// what stands behind the last separator.
pub proof fn lemma_after_last_of_joined(head: Seq<char>, sep: char, tail: Seq<char>)
    requires
        forall|i: int| 0 <= i < tail.len() ==> tail[i] != sep,
    ensures
        after_last(head.push(sep) + tail, sep) == tail,
    decreases tail.len(),
{
    let s = head.push(sep) + tail;
    if tail.len() == 0 {
        assert(s.last() == sep);
    } else {
        let shorter = tail.drop_last();
        lemma_after_last_of_joined(head, sep, shorter);
        assert(s.drop_last() == head.push(sep) + shorter);
        assert(s.last() == tail.last());
        assert(shorter.push(tail.last()) == tail);
    }
}

/// The part of `s` behind its last `sep`, as a new string.
pub fn tail_after_last(s: &str, sep: char) -> (tail: String)
    ensures
        tail@ == after_last(s@, sep),
{
    let chars = chars_of(s);
    let n: usize = chars.len();
    let mut k: usize = n;
    assert(chars@.take(k as int) == chars@);
    while k > 0 && chars[k - 1] != sep
        invariant
            0 <= k <= n,
            n == chars@.len(),
            chars@ == s@,
            after_last(s@, sep) == after_last(chars@.take(k as int), sep) + chars@.skip(k as int),
        decreases k,
    {
        assert(chars@.take(k as int).drop_last() == chars@.take(k - 1));
        assert(after_last(chars@.take(k - 1), sep).push(chars@[k - 1]) + chars@.skip(k as int)
            == after_last(chars@.take(k - 1), sep) + chars@.skip(k - 1));
        k = k - 1;
    }
    assert(after_last(chars@.take(k as int), sep) == Seq::<char>::empty());
    string_of(&chars, k, n)
}

/// The text of an optional string, for contracts.
pub open spec fn text_of(s: Option<&str>) -> Option<Seq<char>> {
    match s {
        Some(t) => Some(t@),
        None => None,
    }
}

} // verus!
