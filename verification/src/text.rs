//! Character-level text primitives: conversions between strings and
//! character vectors, substring search, the segment behind a separator and
//! decimal numerals.
use vstd::prelude::*;
use vstd::string::*;
use vstd::utf8::*;

verus! {

/// `String::push` of the standard library appends one character to the end
/// of the string and leaves the characters before it unchanged.
pub assume_specification[ String::push ](s: &mut String, c: char)
    ensures
        final(s)@ == old(s)@.push(c),
;

/// Whether `needle` stands in `hay` starting at position `at`.
pub open spec fn occurs_at(hay: Seq<char>, needle: Seq<char>, at: int) -> bool {
    &&& 0 <= at
    &&& at + needle.len() <= hay.len()
    &&& hay.subrange(at, at + needle.len()) == needle
}

/// The first position at or after `from` where `needle` stands in `hay`.
pub open spec fn find_from(hay: Seq<char>, needle: Seq<char>, from: int) -> Option<int>
    decreases hay.len() + 1 - from,
{
    if from < 0 || from + needle.len() > hay.len() {
        None
    } else if occurs_at(hay, needle, from) {
        Some(from)
    } else {
        find_from(hay, needle, from + 1)
    }
}

/// Whether `needle` stands anywhere in `hay`.
pub open spec fn contains_text(hay: Seq<char>, needle: Seq<char>) -> bool {
    find_from(hay, needle, 0) is Some
}

/// What stands between the first `start` in `text` and the first `end`
/// after it; nothing where either is missing.
pub open spec fn between(text: Seq<char>, start: Seq<char>, end: Seq<char>) -> Option<Seq<char>> {
    match find_from(text, start, 0) {
        Some(at) => match find_from(text, end, at + start.len()) {
            Some(stop) => Some(text.subrange(at + start.len(), stop)),
            None => None,
        },
        None => None,
    }
}

/// What follows the last `sep` in `s`; the whole of `s` where it holds none.
pub open spec fn after_last(s: Seq<char>, sep: char) -> Seq<char>
    decreases s.len(),
{
    if s.len() == 0 {
        s
    } else if s.last() == sep {
        Seq::empty()
    } else {
        after_last(s.drop_last(), sep).push(s.last())
    }
}

/// The character that writes the digit `d`.
pub open spec fn digit_char(d: nat) -> char {
    if d == 0 {
        '0'
    } else if d == 1 {
        '1'
    } else if d == 2 {
        '2'
    } else if d == 3 {
        '3'
    } else if d == 4 {
        '4'
    } else if d == 5 {
        '5'
    } else if d == 6 {
        '6'
    } else if d == 7 {
        '7'
    } else if d == 8 {
        '8'
    } else {
        '9'
    }
}

/// The decimal numeral of `n`, without leading zeros.
pub open spec fn decimal(n: nat) -> Seq<char>
    decreases n,
{
    if n < 10 {
        seq![digit_char(n)]
    } else {
        decimal(n / 10).push(digit_char(n % 10))
    }
}

/// `find_from` yields the least position at or after `from` where the
/// needle stands, and nothing exactly when there is no such position.
pub proof fn lemma_find_from_is_least(hay: Seq<char>, needle: Seq<char>, from: int)
    requires
        0 <= from,
    ensures
        match find_from(hay, needle, from) {
            Some(at) => {
                &&& from <= at
                &&& occurs_at(hay, needle, at)
                &&& forall|j: int| from <= j < at ==> !occurs_at(hay, needle, j)
            },
            None => forall|j: int| from <= j ==> !occurs_at(hay, needle, j),
        },
    decreases hay.len() + 1 - from,
{
    if from + needle.len() > hay.len() {
    } else if occurs_at(hay, needle, from) {
    } else {
        lemma_find_from_is_least(hay, needle, from + 1);
    }
}

/// Searching what is left of `hay` after its first `k` characters finds the
/// same place as searching `hay` from `k`.
pub proof fn lemma_find_from_skip(hay: Seq<char>, needle: Seq<char>, k: int, from: int)
    requires
        0 <= k <= hay.len(),
        0 <= from,
    ensures
        find_from(hay.skip(k), needle, from) == match find_from(hay, needle, k + from) {
            Some(at) => Some(at - k),
            None => None,
        },
    decreases hay.len() + 1 - k - from,
{
    let rest = hay.skip(k);
    if from + needle.len() > rest.len() {
    } else {
        assert(rest.subrange(from, from + needle.len()) =~= hay.subrange(
            k + from,
            k + from + needle.len(),
        ));
        if occurs_at(rest, needle, from) {
        } else {
            lemma_find_from_skip(hay, needle, k, from + 1);
        }
    }
}

/// What `after_last` yields holds no separator, ends `s`, and is either the
/// whole of `s` or stands right behind a separator.
pub proof fn lemma_after_last_is_final_segment(s: Seq<char>, sep: char)
    ensures
        after_last(s, sep).len() <= s.len(),
        after_last(s, sep) == s.subrange(s.len() - after_last(s, sep).len(), s.len() as int),
        !after_last(s, sep).contains(sep),
        after_last(s, sep).len() < s.len() ==> s[s.len() - after_last(s, sep).len() - 1] == sep,
    decreases s.len(),
{
    let r = after_last(s, sep);
    if s.len() == 0 {
        assert(r =~= s.subrange(0, 0));
    } else if s.last() == sep {
        assert(r =~= s.subrange(s.len() as int, s.len() as int));
    } else {
        let t = s.drop_last();
        let q = after_last(t, sep);
        lemma_after_last_is_final_segment(t, sep);
        assert(r =~= s.subrange(s.len() - r.len(), s.len() as int));
        assert forall|i: int| 0 <= i < r.len() implies r[i] != sep by {
            if i < q.len() {
                assert(q.contains(q[i]));
            }
        }
    }
}

/// The characters of `s`, in order.
pub fn chars_of(s: &str) -> (v: Vec<char>)
    ensures
        v@ == s@,
{
    let mut v: Vec<char> = Vec::new();
    for c in it: s.chars()
        invariant
            it.seq() == s@,
            v@ == it.seq().take(it.index() as int),
    {
        v.push(c);
    }
    v
}

/// The string made of `chars`, in order.
pub fn string_of(chars: &Vec<char>) -> (s: String)
    ensures
        s@ == chars@,
{
    let mut s = String::new();
    let mut i: usize = 0;
    while i < chars.len()
        invariant
            i <= chars.len(),
            s@ == chars@.take(i as int),
        decreases chars.len() - i,
    {
        s.push(chars[i]);
        proof {
            assert(chars@.take(i as int).push(chars@[i as int]) =~= chars@.take(i + 1));
        }
        i += 1;
    }
    proof {
        assert(chars@.take(chars@.len() as int) =~= chars@);
    }
    s
}

/// Whether two strings hold the same characters.
pub fn str_eq(a: &str, b: &str) -> (same: bool)
    ensures
        same == (a@ == b@),
{
    let x = a.as_bytes();
    let y = b.as_bytes();
    proof {
        encode_utf8_decode_utf8(a@);
        encode_utf8_decode_utf8(b@);
    }
    if x.len() != y.len() {
        return false;
    }
    let mut i: usize = 0;
    while i < x.len()
        invariant
            i <= x.len(),
            x@.len() == y@.len(),
            x@ == a.spec_bytes(),
            y@ == b.spec_bytes(),
            forall|j: int| 0 <= j < i ==> x@[j] == y@[j],
        decreases x.len() - i,
    {
        if x[i] != y[i] {
            return false;
        }
        i += 1;
    }
    proof {
        assert(x@ =~= y@);
    }
    true
}

/// The characters of `v` from `lo` up to, not including, `hi`.
pub fn slice_of(v: &Vec<char>, lo: usize, hi: usize) -> (part: Vec<char>)
    requires
        lo <= hi <= v.len(),
    ensures
        part@ == v@.subrange(lo as int, hi as int),
{
    let mut part: Vec<char> = Vec::new();
    let mut i: usize = lo;
    while i < hi
        invariant
            lo <= i <= hi,
            hi <= v.len(),
            part@ == v@.subrange(lo as int, i as int),
        decreases hi - i,
    {
        part.push(v[i]);
        proof {
            assert(v@.subrange(lo as int, i as int).push(v@[i as int]) =~= v@.subrange(
                lo as int,
                i + 1,
            ));
        }
        i += 1;
    }
    part
}

/// Whether `needle` stands in `hay` at `at`.
pub fn matches_at(hay: &Vec<char>, needle: &Vec<char>, at: usize) -> (hit: bool)
    requires
        at + needle.len() <= hay.len(),
    ensures
        hit == occurs_at(hay@, needle@, at as int),
{
    let mut k: usize = 0;
    while k < needle.len()
        invariant
            k <= needle.len(),
            at + needle.len() <= hay.len(),
            forall|j: int| 0 <= j < k ==> hay@[at + j] == needle@[j],
        decreases needle.len() - k,
    {
        if hay[at + k] != needle[k] {
            proof {
                let window = hay@.subrange(at as int, at + needle.len());
                assert(window[k as int] == hay@[at + k]);
            }
            return false;
        }
        k += 1;
    }
    proof {
        assert(hay@.subrange(at as int, at + needle.len()) =~= needle@);
    }
    true
}

/// The first position at or after `from` where `needle` stands in `hay`.
pub fn find(hay: &Vec<char>, needle: &Vec<char>, from: usize) -> (found: Option<usize>)
    ensures
        match found {
            Some(at) => find_from(hay@, needle@, from as int) == Some(at as int),
            None => find_from(hay@, needle@, from as int) is None,
        },
{
    if needle.len() > hay.len() {
        return None;
    }
    let limit: usize = hay.len() - needle.len();
    let mut at: usize = from;
    while at <= limit
        invariant
            from <= at,
            limit == hay.len() - needle.len(),
            find_from(hay@, needle@, from as int) == find_from(hay@, needle@, at as int),
        decreases limit + 1 - at,
    {
        if matches_at(hay, needle, at) {
            return Some(at);
        }
        if at == limit {
            proof {
                assert(find_from(hay@, needle@, at + 1) is None);
            }
            return None;
        }
        at += 1;
    }
    None
}

/// What stands between the first `start` in `text` and the first `end`
/// after it.
pub fn extract(text: &Vec<char>, start: &Vec<char>, end: &Vec<char>) -> (value: Option<Vec<char>>)
    ensures
        match value {
            Some(v) => between(text@, start@, end@) == Some(v@),
            None => between(text@, start@, end@) is None,
        },
{
    match find(text, start, 0) {
        Some(at) => {
            proof {
                lemma_find_from_is_least(text@, start@, 0);
                assert(at + start.len() <= text.len());
            }
            let begin: usize = at + start.len();
            match find(text, end, begin) {
                Some(stop) => {
                    proof {
                        lemma_find_from_is_least(text@, end@, begin as int);
                    }
                    Some(slice_of(text, begin, stop))
                },
                None => None,
            }
        },
        None => None,
    }
}

/// What follows the last `sep` in `s`; the whole of `s` where it holds none.
pub fn final_segment(s: &Vec<char>, sep: char) -> (tail: Vec<char>)
    ensures
        tail@ == after_last(s@, sep),
{
    let mut start: usize = s.len();
    proof {
        assert(s@.take(start as int) =~= s@);
        assert(after_last(s@, sep) + s@.subrange(start as int, s.len() as int) =~= after_last(
            s@,
            sep,
        ));
    }
    while start > 0 && s[start - 1] != sep
        invariant
            start <= s.len(),
            after_last(s@, sep) == after_last(s@.take(start as int), sep) + s@.subrange(
                start as int,
                s.len() as int,
            ),
        decreases start,
    {
        proof {
            let head = s@.take(start as int);
            assert(head.last() == s@[start - 1]);
            assert(head.drop_last() =~= s@.take(start - 1));
            assert(after_last(s@.take(start - 1), sep).push(s@[start - 1]) + s@.subrange(
                start as int,
                s.len() as int,
            ) =~= after_last(s@.take(start - 1), sep) + s@.subrange(
                start - 1,
                s.len() as int,
            ));
        }
        start -= 1;
    }
    proof {
        let head = s@.take(start as int);
        if start > 0 {
            assert(head.last() == sep);
        }
        assert(after_last(head, sep) =~= Seq::<char>::empty());
        assert(Seq::<char>::empty() + s@.subrange(start as int, s.len() as int) =~= s@.subrange(
            start as int,
            s.len() as int,
        ));
    }
    slice_of(s, start, s.len())
}

/// The character that writes the digit `d`.
pub fn digit_of(d: u8) -> (c: char)
    requires
        d < 10,
    ensures
        c == digit_char(d as nat),
{
    if d == 0 {
        '0'
    } else if d == 1 {
        '1'
    } else if d == 2 {
        '2'
    } else if d == 3 {
        '3'
    } else if d == 4 {
        '4'
    } else if d == 5 {
        '5'
    } else if d == 6 {
        '6'
    } else if d == 7 {
        '7'
    } else if d == 8 {
        '8'
    } else {
        '9'
    }
}

/// The decimal numeral of `n`, without leading zeros.
pub fn decimal_chars(n: u64) -> (digits: Vec<char>)
    ensures
        digits@ == decimal(n as nat),
    decreases n,
{
    if n < 10 {
        let mut digits: Vec<char> = Vec::new();
        digits.push(digit_of(n as u8));
        proof {
            assert(digits@ =~= seq![digit_char(n as nat)]);
        }
        digits
    } else {
        let mut digits = decimal_chars(n / 10);
        digits.push(digit_of((n % 10) as u8));
        digits
    }
}

/// The decimal numeral of `n` as a string.
pub fn decimal_string(n: u64) -> (s: String)
    ensures
        s@ == decimal(n as nat),
{
    let digits = decimal_chars(n);
    string_of(&digits)
}

} // verus!
