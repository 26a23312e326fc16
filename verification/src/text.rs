//! Text handling shared by the form parsers.
//!
//! Everything here is stated over the sequence of characters of a string, its
//! view.  The executable functions walk the characters once and cut the
//! result out of the input.

use vstd::prelude::*;
use vstd::std_specs::iter::IteratorSpec;

verus! {

/// Whether a character is white space in the sense of Unicode's `White_Space`
/// property: the characters that trimming removes.
pub open spec fn is_whitespace(c: char) -> bool {
    let n = c as u32;
    ||| 0x09 <= n <= 0x0D
    ||| n == 0x20
    ||| n == 0x85
    ||| n == 0xA0
    ||| n == 0x1680
    ||| 0x2000 <= n <= 0x200A
    ||| n == 0x2028
    ||| n == 0x2029
    ||| n == 0x202F
    ||| n == 0x205F
    ||| n == 0x3000
}

/// How many white space characters a text starts with.
pub open spec fn leading_whitespace(s: Seq<char>) -> nat
    decreases s.len(),
{
    if s.len() > 0 && is_whitespace(s[0]) {
        1 + leading_whitespace(s.drop_first())
    } else {
        0
    }
}

/// How many white space characters a text ends with.
pub open spec fn trailing_whitespace(s: Seq<char>) -> nat
    decreases s.len(),
{
    if s.len() > 0 && is_whitespace(s.last()) {
        1 + trailing_whitespace(s.drop_last())
    } else {
        0
    }
}

/// A text without the white space it starts and ends with.
pub open spec fn trimmed(s: Seq<char>) -> Seq<char> {
    let rest = s.skip(leading_whitespace(s) as int);
    rest.take(rest.len() - trailing_whitespace(rest))
}

/// The position of the first occurrence of `c` in `s`, or the length of `s`
/// where there is none.
pub open spec fn first_index_of(s: Seq<char>, c: char) -> nat
    decreases s.len(),
{
    if s.len() == 0 || s[0] == c {
        0
    } else {
        1 + first_index_of(s.drop_first(), c)
    }
}

/// The pieces of a text between the occurrences of a separator.  A text with
/// `n` separators has `n + 1` pieces, some of which may be empty.
pub open spec fn split(s: Seq<char>, sep: char) -> Seq<Seq<char>>
    decreases s.len(),
{
    let i = first_index_of(s, sep) as int;
    if 0 <= i < s.len() {
        seq![s.take(i)] + split(s.skip(i + 1), sep)
    } else {
        seq![s]
    }
}

/// Whether a text begins with the given characters.
pub open spec fn starts_with(s: Seq<char>, prefix: Seq<char>) -> bool {
    prefix.len() <= s.len() && s.take(prefix.len() as int) == prefix
}

/// The value of a decimal digit.
pub open spec fn digit_value(c: char) -> Option<int> {
    if '0' <= c <= '9' {
        Some(c as u32 - '0' as u32)
    } else {
        None
    }
}

/// The number that a non-empty run of decimal digits writes, most significant
/// digit first.  `None` for the empty text and for one with any other
/// character in it.
pub open spec fn decimal_value(s: Seq<char>) -> Option<int>
    decreases s.len(),
{
    if s.len() == 0 {
        None
    } else {
        match digit_value(s.last()) {
            None => None,
            Some(d) => if s.len() == 1 {
                Some(d)
            } else {
                match decimal_value(s.drop_last()) {
                    None => None,
                    Some(v) => Some(v * 10 + d),
                }
            },
        }
    }
}

/// The number that a text writes in decimal: an optional sign, `+` or `-`,
/// then at least one digit and nothing else; `None` also where the number
/// does not fit into 32 bits.
pub open spec fn parsed_i32(s: Seq<char>) -> Option<i32> {
    let negative = s.len() > 0 && s[0] == '-';
    let signed = s.len() > 0 && (s[0] == '-' || s[0] == '+');
    let digits = if signed {
        s.drop_first()
    } else {
        s
    };
    match decimal_value(digits) {
        None => None,
        Some(v) => {
            let n = if negative {
                -v
            } else {
                v
            };
            if i32::MIN <= n <= i32::MAX {
                Some(n as i32)
            } else {
                None
            }
        },
    }
}

/// Counting leading white space can start behind any run of it.
pub proof fn lemma_leading_whitespace_step(s: Seq<char>, i: int)
    requires
        0 <= i <= s.len(),
        forall|k: int| 0 <= k < i ==> is_whitespace(#[trigger] s[k]),
    ensures
        leading_whitespace(s) == i + leading_whitespace(s.skip(i)),
    decreases i,
{
    if i == 0 {
        assert(s.skip(0) =~= s);
    } else {
        lemma_leading_whitespace_step(s.drop_first(), i - 1);
        assert(s.drop_first().skip(i - 1) =~= s.skip(i));
    }
}

/// Counting trailing white space can stop before any run of it.
pub proof fn lemma_trailing_whitespace_step(s: Seq<char>, j: int)
    requires
        0 <= j <= s.len(),
        forall|k: int| j <= k < s.len() ==> is_whitespace(#[trigger] s[k]),
    ensures
        trailing_whitespace(s) == (s.len() - j) + trailing_whitespace(s.take(j)),
    decreases s.len() - j,
{
    if j == s.len() {
        assert(s.take(j) =~= s);
    } else {
        lemma_trailing_whitespace_step(s.drop_last(), j);
        assert(s.drop_last().take(j) =~= s.take(j));
    }
}

/// What trimming leaves neither starts nor ends with white space, and it is
/// the input between its leading and its trailing white space.
pub proof fn law_trimmed_is_tight(s: Seq<char>)
    ensures
        leading_whitespace(trimmed(s)) == 0,
        trailing_whitespace(trimmed(s)) == 0,
        trimmed(s).len() <= s.len(),
        leading_whitespace(s) + trimmed(s).len() <= s.len(),
        trimmed(s) == s.subrange(
            leading_whitespace(s) as int,
            (leading_whitespace(s) + trimmed(s).len()) as int,
        ),
{
    lemma_leading_bound(s);
    let a = leading_whitespace(s) as int;
    let rest = s.skip(a);
    lemma_trailing_bound(rest);
    let b = trailing_whitespace(rest) as int;
    let t = trimmed(s);
    assert(t =~= s.subrange(a, a + t.len()));
    lemma_leading_stops(s);
    lemma_trailing_stops(rest);
    if t.len() > 0 {
        assert(t[0] == rest[0]);
        assert(t.last() == rest[rest.len() - b - 1]);
    }
}

/// The leading white space of a text is part of the text.
pub proof fn lemma_leading_bound(s: Seq<char>)
    ensures
        leading_whitespace(s) <= s.len(),
    decreases s.len(),
{
    if s.len() > 0 && is_whitespace(s[0]) {
        lemma_leading_bound(s.drop_first());
    }
}

/// The trailing white space of a text is part of the text.
pub proof fn lemma_trailing_bound(s: Seq<char>)
    ensures
        trailing_whitespace(s) <= s.len(),
    decreases s.len(),
{
    if s.len() > 0 && is_whitespace(s.last()) {
        lemma_trailing_bound(s.drop_last());
    }
}

/// Behind its leading white space a text is at its end or at a character that
/// is no white space.
pub proof fn lemma_leading_stops(s: Seq<char>)
    ensures
        leading_whitespace(s) <= s.len(),
        leading_whitespace(s) < s.len() ==> !is_whitespace(s[leading_whitespace(s) as int]),
        forall|k: int| 0 <= k < leading_whitespace(s) ==> is_whitespace(#[trigger] s[k]),
    decreases s.len(),
{
    if s.len() > 0 && is_whitespace(s[0]) {
        let r = s.drop_first();
        lemma_leading_stops(r);
        assert forall|k: int| 0 <= k < leading_whitespace(s) implies is_whitespace(
            #[trigger] s[k],
        ) by {
            if k > 0 {
                assert(s[k] == r[k - 1]);
            }
        }
    }
}

/// Before its trailing white space a text is at its start or at a character
/// that is no white space.
pub proof fn lemma_trailing_stops(s: Seq<char>)
    ensures
        trailing_whitespace(s) <= s.len(),
        trailing_whitespace(s) < s.len() ==> !is_whitespace(
            s[s.len() - trailing_whitespace(s) - 1],
        ),
        forall|k: int|
            s.len() - trailing_whitespace(s) <= k < s.len() ==> is_whitespace(#[trigger] s[k]),
    decreases s.len(),
{
    if s.len() > 0 && is_whitespace(s.last()) {
        let r = s.drop_last();
        lemma_trailing_stops(r);
        assert forall|k: int|
            s.len() - trailing_whitespace(s) <= k < s.len() implies is_whitespace(
            #[trigger] s[k],
        ) by {
            if k < s.len() - 1 {
                assert(s[k] == r[k]);
            }
        }
    }
}

/// A position is the first occurrence of a character if the character is
/// there, or the text ends there, and it is nowhere before.
pub proof fn lemma_first_index_of_unique(s: Seq<char>, c: char, i: int)
    requires
        0 <= i <= s.len(),
        i < s.len() ==> s[i] == c,
        forall|k: int| 0 <= k < i ==> #[trigger] s[k] != c,
    ensures
        first_index_of(s, c) == i,
    decreases i,
{
    if i > 0 {
        let r = s.drop_first();
        assert forall|k: int| 0 <= k < i - 1 implies #[trigger] r[k] != c by {
            assert(r[k] == s[k + 1]);
        }
        lemma_first_index_of_unique(r, c, i - 1);
    }
}

/// A run of digits that is extended by digits writes a number that is no
/// smaller.
pub proof fn lemma_decimal_value_grows(s: Seq<char>, n: int)
    requires
        1 <= n <= s.len(),
        decimal_value(s) is Some,
    ensures
        decimal_value(s.take(n)) is Some,
        0 <= decimal_value(s.take(n))->0 <= decimal_value(s)->0,
    decreases s.len(),
{
    if n == s.len() {
        assert(s.take(n) =~= s);
        lemma_decimal_value_nonnegative(s);
    } else {
        let r = s.drop_last();
        lemma_decimal_value_grows(r, n);
        assert(r.take(n) =~= s.take(n));
    }
}

/// No run of digits writes a negative number.
pub proof fn lemma_decimal_value_nonnegative(s: Seq<char>)
    requires
        decimal_value(s) is Some,
    ensures
        decimal_value(s)->0 >= 0,
    decreases s.len(),
{
    if s.len() > 1 {
        lemma_decimal_value_nonnegative(s.drop_last());
    }
}

/// A text with a character that is no digit writes no number.
pub proof fn lemma_decimal_value_needs_digits(s: Seq<char>, k: int)
    requires
        0 <= k < s.len(),
        digit_value(s[k]) is None,
    ensures
        decimal_value(s) is None,
    decreases s.len(),
{
    if k < s.len() - 1 {
        lemma_decimal_value_needs_digits(s.drop_last(), k);
    }
}

/// Tells whether a character is white space.
pub fn char_is_whitespace(c: char) -> (b: bool)
    ensures
        b == is_whitespace(c),
{
    let n: u32 = c as u32;
    (0x09 <= n && n <= 0x0D) || n == 0x20 || n == 0x85 || n == 0xA0 || n == 0x1680 || (0x2000 <= n
        && n <= 0x200A) || n == 0x2028 || n == 0x2029 || n == 0x202F || n == 0x205F || n == 0x3000
}

/// The characters of a string slice, in order.
pub fn chars_of(s: &str) -> (v: Vec<char>)
    ensures
        v@ == s@,
{
    let mut v: Vec<char> = Vec::new();
    for c in it: s.chars()
        invariant
            v@ == it.seq().take(it.index()),
            it.seq() == s@,
    {
        v.push(c);
    }
    v
}

/// Compares two string slices by their characters.
pub fn str_eq(a: &str, b: &str) -> (same: bool)
    ensures
        same == (a@ == b@),
{
    let x = a.to_owned();
    let y = b.to_owned();
    x == y
}

/// Where the text between two positions starts and ends once its leading and
/// trailing white space is left out.
fn trim_bounds(cs: &Vec<char>, from: usize, to: usize) -> (bounds: (usize, usize))
    requires
        from <= to <= cs.len(),
    ensures
        from <= bounds.0 <= bounds.1 <= to,
        cs@.subrange(bounds.0 as int, bounds.1 as int) == trimmed(
            cs@.subrange(from as int, to as int),
        ),
{
    let ghost s = cs@.subrange(from as int, to as int);
    let mut i: usize = from;
    while i < to && char_is_whitespace(cs[i])
        invariant
            from <= i <= to <= cs.len(),
            s == cs@.subrange(from as int, to as int),
            forall|k: int| 0 <= k < i - from ==> is_whitespace(#[trigger] s[k]),
        decreases to - i,
    {
        i += 1;
    }
    proof {
        lemma_leading_whitespace_step(s, i - from);
        let rest = s.skip(i - from);
        assert(rest =~= cs@.subrange(i as int, to as int));
        assert(leading_whitespace(rest) == 0);
    }
    let ghost rest = s.skip(i - from);
    let mut j: usize = to;
    while j > i && char_is_whitespace(cs[j - 1])
        invariant
            from <= i <= j <= to <= cs.len(),
            rest == cs@.subrange(i as int, to as int),
            forall|k: int| j - i <= k < to - i ==> is_whitespace(#[trigger] rest[k]),
        decreases j,
    {
        j -= 1;
    }
    proof {
        lemma_trailing_whitespace_step(rest, j - i);
        let kept = rest.take(j - i);
        assert(kept =~= cs@.subrange(i as int, j as int));
        assert(trailing_whitespace(kept) == 0);
    }
    (i, j)
}

/// Removes the white space that a string starts and ends with.
pub fn trim(s: &str) -> (t: String)
    ensures
        t@ == trimmed(s@),
{
    let cs = chars_of(s);
    let (i, j) = trim_bounds(&cs, 0, cs.len());
    proof {
        assert(cs@.subrange(0, cs.len() as int) =~= s@);
    }
    s.substring_char(i, j).to_owned()
}

/// Cuts a string at each occurrence of a separator and trims the pieces.
pub fn split_trimmed(s: &str, sep: char) -> (pieces: Vec<String>)
    ensures
        pieces@.len() == split(s@, sep).len(),
        forall|k: int|
            0 <= k < pieces@.len() ==> (#[trigger] pieces@[k])@ == trimmed(split(s@, sep)[k]),
{
    let cs = chars_of(s);
    let n = cs.len();
    let mut pieces: Vec<String> = Vec::new();
    let mut start: usize = 0;
    let mut i: usize = 0;
    proof {
        assert(cs@.skip(0) =~= s@);
    }
    while i < n
        invariant
            cs@ == s@,
            n == cs.len(),
            start <= i <= n,
            forall|k: int| start <= k < i ==> #[trigger] cs@[k] != sep,
            split(s@, sep).len() == pieces@.len() + split(cs@.skip(start as int), sep).len(),
            forall|k: int|
                0 <= k < pieces@.len() ==> (#[trigger] pieces@[k])@ == trimmed(split(s@, sep)[k]),
            forall|k: int|
                0 <= k < split(cs@.skip(start as int), sep).len() ==> split(s@, sep)[pieces@.len()
                    + k] == #[trigger] split(cs@.skip(start as int), sep)[k],
        decreases n - i,
    {
        if cs[i] == sep {
            let (a, b) = trim_bounds(&cs, start, i);
            let piece = s.substring_char(a, b).to_owned();
            proof {
                let tail = cs@.skip(start as int);
                assert forall|k: int| 0 <= k < i - start implies #[trigger] tail[k] != sep by {
                    assert(tail[k] == cs@[start + k]);
                }
                lemma_first_index_of_unique(tail, sep, i - start);
                assert(tail.take(i - start) =~= cs@.subrange(start as int, i as int));
                assert(tail.skip(i - start + 1) =~= cs@.skip(i + 1));
                let later = split(cs@.skip(i + 1), sep);
                assert(split(tail, sep) == seq![tail.take(i - start)] + later);
                assert(split(tail, sep)[0] == tail.take(i - start));
                assert forall|k: int| 0 <= k < later.len() implies split(s@, sep)[pieces@.len() + 1
                    + k] == #[trigger] later[k] by {
                    assert(split(tail, sep)[k + 1] == later[k]);
                }
            }
            pieces.push(piece);
            start = i + 1;
        }
        i += 1;
    }
    let (a, b) = trim_bounds(&cs, start, n);
    let piece = s.substring_char(a, b).to_owned();
    proof {
        let tail = cs@.skip(start as int);
        assert forall|k: int| 0 <= k < n - start implies #[trigger] tail[k] != sep by {
            assert(tail[k] == cs@[start + k]);
        }
        lemma_first_index_of_unique(tail, sep, n - start);
        assert(tail =~= cs@.subrange(start as int, n as int));
        assert(split(tail, sep) == seq![tail]);
        assert(split(tail, sep)[0] == tail);
    }
    pieces.push(piece);
    pieces
}

/// Tells whether a string begins with the given characters.
pub fn str_starts_with(s: &str, prefix: &str) -> (b: bool)
    ensures
        b == starts_with(s@, prefix@),
{
    let cs = chars_of(s);
    let ps = chars_of(prefix);
    if ps.len() > cs.len() {
        return false;
    }
    let mut i: usize = 0;
    while i < ps.len()
        invariant
            ps.len() <= cs.len(),
            cs@ == s@,
            ps@ == prefix@,
            i <= ps.len(),
            forall|k: int| 0 <= k < i ==> cs@[k] == ps@[k],
        decreases ps.len() - i,
    {
        if cs[i] != ps[i] {
            proof {
                assert(s@.take(prefix@.len() as int)[i as int] != prefix@[i as int]);
            }
            return false;
        }
        i += 1;
    }
    proof {
        assert(s@.take(prefix@.len() as int) =~= prefix@);
    }
    true
}

/// Reads a 32-bit integer written in decimal.
pub fn parse_i32(s: &str) -> (n: Option<i32>)
    ensures
        n == parsed_i32(s@),
{
    let cs = chars_of(s);
    let len = cs.len();
    let negative = len > 0 && cs[0] == '-';
    let signed = len > 0 && (cs[0] == '-' || cs[0] == '+');
    let first: usize = if signed {
        1
    } else {
        0
    };
    let ghost digits = if signed {
        s@.drop_first()
    } else {
        s@
    };
    if first == len {
        return None;
    }
    proof {
        assert(s@.skip(0) =~= s@);
    }
    let mut value: i64 = 0;
    let mut i: usize = first;
    while i < len
        invariant
            cs@ == s@,
            len == cs.len(),
            first <= i <= len,
            first < len,
            negative == (s@.len() > 0 && s@[0] == '-'),
            signed == (s@.len() > 0 && (s@[0] == '-' || s@[0] == '+')),
            digits == if signed {
                s@.drop_first()
            } else {
                s@
            },
            digits == s@.skip(first as int),
            0 <= value <= 2147483648,
            i > first ==> decimal_value(digits.take(i - first)) == Some(value as int),
            i == first ==> value == 0,
        decreases len - i,
    {
        let c = cs[i];
        if !('0' <= c && c <= '9') {
            proof {
                assert(digits[i - first] == c);
                lemma_decimal_value_needs_digits(digits, i - first);
            }
            return None;
        }
        let d: i64 = (c as u32 - '0' as u32) as i64;
        let next: i64 = value * 10 + d;
        proof {
            let upto = digits.take(i - first + 1);
            assert(upto.last() == c);
            assert(upto.drop_last() =~= digits.take(i - first));
            assert(decimal_value(upto) == Some(next as int));
        }
        if next > 2147483648 {
            proof {
                if decimal_value(digits) is Some {
                    lemma_decimal_value_grows(digits, i - first + 1);
                }
            }
            return None;
        }
        value = next;
        i += 1;
    }
    proof {
        assert(digits.take(len - first) =~= digits);
    }
    if negative {
        Some((-value) as i32)
    } else if value == 2147483648 {
        None
    } else {
        Some(value as i32)
    }
}

/// A copy of an optional string.
pub fn copy_opt(field: &Option<String>) -> (copy: Option<String>)
    ensures
        copy == *field,
{
    match field {
        Some(text) => Some(text.clone()),
        None => None,
    }
}

/// A copy of an optional string without the white space around it.
pub fn trim_opt(field: &Option<String>) -> (copy: Option<String>)
    ensures
        copy is Some == field is Some,
        field matches Some(text) ==> copy->0@ == trimmed(text@),
{
    match field {
        Some(text) => Some(trim(text.as_str())),
        None => None,
    }
}

/// A copy of a list of strings.
pub fn copy_strings(list: &Vec<String>) -> (copy: Vec<String>)
    ensures
        copy@ == list@,
{
    let mut copy: Vec<String> = Vec::new();
    let mut i: usize = 0;
    while i < list.len()
        invariant
            i <= list.len(),
            copy@ == list@.take(i as int),
        decreases list.len() - i,
    {
        copy.push(list[i].clone());
        proof {
            assert(copy@ =~= list@.take(i + 1));
        }
        i += 1;
    }
    proof {
        assert(list@.take(list.len() as int) =~= list@);
    }
    copy
}

} // verus!
