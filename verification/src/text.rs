//! Text helpers shared by the framer and the rules: characters of a string,
//! whitespace, lines, substrings and decimal numbers.

use vstd::prelude::*;
use vstd::string::StringSliceAdditionalSpecFns;
use vstd::utf8::*;

verus! {

/// `String::push` of the standard library appends one character.
pub assume_specification[ std::string::String::push ](s: &mut std::string::String, c: char)
    ensures
        final(s)@ == old(s)@.push(c),
;

/// `std::str::from_utf8` accepts exactly the well-formed UTF-8 byte
/// sequences and returns the text they encode.
#[verifier::external_body]
pub(crate) fn str_from_utf8(bytes: &[u8]) -> (r: Option<&str>)
    ensures
        r is Some <==> valid_utf8(bytes@),
        r matches Some(s) ==> s@ == decode_utf8(bytes@),
{
    std::str::from_utf8(bytes).ok()
}

/// Whether two strings hold the same characters.
pub fn str_eq(a: &str, b: &str) -> (r: bool)
    ensures
        r == (a@ == b@),
{
    let x = a.as_bytes();
    let y = b.as_bytes();
    proof {
        encode_utf8_decode_utf8(a@);
        encode_utf8_decode_utf8(b@);
    }
    if x.len() != y.len() {
        return false;
    }
    let mut i: usize = 0;
    while i < x.len()
        invariant
            x@.len() == y@.len(),
            i <= x@.len(),
            forall|j: int| 0 <= j < i ==> x@[j] == y@[j],
            x@ == a.spec_bytes(),
            y@ == b.spec_bytes(),
            decode_utf8(encode_utf8(a@)) == a@,
            decode_utf8(encode_utf8(b@)) == b@,
        decreases x@.len() - i,
    {
        if x[i] != y[i] {
            return false;
        }
        i += 1;
    }
    assert(x@ =~= y@);
    true
}

/// The characters of a string, in order.
pub fn chars_of(s: &str) -> (v: Vec<char>)
    ensures
        v@ == s@,
{
    let mut v: Vec<char> = Vec::new();
    for c in it: s.chars()
        invariant
            it.seq() == s@,
            v@ =~= it.seq().take(it.index()),
    {
        v.push(c);
    }
    assert(v@ =~= s@);
    v
}

/// The string made of the characters `chars[from..to]`.
pub fn string_of(chars: &[char], from: usize, to: usize) -> (s: String)
    requires
        from <= to <= chars@.len(),
    ensures
        s@ == chars@.subrange(from as int, to as int),
{
    let mut s = String::new();
    let mut i: usize = from;
    while i < to
        invariant
            from <= i <= to <= chars@.len(),
            s@ == chars@.subrange(from as int, i as int),
        decreases to - i,
    {
        s.push(chars[i]);
        i += 1;
        assert(chars@.subrange(from as int, i as int) =~= chars@.subrange(
            from as int,
            i - 1,
        ).push(chars@[i - 1]));
    }
    s
}

/// The string made of all of `chars`.
pub fn string_of_all(chars: &[char]) -> (s: String)
    ensures
        s@ == chars@,
{
    let s = string_of(chars, 0, chars.len());
    assert(chars@.subrange(0, chars@.len() as int) =~= chars@);
    s
}

/// Whether `c` is white space: a character with the Unicode property
/// `White_Space`.
pub open spec fn is_whitespace(c: char) -> bool {
    let n = c as u32;
    ||| 0x09 <= n <= 0x0D
    ||| n == 0x20
    ||| n == 0x85
    ||| n == 0xA0
    ||| n == 0x1680
    ||| 0x2000 <= n <= 0x200A
    ||| n == 0x2028
    ||| n == 0x2029
    ||| n == 0x202F
    ||| n == 0x205F
    ||| n == 0x3000
}

/// Tests `c` for white space.
pub fn char_is_whitespace(c: char) -> (r: bool)
    ensures
        r == is_whitespace(c),
{
    let n: u32 = c as u32;
    (0x09 <= n && n <= 0x0D) || n == 0x20 || n == 0x85 || n == 0xA0 || n == 0x1680 || (0x2000 <= n
        && n <= 0x200A) || n == 0x2028 || n == 0x2029 || n == 0x202F || n == 0x205F || n == 0x3000
}

/// `s` without its leading white space.
pub open spec fn trim_start(s: Seq<char>) -> Seq<char>
    decreases s.len(),
{
    if s.len() > 0 && is_whitespace(s[0]) {
        trim_start(s.skip(1))
    } else {
        s
    }
}

/// `s` without its trailing white space.
pub open spec fn trim_end(s: Seq<char>) -> Seq<char>
    decreases s.len(),
{
    if s.len() > 0 && is_whitespace(s.last()) {
        trim_end(s.drop_last())
    } else {
        s
    }
}

/// `s` without its leading and trailing white space.
pub open spec fn trim(s: Seq<char>) -> Seq<char> {
    trim_end(trim_start(s))
}

/// The index at which `trim_start(chars[from..to])` begins.
pub fn trim_start_index(chars: &[char], from: usize, to: usize) -> (i: usize)
    requires
        from <= to <= chars@.len(),
    ensures
        from <= i <= to,
        chars@.subrange(i as int, to as int) == trim_start(chars@.subrange(from as int, to as int)),
{
    let mut i: usize = from;
    while i < to && char_is_whitespace(chars[i])
        invariant
            from <= i <= to <= chars@.len(),
            trim_start(chars@.subrange(i as int, to as int)) == trim_start(
                chars@.subrange(from as int, to as int),
            ),
        decreases to - i,
    {
        assert(chars@.subrange(i as int, to as int).skip(1) =~= chars@.subrange(
            i + 1,
            to as int,
        ));
        i += 1;
    }
    i
}

/// The index at which `trim_end(chars[from..to])` ends.
pub fn trim_end_index(chars: &[char], from: usize, to: usize) -> (j: usize)
    requires
        from <= to <= chars@.len(),
    ensures
        from <= j <= to,
        chars@.subrange(from as int, j as int) == trim_end(chars@.subrange(from as int, to as int)),
{
    let mut j: usize = to;
    while from < j && char_is_whitespace(chars[j - 1])
        invariant
            from <= j <= to <= chars@.len(),
            trim_end(chars@.subrange(from as int, j as int)) == trim_end(
                chars@.subrange(from as int, to as int),
            ),
        decreases j - from,
    {
        assert(chars@.subrange(from as int, j as int).drop_last() =~= chars@.subrange(
            from as int,
            j - 1,
        ));
        j -= 1;
    }
    j
}

/// Whether `chars[from..to]` begins with `prefix`.
pub fn starts_with_at(chars: &[char], from: usize, to: usize, prefix: &[char]) -> (r: bool)
    requires
        from <= to <= chars@.len(),
    ensures
        r == prefix@.is_prefix_of(chars@.subrange(from as int, to as int)),
{
    if prefix.len() > to - from {
        return false;
    }
    let mut k: usize = 0;
    while k < prefix.len()
        invariant
            from <= to <= chars@.len(),
            prefix@.len() <= to - from,
            k <= prefix@.len(),
            forall|j: int| 0 <= j < k ==> prefix@[j] == chars@[from + j],
        decreases prefix@.len() - k,
    {
        if prefix[k] != chars[from + k] {
            assert(chars@.subrange(from as int, to as int).subrange(0, prefix@.len() as int)[k as int]
                == chars@[from + k]);
            return false;
        }
        k += 1;
    }
    assert(prefix@ =~= chars@.subrange(from as int, to as int).subrange(0, prefix@.len() as int));
    true
}

/// The character that writes the digit `d`.
pub open spec fn digit_char(d: int) -> char {
    (48 + d) as char
}

/// Whether `c` is one of the ten decimal digits.
pub open spec fn is_digit(c: char) -> bool {
    '0' <= c <= '9'
}

/// The number that the digit `c` stands for.
pub open spec fn digit_of(c: char) -> int {
    c as int - 48
}

/// The decimal numeral of `n`, without sign or leading zeros.
pub open spec fn decimal(n: nat) -> Seq<char>
    decreases n,
{
    if n < 10 {
        seq![digit_char(n as int)]
    } else {
        decimal(n / 10).push(digit_char((n % 10) as int))
    }
}

/// The number written by a sequence of decimal digits; `None` where a
/// character is no digit. The empty sequence writes zero.
pub open spec fn digits_value(s: Seq<char>) -> Option<nat>
    decreases s.len(),
{
    if s.len() == 0 {
        Some(0nat)
    } else if !is_digit(s.last()) {
        None
    } else {
        match digits_value(s.drop_last()) {
            Some(v) => Some((v * 10 + digit_of(s.last())) as nat),
            None => None,
        }
    }
}

/// The unsigned number that `s` writes: an optional `+`, then one or more
/// decimal digits, whose value fits the machine word. Anything else, white
/// space included, is no number.
pub open spec fn parse_usize(s: Seq<char>) -> Option<usize> {
    let digits = if s.len() > 0 && s[0] == '+' {
        s.skip(1)
    } else {
        s
    };
    if digits.len() == 0 {
        None
    } else {
        match digits_value(digits) {
            Some(v) => if v <= usize::MAX {
                Some(v as usize)
            } else {
                None
            },
            None => None,
        }
    }
}

/// A numeral's prefixes write numbers that are no larger than the numeral's.
pub proof fn lemma_digits_prefix(s: Seq<char>, i: int)
    requires
        0 <= i <= s.len(),
        digits_value(s) is Some,
    ensures
        digits_value(s.take(i)) is Some,
        digits_value(s.take(i))->0 <= digits_value(s)->0,
    decreases s.len(),
{
    if i == s.len() {
        assert(s.take(i) =~= s);
    } else {
        assert(s.drop_last().take(i) =~= s.take(i));
        lemma_digits_prefix(s.drop_last(), i);
    }
}

/// The numeral of `n` consists of digits and writes `n`.
pub proof fn lemma_decimal_digits(n: nat)
    ensures
        decimal(n).len() >= 1,
        forall|i: int| 0 <= i < decimal(n).len() ==> is_digit(#[trigger] decimal(n)[i]),
        digits_value(decimal(n)) == Some(n),
    decreases n,
{
    if n < 10 {
        let s = decimal(n);
        assert(s.drop_last() =~= Seq::<char>::empty());
        assert(digits_value(s.drop_last()) == Some(0nat));
    } else {
        lemma_decimal_digits(n / 10);
        let s = decimal(n);
        assert(s.drop_last() =~= decimal(n / 10));
        assert(s.last() == digit_char((n % 10) as int));
    }
}

/// Parsing the numeral of `n` gives `n` back.
pub proof fn lemma_parse_decimal(n: nat)
    requires
        n <= usize::MAX,
    ensures
        parse_usize(decimal(n)) == Some(n as usize),
{
    lemma_decimal_digits(n);
    assert(is_digit(decimal(n)[0]));
}

/// Appends the decimal numeral of `n` to `out`.
pub fn push_decimal(out: &mut Vec<char>, n: usize)
    ensures
        final(out)@ == old(out)@ + decimal(n as nat),
    decreases n,
{
    if n >= 10 {
        push_decimal(out, n / 10);
    }
    let d: u8 = (n % 10) as u8;
    out.push((48u8 + d) as char);
    assert(final(out)@ =~= old(out)@ + decimal(n as nat));
}

/// The decimal numeral of `n`.
pub fn decimal_string(n: usize) -> (s: String)
    ensures
        s@ == decimal(n as nat),
{
    let mut digits: Vec<char> = Vec::new();
    push_decimal(&mut digits, n);
    assert(digits@ =~= decimal(n as nat));
    string_of_all(digits.as_slice())
}

/// Reads `chars[from..to]` as an unsigned number.
pub fn parse_usize_at(chars: &[char], from: usize, to: usize) -> (r: Option<usize>)
    requires
        from <= to <= chars@.len(),
    ensures
        r == parse_usize(chars@.subrange(from as int, to as int)),
{
    let ghost whole = chars@.subrange(from as int, to as int);
    let mut i: usize = from;
    if i < to && chars[i] == '+' {
        i += 1;
    }
    if i == to {
        return None;
    }
    let start: usize = i;
    let ghost digits = chars@.subrange(start as int, to as int);
    assert(digits =~= if whole.len() > 0 && whole[0] == '+' {
        whole.skip(1)
    } else {
        whole
    });
    let mut value: usize = 0;
    while i < to
        invariant
            start <= i <= to <= chars@.len(),
            from <= start < to,
            whole == chars@.subrange(from as int, to as int),
            digits == chars@.subrange(start as int, to as int),
            digits == if whole.len() > 0 && whole[0] == '+' {
                whole.skip(1)
            } else {
                whole
            },
            digits_value(digits.take(i - start)) == Some(value as nat),
        decreases to - i,
    {
        let c = chars[i];
        let ghost next = digits.take(i - start + 1);
        proof {
            assert(next.drop_last() =~= digits.take(i - start));
            assert(next.last() == c);
            if digits_value(digits) is Some {
                lemma_digits_prefix(digits, i - start + 1);
            }
        }
        if !('0' <= c && c <= '9') {
            return None;
        }
        let d: usize = (c as u32 - 48) as usize;
        let grown = match value.checked_mul(10) {
            Some(v) => v.checked_add(d),
            None => None,
        };
        match grown {
            Some(v) => {
                value = v;
            },
            None => {
                return None;
            },
        }
        i += 1;
    }
    assert(digits.take(i - start) =~= digits);
    Some(value)
}

/// The index of the first line feed of `s`, or the length of `s` where it
/// has none.
pub open spec fn first_line_feed(s: Seq<char>) -> int
    decreases s.len(),
{
    if s.len() == 0 || s[0] == '\n' {
        0
    } else {
        1 + first_line_feed(s.skip(1))
    }
}

/// `l` without one carriage return at its end.
pub open spec fn strip_cr(l: Seq<char>) -> Seq<char> {
    if l.len() > 0 && l.last() == '\r' {
        l.drop_last()
    } else {
        l
    }
}

/// The lines of `s`. A line ends at a line feed, or at a carriage return
/// directly before a line feed; the line endings are not part of the lines.
/// A last line need not have a line ending, and the empty text has no line.
pub open spec fn lines_of(s: Seq<char>) -> Seq<Seq<char>>
    decreases s.len(),
{
    if s.len() == 0 {
        Seq::empty()
    } else {
        let i = first_line_feed(s);
        if i < 0 || i >= s.len() {
            seq![s]
        } else {
            seq![strip_cr(s.take(i))] + lines_of(s.skip(i + 1))
        }
    }
}

/// Where no line feed stands before `k`, and one stands at `k` or `s` ends
/// there, the first line feed is at `k`.
pub proof fn lemma_first_line_feed(s: Seq<char>, k: int)
    requires
        0 <= k <= s.len(),
        forall|j: int| 0 <= j < k ==> s[j] != '\n',
        k == s.len() || s[k] == '\n',
    ensures
        first_line_feed(s) == k,
    decreases k,
{
    if k > 0 {
        let t = s.skip(1);
        assert forall|j: int| 0 <= j < k - 1 implies t[j] != '\n' by {
            assert(t[j] == s[j + 1]);
        }
        lemma_first_line_feed(t, k - 1);
    }
}

/// The lines of a text, as strings.
pub fn split_lines(content: &str) -> (lines: Vec<String>)
    ensures
        lines.deep_view() == lines_of(content@),
        forall|k: int|
            0 <= k < lines@.len() ==> encode_utf8((#[trigger] lines@[k])@).len() <= encode_utf8(
                content@,
            ).len(),
{
    let chars = chars_of(content);
    let n = chars.len();
    let mut lines: Vec<String> = Vec::new();
    let mut pos: usize = 0;
    assert(chars@.skip(0) =~= chars@);
    assert(lines.deep_view() =~= Seq::<Seq<char>>::empty());
    assert(lines.deep_view() + lines_of(chars@.skip(0)) =~= lines_of(chars@));
    while pos < n
        invariant
            pos <= n,
            n == chars@.len(),
            chars@ == content@,
            lines.deep_view() + lines_of(chars@.skip(pos as int)) == lines_of(chars@),
            forall|k: int|
                0 <= k < lines@.len() ==> encode_utf8((#[trigger] lines@[k])@).len() <= encode_utf8(
                    content@,
                ).len(),
        decreases n - pos,
    {
        let ghost rest = chars@.skip(pos as int);
        let mut i: usize = pos;
        while i < n && chars[i] != '\n'
            invariant
                pos <= i <= n,
                n == chars@.len(),
                forall|j: int| pos <= j < i ==> chars@[j] != '\n',
            decreases n - i,
        {
            i += 1;
        }
        proof {
            assert forall|j: int| 0 <= j < i - pos implies rest[j] != '\n' by {
                assert(rest[j] == chars@[pos + j]);
            }
            lemma_first_line_feed(rest, i - pos);
        }
        let ghost before = lines.deep_view();
        if i == n {
            let line = string_of(chars.as_slice(), pos, n);
            lines.push(line);
            proof {
                lemma_part_is_shorter(chars@, pos as int, n as int);
                assert(chars@.subrange(pos as int, n as int) =~= rest);
                assert(lines_of(rest) =~= seq![rest]);
                assert(lines.deep_view() =~= before.push(rest));
                assert(chars@.skip(n as int).len() == 0);
                assert(lines.deep_view() + lines_of(chars@.skip(n as int)) =~= before + lines_of(rest));
            }
            pos = n;
        } else {
            let end = if i > pos && chars[i - 1] == '\r' {
                i - 1
            } else {
                i
            };
            let line = string_of(chars.as_slice(), pos, end);
            lines.push(line);
            proof {
                lemma_part_is_shorter(chars@, pos as int, end as int);
                let first = rest.take(i - pos);
                assert(first =~= chars@.subrange(pos as int, i as int));
                assert(strip_cr(first) =~= chars@.subrange(pos as int, end as int));
                assert(rest.skip(i - pos + 1) =~= chars@.skip(i + 1));
                assert(lines_of(rest) =~= seq![strip_cr(first)] + lines_of(chars@.skip(i + 1)));
                assert(lines.deep_view() =~= before.push(strip_cr(first)));
                assert(lines.deep_view() + lines_of(chars@.skip(i + 1)) =~= before + lines_of(rest));
            }
            pos = i + 1;
        }
    }
    assert(chars@.skip(pos as int).len() == 0);
    assert(lines.deep_view() + lines_of(chars@.skip(pos as int)) =~= lines.deep_view());
    lines
}

/// Whether `p` occurs in `s` as a run of consecutive characters.
pub open spec fn contains(s: Seq<char>, p: Seq<char>) -> bool {
    exists|i: int| 0 <= i <= s.len() - p.len() && #[trigger] s.subrange(i, i + p.len()) == p
}

/// Whether `pattern` occurs in `chars`.
pub fn contains_chars(chars: &[char], pattern: &[char]) -> (r: bool)
    ensures
        r == contains(chars@, pattern@),
{
    let n = chars.len();
    let m = pattern.len();
    if m > n {
        return false;
    }
    let mut i: usize = 0;
    while i <= n - m
        invariant
            m <= n,
            n == chars@.len(),
            m == pattern@.len(),
            i <= n - m + 1,
            forall|j: int| 0 <= j < i ==> #[trigger] chars@.subrange(j, j + m) != pattern@,
        decreases n - m + 1 - i,
    {
        if starts_with_at(chars, i, n, pattern) {
            assert(chars@.subrange(i as int, n as int).subrange(0, m as int) =~= chars@.subrange(
                i as int,
                i + m,
            ));
            return true;
        }
        assert(chars@.subrange(i as int, n as int).subrange(0, m as int) =~= chars@.subrange(
            i as int,
            i + m,
        ));
        i += 1;
    }
    false
}

/// Whether `chars[from..to]` ends with `suffix`.
pub fn ends_with_at(chars: &[char], from: usize, to: usize, suffix: &[char]) -> (r: bool)
    requires
        from <= to <= chars@.len(),
    ensures
        r == suffix@.is_suffix_of(chars@.subrange(from as int, to as int)),
{
    let m = suffix.len();
    if m > to - from {
        return false;
    }
    let ghost whole = chars@.subrange(from as int, to as int);
    let r = starts_with_at(chars, to - m, to, suffix);
    proof {
        let tail = chars@.subrange(to - m, to as int);
        assert(tail.subrange(0, m as int) =~= tail);
        assert(whole.subrange(whole.len() - m, whole.len() as int) =~= tail);
    }
    r
}

/// Encoding a concatenation concatenates the encodings.
pub proof fn lemma_encode_utf8_concat(a: Seq<char>, b: Seq<char>)
    ensures
        encode_utf8(a + b) == encode_utf8(a) + encode_utf8(b),
    decreases a.len(),
{
    if a.len() == 0 {
        assert(a + b =~= b);
        assert(encode_utf8(a) + encode_utf8(b) =~= encode_utf8(b));
    } else {
        assert((a + b).drop_first() =~= a.drop_first() + b);
        lemma_encode_utf8_concat(a.drop_first(), b);
        assert(encode_utf8(a + b) =~= encode_utf8(a) + encode_utf8(b));
    }
}

/// A part of a text takes no more bytes than the text.
pub proof fn lemma_part_is_shorter(s: Seq<char>, from: int, to: int)
    requires
        0 <= from <= to <= s.len(),
    ensures
        encode_utf8(s.subrange(from, to)).len() <= encode_utf8(s).len(),
{
    let a = s.subrange(0, from);
    let b = s.subrange(from, to);
    let c = s.subrange(to, s.len() as int);
    assert(s =~= (a + b) + c);
    lemma_encode_utf8_concat(a + b, c);
    lemma_encode_utf8_concat(a, b);
}

/// Whether `Char::is_uppercase` holds of `c`: the Unicode property
/// `Uppercase`.
pub uninterp spec fn char_is_uppercase(c: char) -> bool;

/// The upper-case form of `c` that `char::to_uppercase` yields: one
/// character or more.
pub uninterp spec fn char_upper_form(c: char) -> Seq<char>;

/// The lower-case form of `c` that `char::to_lowercase` yields: one
/// character or more.
pub uninterp spec fn char_lower_form(c: char) -> Seq<char>;

/// The first character of the upper-case form of `c`.
pub open spec fn char_upper(c: char) -> char {
    char_upper_form(c)[0]
}

/// The first character of the lower-case form of `c`.
pub open spec fn char_lower(c: char) -> char {
    char_lower_form(c)[0]
}

/// `char::is_uppercase` of the standard library.
#[verifier::external_body]
pub(crate) fn is_uppercase(c: char) -> (r: bool)
    ensures
        r == char_is_uppercase(c),
{
    c.is_uppercase()
}

/// `char::to_uppercase` of the standard library: the characters it
/// yields, of which there is at least one.
#[verifier::external_body]
pub(crate) fn upper_form(c: char) -> (r: Vec<char>)
    ensures
        r@ == char_upper_form(c),
        r@.len() >= 1,
{
    c.to_uppercase().collect()
}

/// `char::to_lowercase` of the standard library: the characters it
/// yields, of which there is at least one.
#[verifier::external_body]
pub(crate) fn lower_form(c: char) -> (r: Vec<char>)
    ensures
        r@ == char_lower_form(c),
        r@.len() >= 1,
{
    c.to_lowercase().collect()
}

/// The first character of the upper-case form of `c`.
pub fn to_upper(c: char) -> (r: char)
    ensures
        r == char_upper(c),
{
    let form = upper_form(c);
    form[0]
}

/// The first character of the lower-case form of `c`.
pub fn to_lower(c: char) -> (r: char)
    ensures
        r == char_lower(c),
{
    let form = lower_form(c);
    form[0]
}

/// Whether a character of `s` is upper case.
pub open spec fn has_uppercase(s: Seq<char>) -> bool {
    exists|i: int| 0 <= i < s.len() && char_is_uppercase(#[trigger] s[i])
}

/// Whether a character of `chars` is upper case.
pub fn any_uppercase(chars: &[char]) -> (r: bool)
    ensures
        r == has_uppercase(chars@),
{
    let mut i: usize = 0;
    while i < chars.len()
        invariant
            i <= chars@.len(),
            forall|j: int| 0 <= j < i ==> !char_is_uppercase(#[trigger] chars@[j]),
        decreases chars@.len() - i,
    {
        if is_uppercase(chars[i]) {
            return true;
        }
        i += 1;
    }
    false
}

/// The text that the `Debug` format of the standard library writes for a
/// string: the string in double quotes, with escapes where they are needed.
pub uninterp spec fn str_debug(s: Seq<char>) -> Seq<char>;

/// The `Debug` format of the standard library for a string.
#[verifier::external_body]
pub(crate) fn debug_string(s: &str) -> (r: String)
    ensures
        r@ == str_debug(s@),
{
    format!("{:?}", s)
}

/// The first line of `text`; the empty text where there is no line.
pub open spec fn first_line(text: Seq<char>) -> Seq<char> {
    if lines_of(text).len() > 0 {
        lines_of(text)[0]
    } else {
        Seq::empty()
    }
}

/// The first line of `text`.
pub fn first_line_of(text: &str) -> (r: String)
    ensures
        r@ == first_line(text@),
{
    let lines = split_lines(text);
    if lines.len() > 0 {
        assert(lines.deep_view()[0] == lines@[0]@);
        lines[0].clone()
    } else {
        String::new()
    }
}

} // verus!
