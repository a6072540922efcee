//! Text helpers over character sequences: whitespace trimming, prefix
//! tests, decimal rendering and decimal parsing.

use vstd::prelude::*;

verus! {

/// Unicode `White_Space` property: the code points that `char::is_whitespace` accepts.
pub open spec fn spec_is_white_space(c: char) -> bool {
    let u = c as u32;
    ||| 0x09 <= u <= 0x0d
    ||| u == 0x20
    ||| u == 0x85
    ||| u == 0xa0
    ||| u == 0x1680
    ||| 0x2000 <= u <= 0x200a
    ||| u == 0x2028
    ||| u == 0x2029
    ||| u == 0x202f
    ||| u == 0x205f
    ||| u == 0x3000
}

/// Whether `c` carries the Unicode `White_Space` property.
pub fn is_white_space(c: char) -> (b: bool)
    ensures
        b == spec_is_white_space(c),
{
    let u = c as u32;
    (0x09 <= u && u <= 0x0d) || u == 0x20 || u == 0x85 || u == 0xa0 || u == 0x1680 || (0x2000 <= u
        && u <= 0x200a) || u == 0x2028 || u == 0x2029 || u == 0x202f || u == 0x205f || u == 0x3000
}

/// `s` without its leading whitespace.
pub open spec fn spec_trim_start(s: Seq<char>) -> Seq<char>
    decreases s.len(),
{
    if s.len() > 0 && spec_is_white_space(s[0]) {
        spec_trim_start(s.drop_first())
    } else {
        s
    }
}

/// `s` without its trailing whitespace.
pub open spec fn spec_trim_end(s: Seq<char>) -> Seq<char>
    decreases s.len(),
{
    if s.len() > 0 && spec_is_white_space(s.last()) {
        spec_trim_end(s.drop_last())
    } else {
        s
    }
}

/// `s` without leading and trailing whitespace, as `str::trim` gives it.
pub open spec fn spec_trim(s: Seq<char>) -> Seq<char> {
    spec_trim_end(spec_trim_start(s))
}

/// The duration field of the downloader's output: `None` where the
/// trimmed output is empty or `NA` (the duration is unknown), else the
/// trimmed text.
pub open spec fn spec_duration_field(out: Seq<char>) -> Option<Seq<char>> {
    let t = spec_trim(out);
    if t.len() == 0 || t == "NA"@ {
        None
    } else {
        Some(t)
    }
}

/// Whether `p` is a prefix of `s`.
pub open spec fn spec_starts_with(s: Seq<char>, p: Seq<char>) -> bool {
    p.len() <= s.len() && s.subrange(0, p.len() as int) == p
}

/// The character of the decimal digit `d`.
pub open spec fn spec_digit_char(d: nat) -> char {
    if d == 0 {
        '0'
    } else if d == 1 {
        '1'
    } else if d == 2 {
        '2'
    } else if d == 3 {
        '3'
    } else if d == 4 {
        '4'
    } else if d == 5 {
        '5'
    } else if d == 6 {
        '6'
    } else if d == 7 {
        '7'
    } else if d == 8 {
        '8'
    } else {
        '9'
    }
}

/// The decimal digits of `n`, without leading zeros (`0` is `"0"`).
pub open spec fn spec_decimal(n: nat) -> Seq<char>
    decreases n,
{
    if n < 10 {
        seq![spec_digit_char(n)]
    } else {
        spec_decimal(n / 10).push(spec_digit_char(n % 10))
    }
}

/// `n` in decimal, left-padded with zeros to at least two digits.
pub open spec fn spec_decimal_pad2(n: nat) -> Seq<char> {
    if n < 10 {
        seq!['0', spec_digit_char(n)]
    } else {
        spec_decimal(n)
    }
}

/// `s` right-aligned in a field of `width` characters, padded with spaces.
pub open spec fn spec_pad_left(s: Seq<char>, width: nat) -> Seq<char> {
    if s.len() >= width {
        s
    } else {
        Seq::new((width - s.len()) as nat, |i: int| ' ') + s
    }
}

/// Whether `c` is one of the ASCII digits `'0'` to `'9'`.
pub open spec fn spec_is_ascii_digit(c: char) -> bool {
    '0' <= c <= '9'
}

/// The value of the ASCII digit `c`.
pub open spec fn spec_digit_value(c: char) -> nat {
    (c as u32 - '0' as u32) as nat
}

/// The value of a sequence of ASCII digits read in base ten.
pub open spec fn spec_digits_value(d: Seq<char>) -> nat
    decreases d.len(),
{
    if d.len() == 0 {
        0
    } else {
        spec_digits_value(d.drop_last()) * 10 + spec_digit_value(d.last())
    }
}

/// The digits that `usize::from_str` reads: `s` without one leading `+`.
pub open spec fn spec_unsigned_digits(s: Seq<char>) -> Seq<char> {
    if s.len() > 0 && s[0] == '+' {
        s.drop_first()
    } else {
        s
    }
}

/// What `s.parse::<usize>()` gives: an optional `+` followed by one or
/// more ASCII digits whose value fits in a `usize`, and nothing else.
pub open spec fn spec_parse_usize(s: Seq<char>) -> Option<nat> {
    let d = spec_unsigned_digits(s);
    if d.len() > 0 && (forall|i: int| 0 <= i < d.len() ==> spec_is_ascii_digit(#[trigger] d[i]))
        && spec_digits_value(d) <= usize::MAX {
        Some(spec_digits_value(d))
    } else {
        None
    }
}

/// Appends `c` to `s` (`String::push`).
#[verifier::external_body]
pub(crate) fn push_char(s: &mut String, c: char)
    ensures
        final(s)@ == old(s)@.push(c),
{
    s.push(c);
}

/// The characters of `s`, in order.
pub fn chars_of(s: &str) -> (r: Vec<char>)
    ensures
        r@ == s@,
{
    let n = s.unicode_len();
    let mut v: Vec<char> = Vec::new();
    let mut i: usize = 0;
    while i < n
        invariant
            n == s@.len(),
            i <= n,
            v@ == s@.subrange(0, i as int),
        decreases n - i,
    {
        let c = s.get_char(i);
        v.push(c);
        i = i + 1;
        assert(v@ =~= s@.subrange(0, i as int));
    }
    assert(v@ =~= s@);
    v
}

/// Appends `chars[from..to]` to `out`.
pub fn push_chars(out: &mut String, chars: &Vec<char>, from: usize, to: usize)
    requires
        from <= to <= chars@.len(),
    ensures
        final(out)@ == old(out)@ + chars@.subrange(from as int, to as int),
{
    let mut i = from;
    while i < to
        invariant
            from <= i <= to <= chars@.len(),
            out@ == old(out)@ + chars@.subrange(from as int, i as int),
        decreases to - i,
    {
        push_char(out, chars[i]);
        i = i + 1;
        assert(out@ =~= old(out)@ + chars@.subrange(from as int, i as int));
    }
}

proof fn lemma_trim_start_skip(s: Seq<char>, i: int)
    requires
        0 <= i <= s.len(),
        forall|k: int| 0 <= k < i ==> spec_is_white_space(#[trigger] s[k]),
    ensures
        spec_trim_start(s) == spec_trim_start(s.subrange(i, s.len() as int)),
    decreases i,
{
    if i > 0 {
        lemma_trim_start_skip(s.drop_first(), i - 1);
        assert(s.drop_first().subrange(i - 1, s.drop_first().len() as int) =~= s.subrange(
            i,
            s.len() as int,
        ));
    } else {
        assert(s.subrange(0, s.len() as int) =~= s);
    }
}

proof fn lemma_trim_end_skip(s: Seq<char>, j: int)
    requires
        0 <= j <= s.len(),
        forall|k: int| j <= k < s.len() ==> spec_is_white_space(#[trigger] s[k]),
    ensures
        spec_trim_end(s) == spec_trim_end(s.subrange(0, j)),
    decreases s.len() - j,
{
    if j < s.len() {
        lemma_trim_end_skip(s.drop_last(), j);
        assert(s.drop_last().subrange(0, j) =~= s.subrange(0, j));
    } else {
        assert(s.subrange(0, j) =~= s);
    }
}

/// `s` without leading and trailing whitespace (`str::trim`), as an owned string.
pub fn trim(s: &str) -> (r: String)
    ensures
        r@ == spec_trim(s@),
{
    let v = chars_of(s);
    let n = v.len();
    let mut i: usize = 0;
    while i < n && is_white_space(v[i])
        invariant
            n == v@.len(),
            i <= n,
            forall|k: int| 0 <= k < i ==> spec_is_white_space(#[trigger] v@[k]),
        decreases n - i,
    {
        i = i + 1;
    }
    proof {
        lemma_trim_start_skip(v@, i as int);
    }
    let ghost rest = v@.subrange(i as int, n as int);
    assert(spec_trim_start(v@) == rest) by {
        if rest.len() > 0 {
            assert(rest[0] == v@[i as int]);
        }
    }
    let mut j: usize = n;
    while j > i && is_white_space(v[j - 1])
        invariant
            n == v@.len(),
            i <= j <= n,
            rest == v@.subrange(i as int, n as int),
            forall|k: int| j <= k < n ==> spec_is_white_space(#[trigger] v@[k]),
        decreases j - i,
    {
        j = j - 1;
    }
    proof {
        assert forall|k: int| j - i <= k < rest.len() implies spec_is_white_space(
            #[trigger] rest[k],
        ) by {
            assert(rest[k] == v@[k + i]);
        }
        lemma_trim_end_skip(rest, j - i);
        let kept = rest.subrange(0, j - i);
        assert(kept =~= v@.subrange(i as int, j as int));
        if kept.len() > 0 {
            assert(kept.last() == v@[j - 1]);
        }
    }
    let mut out = String::new();
    push_chars(&mut out, &v, i, j);
    assert(out@ =~= v@.subrange(i as int, j as int));
    out
}

/// Whether `s` begins with `p` (`str::starts_with`).
pub fn starts_with(s: &str, p: &str) -> (b: bool)
    ensures
        b == spec_starts_with(s@, p@),
{
    let sv = chars_of(s);
    let pv = chars_of(p);
    if pv.len() > sv.len() {
        return false;
    }
    let mut i: usize = 0;
    while i < pv.len()
        invariant
            sv@ == s@,
            pv@ == p@,
            pv@.len() <= sv@.len(),
            i <= pv@.len(),
            forall|k: int| 0 <= k < i ==> sv@[k] == pv@[k],
        decreases pv@.len() - i,
    {
        if sv[i] != pv[i] {
            assert(sv@.subrange(0, pv@.len() as int)[i as int] != pv@[i as int]);
            assert(sv@.subrange(0, pv@.len() as int) != pv@);
            return false;
        }
        i = i + 1;
    }
    assert(sv@.subrange(0, pv@.len() as int) =~= pv@);
    true
}

/// The character of the decimal digit `d`.
pub fn digit_char(d: u64) -> (c: char)
    requires
        d < 10,
    ensures
        c == spec_digit_char(d as nat),
{
    if d == 0 {
        '0'
    } else if d == 1 {
        '1'
    } else if d == 2 {
        '2'
    } else if d == 3 {
        '3'
    } else if d == 4 {
        '4'
    } else if d == 5 {
        '5'
    } else if d == 6 {
        '6'
    } else if d == 7 {
        '7'
    } else if d == 8 {
        '8'
    } else {
        '9'
    }
}

/// Appends `n` in decimal to `out`.
pub fn push_decimal(out: &mut String, n: u64)
    ensures
        final(out)@ == old(out)@ + spec_decimal(n as nat),
    decreases n,
{
    if n < 10 {
        push_char(out, digit_char(n));
        assert(out@ =~= old(out)@ + spec_decimal(n as nat));
    } else {
        push_decimal(out, n / 10);
        push_char(out, digit_char(n % 10));
        assert(out@ =~= old(out)@ + spec_decimal(n as nat));
    }
}

/// Appends `n` in decimal, zero-padded to two digits, to `out`.
pub fn push_decimal_pad2(out: &mut String, n: u64)
    ensures
        final(out)@ == old(out)@ + spec_decimal_pad2(n as nat),
{
    if n < 10 {
        push_char(out, '0');
        push_char(out, digit_char(n));
        assert(out@ =~= old(out)@ + spec_decimal_pad2(n as nat));
    } else {
        push_decimal(out, n);
    }
}

/// `n` in decimal.
pub fn decimal_string(n: u64) -> (r: String)
    ensures
        r@ == spec_decimal(n as nat),
{
    let mut s = String::new();
    push_decimal(&mut s, n);
    assert(s@ =~= spec_decimal(n as nat));
    s
}

/// Appends `s` right-aligned in a field of `width` characters to `out`.
pub fn push_padded_left(out: &mut String, s: &str, width: usize)
    ensures
        final(out)@ == old(out)@ + spec_pad_left(s@, width as nat),
{
    let len = s.unicode_len();
    if len < width {
        let mut k: usize = 0;
        while k < width - len
            invariant
                len < width,
                k <= width - len,
                out@ == old(out)@ + Seq::new(k as nat, |i: int| ' '),
            decreases width - len - k,
        {
            push_char(out, ' ');
            k = k + 1;
            assert(out@ =~= old(out)@ + Seq::new(k as nat, |i: int| ' '));
        }
    }
    out.append(s);
    assert(out@ =~= old(out)@ + spec_pad_left(s@, width as nat));
}

/// Whether `c` is one of the ASCII digits `'0'` to `'9'` (`char::is_ascii_digit`).
pub fn is_ascii_digit(c: char) -> (b: bool)
    ensures
        b == spec_is_ascii_digit(c),
{
    '0' <= c && c <= '9'
}

proof fn lemma_digits_value_prefix_le(d: Seq<char>, k: int)
    requires
        0 <= k <= d.len(),
    ensures
        spec_digits_value(d.take(k)) <= spec_digits_value(d),
    decreases d.len() - k,
{
    if k < d.len() {
        lemma_digits_value_prefix_le(d, k + 1);
        assert(d.take(k + 1).drop_last() =~= d.take(k));
    } else {
        assert(d.take(k) =~= d);
    }
}

/// `s.parse::<usize>()`: the value of an optional `+` followed by ASCII
/// digits, or `None` where `s` is not of that form or the value does not
/// fit in a `usize`.
pub fn parse_usize(s: &str) -> (r: Option<usize>)
    ensures
        match spec_parse_usize(s@) {
            Some(v) => r == Some(v as usize),
            None => r is None,
        },
{
    let v = chars_of(s);
    let start: usize = if v.len() > 0 && v[0] == '+' {
        1
    } else {
        0
    };
    let ghost d = spec_unsigned_digits(s@);
    assert(d =~= v@.subrange(start as int, v@.len() as int));
    if start >= v.len() {
        return None;
    }
    let mut acc: usize = 0;
    let mut overflow = false;
    let mut i: usize = start;
    while i < v.len()
        invariant
            start <= i <= v@.len(),
            v@ == s@,
            d == spec_unsigned_digits(s@),
            d == v@.subrange(start as int, v@.len() as int),
            forall|k: int| 0 <= k < i - start ==> spec_is_ascii_digit(#[trigger] d[k]),
            !overflow ==> acc == spec_digits_value(d.take(i - start)),
            overflow ==> spec_digits_value(d.take(i - start)) > usize::MAX,
        decreases v@.len() - i,
    {
        let c = v[i];
        if !is_ascii_digit(c) {
            assert(d[i - start] == c);
            assert(!spec_is_ascii_digit(d[i - start]));
            assert(spec_parse_usize(s@) is None);
            return None;
        }
        let ghost t = d.take(i - start + 1);
        assert(t.drop_last() =~= d.take(i - start));
        assert(t.last() == c);
        let dv = (c as u32 - '0' as u32) as usize;
        if !overflow {
            if acc > (usize::MAX - dv) / 10 {
                overflow = true;
                assert(spec_digits_value(t) > usize::MAX) by (nonlinear_arith)
                    requires
                        spec_digits_value(t) == acc * 10 + dv,
                        acc > (usize::MAX - dv) / 10,
                        dv <= 9,
                ;
            } else {
                assert(acc * 10 + dv <= usize::MAX) by (nonlinear_arith)
                    requires
                        acc <= (usize::MAX - dv) / 10,
                        dv <= 9,
                ;
                acc = acc * 10 + dv;
            }
        } else {
            assert(spec_digits_value(t) >= spec_digits_value(d.take(i - start)) * 10)
                by (nonlinear_arith)
                requires
                    spec_digits_value(t) == spec_digits_value(d.take(i - start)) * 10
                        + spec_digit_value(c),
            ;
        }
        i = i + 1;
    }
    assert(d.take(d.len() as int) =~= d);
    if overflow {
        None
    } else {
        Some(acc)
    }
}

/// The duration field of the downloader's output, or `None` where it is
/// empty or `NA`.
pub fn duration_field(out: &str) -> (r: Option<String>)
    ensures
        match spec_duration_field(out@) {
            Some(t) => r matches Some(x) && x@ == t,
            None => r is None,
        },
{
    let t = trim(out);
    let na = String::from_str("NA");
    if t.unicode_len() == 0 || t == na {
        None
    } else {
        Some(t)
    }
}

} // verus!
