//! Character-level building blocks shared by the rest of the library:
//! copying text, trimming Unicode white space, reading unsigned decimals
//! and writing a 128-bit identifier in its hyphenated hexadecimal form.
use vstd::prelude::*;
use vstd::string::*;

verus! {

/// `String::push` appends one character at the end of the string.
#[verifier::external_body]
pub fn push_char(s: &mut String, c: char)
    ensures
        final(s)@ == old(s)@.push(c),
{
    s.push(c);
}

/// The characters of `s`, in order.
pub fn to_chars(s: &str) -> (v: Vec<char>)
    ensures
        v@ == s@,
{
    let mut v: Vec<char> = Vec::new();
    for c in it: s.chars()
        invariant
            v@ == it.seq().take(it.index() as int),
            it.seq() == s@,
    {
        v.push(c);
    }
    v
}

/// The string made of `chars[from..to]`.
pub fn string_of(chars: &[char], from: usize, to: usize) -> (s: String)
    requires
        from <= to <= chars@.len(),
    ensures
        s@ == chars@.subrange(from as int, to as int),
{
    let mut s = String::new();
    let mut i = from;
    while i < to
        invariant
            from <= i <= to <= chars@.len(),
            s@ == chars@.subrange(from as int, i as int),
        decreases to - i,
    {
        push_char(&mut s, chars[i]);
        i = i + 1;
    }
    s
}

/// Appends `chars[from..to]` to `s`.
pub fn push_chars(s: &mut String, chars: &[char], from: usize, to: usize)
    requires
        from <= to <= chars@.len(),
    ensures
        final(s)@ == old(s)@ + chars@.subrange(from as int, to as int),
{
    let ghost start = s@;
    let mut i = from;
    while i < to
        invariant
            from <= i <= to <= chars@.len(),
            s@ == start + chars@.subrange(from as int, i as int),
        decreases to - i,
    {
        push_char(s, chars[i]);
        i = i + 1;
        assert(chars@.subrange(from as int, i as int) =~= chars@.subrange(from as int, i - 1).push(
            chars@[i - 1],
        ));
    }
}

/// Unicode `White_Space`, the property that `char::is_whitespace` and
/// `str::trim` go by.
pub open spec fn is_white_space(c: char) -> bool {
    let v = c as u32;
    ||| 0x09 <= v && v <= 0x0d
    ||| v == 0x20
    ||| v == 0x85
    ||| v == 0xa0
    ||| v == 0x1680
    ||| 0x2000 <= v && v <= 0x200a
    ||| v == 0x2028
    ||| v == 0x2029
    ||| v == 0x202f
    ||| v == 0x205f
    ||| v == 0x3000
}

/// The Unicode `White_Space` characters, as listed by Unicode: tab to
/// carriage return, space, next line, no-break space, ogham space mark,
/// en quad to hair space, line and paragraph separators, narrow no-break
/// space, medium mathematical space and ideographic space.
pub open spec fn white_space_list() -> Seq<char> {
    "\u{9}\u{a}\u{b}\u{c}\u{d}\u{20}\u{85}\u{a0}\u{1680}\u{2000}\u{2001}\u{2002}\u{2003}\u{2004}\u{2005}\u{2006}\u{2007}\u{2008}\u{2009}\u{200a}\u{2028}\u{2029}\u{202f}\u{205f}\u{3000}"@
}

/// `is_white_space` holds of exactly the characters of the Unicode list.
pub proof fn white_space_is_the_unicode_list(c: char)
    ensures
        is_white_space(c) <==> white_space_list().contains(c),
{
    reveal_strlit("\u{9}\u{a}\u{b}\u{c}\u{d}\u{20}\u{85}\u{a0}\u{1680}\u{2000}\u{2001}\u{2002}\u{2003}\u{2004}\u{2005}\u{2006}\u{2007}\u{2008}\u{2009}\u{200a}\u{2028}\u{2029}\u{202f}\u{205f}\u{3000}");
    let w = white_space_list();
    assert(w =~= seq!['\u{9}', '\u{a}', '\u{b}', '\u{c}', '\u{d}', '\u{20}', '\u{85}', '\u{a0}', '\u{1680}', '\u{2000}', '\u{2001}', '\u{2002}', '\u{2003}', '\u{2004}', '\u{2005}', '\u{2006}', '\u{2007}', '\u{2008}', '\u{2009}', '\u{200a}', '\u{2028}', '\u{2029}', '\u{202f}', '\u{205f}', '\u{3000}']);
    if is_white_space(c) {
        let v = c as u32;
        if v == 0x9 {
            assert(w[0] == c);
        }
        if v == 0xa {
            assert(w[1] == c);
        }
        if v == 0xb {
            assert(w[2] == c);
        }
        if v == 0xc {
            assert(w[3] == c);
        }
        if v == 0xd {
            assert(w[4] == c);
        }
        if v == 0x20 {
            assert(w[5] == c);
        }
        if v == 0x85 {
            assert(w[6] == c);
        }
        if v == 0xa0 {
            assert(w[7] == c);
        }
        if v == 0x1680 {
            assert(w[8] == c);
        }
        if v == 0x2000 {
            assert(w[9] == c);
        }
        if v == 0x2001 {
            assert(w[10] == c);
        }
        if v == 0x2002 {
            assert(w[11] == c);
        }
        if v == 0x2003 {
            assert(w[12] == c);
        }
        if v == 0x2004 {
            assert(w[13] == c);
        }
        if v == 0x2005 {
            assert(w[14] == c);
        }
        if v == 0x2006 {
            assert(w[15] == c);
        }
        if v == 0x2007 {
            assert(w[16] == c);
        }
        if v == 0x2008 {
            assert(w[17] == c);
        }
        if v == 0x2009 {
            assert(w[18] == c);
        }
        if v == 0x200a {
            assert(w[19] == c);
        }
        if v == 0x2028 {
            assert(w[20] == c);
        }
        if v == 0x2029 {
            assert(w[21] == c);
        }
        if v == 0x202f {
            assert(w[22] == c);
        }
        if v == 0x205f {
            assert(w[23] == c);
        }
        if v == 0x3000 {
            assert(w[24] == c);
        }
    }
    if w.contains(c) {
        let i = choose|i: int| 0 <= i < w.len() && w[i] == c;
        assert(is_white_space(w[i]));
    }
}

/// Trimming, in terms of the Unicode list: the result is a run of `s`'s
/// characters that neither begins nor ends with a character of the list,
/// and everything cut off before and after it is from the list.
pub proof fn trimmed_cuts_only_white_space(s: Seq<char>)
    ensures
        exists|a: int, b: int|
            0 <= a <= b <= s.len() && trimmed(s) == s.subrange(a, b) && (forall|i: int|
                0 <= i < a ==> white_space_list().contains(#[trigger] s[i])) && (forall|i: int|
                b <= i < s.len() ==> white_space_list().contains(#[trigger] s[i])),
        trimmed(s).len() > 0 ==> !white_space_list().contains(trimmed(s)[0]) && !white_space_list().contains(
            trimmed(s).last(),
        ),
{
    let (a, b) = lemma_trim_bounds(s);
    assert forall|i: int| 0 <= i < s.len() implies (is_white_space(#[trigger] s[i])
        <==> white_space_list().contains(s[i])) by {
        white_space_is_the_unicode_list(s[i]);
    }
    if trimmed(s).len() > 0 {
        white_space_is_the_unicode_list(trimmed(s)[0]);
        white_space_is_the_unicode_list(trimmed(s).last());
    }
}

proof fn lemma_trim_start_bounds(s: Seq<char>) -> (a: int)
    ensures
        0 <= a <= s.len(),
        trim_start(s) == s.subrange(a, s.len() as int),
        forall|i: int| 0 <= i < a ==> is_white_space(#[trigger] s[i]),
        a < s.len() ==> !is_white_space(s[a]),
    decreases s.len(),
{
    if s.len() > 0 && is_white_space(s[0]) {
        let a = lemma_trim_start_bounds(s.drop_first());
        assert(s.drop_first().subrange(a, s.len() - 1) =~= s.subrange(a + 1, s.len() as int));
        assert forall|i: int| 0 <= i < a + 1 implies is_white_space(#[trigger] s[i]) by {
            if i > 0 {
                assert(s[i] == s.drop_first()[i - 1]);
            }
        }
        if a + 1 < s.len() {
            assert(s[a + 1] == s.drop_first()[a]);
        }
        a + 1
    } else {
        assert(s.subrange(0, s.len() as int) =~= s);
        0
    }
}

proof fn lemma_trim_end_bounds(s: Seq<char>) -> (b: int)
    ensures
        0 <= b <= s.len(),
        trim_end(s) == s.subrange(0, b),
        forall|i: int| b <= i < s.len() ==> is_white_space(#[trigger] s[i]),
        b > 0 ==> !is_white_space(s[b - 1]),
    decreases s.len(),
{
    if s.len() > 0 && is_white_space(s.last()) {
        let b = lemma_trim_end_bounds(s.drop_last());
        assert(s.drop_last().subrange(0, b) =~= s.subrange(0, b));
        assert forall|i: int| b <= i < s.len() implies is_white_space(#[trigger] s[i]) by {
            if i < s.len() - 1 {
                assert(s[i] == s.drop_last()[i]);
            }
        }
        if b > 0 {
            assert(s[b - 1] == s.drop_last()[b - 1]);
        }
        b
    } else {
        assert(s.subrange(0, s.len() as int) =~= s);
        s.len() as int
    }
}

proof fn lemma_trim_bounds(s: Seq<char>) -> (ab: (int, int))
    ensures
        0 <= ab.0 <= ab.1 <= s.len(),
        trimmed(s) == s.subrange(ab.0, ab.1),
        forall|i: int| 0 <= i < ab.0 ==> is_white_space(#[trigger] s[i]),
        forall|i: int| ab.1 <= i < s.len() ==> is_white_space(#[trigger] s[i]),
        ab.0 < ab.1 ==> !is_white_space(s[ab.0]) && !is_white_space(s[ab.1 - 1]),
{
    let a = lemma_trim_start_bounds(s);
    let t = s.subrange(a, s.len() as int);
    let b = lemma_trim_end_bounds(t);
    assert(t.subrange(0, b) =~= s.subrange(a, a + b));
    assert forall|i: int| a + b <= i < s.len() implies is_white_space(#[trigger] s[i]) by {
        assert(s[i] == t[i - a]);
    }
    if 0 < b {
        assert(s[a] == t[0]);
        assert(s[a + b - 1] == t[b - 1]);
    }
    (a, a + b)
}

/// `s` without its leading white space.
pub open spec fn trim_start(s: Seq<char>) -> Seq<char>
    decreases s.len(),
{
    if s.len() > 0 && is_white_space(s[0]) {
        trim_start(s.drop_first())
    } else {
        s
    }
}

/// `s` without its trailing white space.
pub open spec fn trim_end(s: Seq<char>) -> Seq<char>
    decreases s.len(),
{
    if s.len() > 0 && is_white_space(s.last()) {
        trim_end(s.drop_last())
    } else {
        s
    }
}

/// `s` without leading and trailing white space, as `str::trim` gives it.
pub open spec fn trimmed(s: Seq<char>) -> Seq<char> {
    trim_end(trim_start(s))
}

pub fn is_white_space_char(c: char) -> (b: bool)
    ensures
        b == is_white_space(c),
{
    let v = c as u32;
    (0x09 <= v && v <= 0x0d) || v == 0x20 || v == 0x85 || v == 0xa0 || v == 0x1680 || (0x2000
        <= v && v <= 0x200a) || v == 0x2028 || v == 0x2029 || v == 0x202f || v == 0x205f || v
        == 0x3000
}

/// The characters of `s` with the leading and trailing white space removed.
pub fn trim(s: &[char]) -> (t: Vec<char>)
    ensures
        t@ == trimmed(s@),
{
    let n = s.len();
    let mut start: usize = 0;
    assert(s@.subrange(0, n as int) =~= s@);
    while start < n && is_white_space_char(s[start])
        invariant
            n == s@.len(),
            start <= n,
            trim_start(s@) == trim_start(s@.subrange(start as int, n as int)),
        decreases n - start,
    {
        assert(s@.subrange(start as int, n as int).drop_first() =~= s@.subrange(
            start + 1,
            n as int,
        ));
        start = start + 1;
    }
    let mut end: usize = n;
    let ghost rest = s@.subrange(start as int, n as int);
    assert(trim_start(rest) == rest);
    while end > start && is_white_space_char(s[end - 1])
        invariant
            n == s@.len(),
            start <= end <= n,
            rest == s@.subrange(start as int, n as int),
            trim_end(rest) == trim_end(s@.subrange(start as int, end as int)),
        decreases end - start,
    {
        assert(s@.subrange(start as int, end as int).drop_last() =~= s@.subrange(
            start as int,
            end - 1,
        ));
        end = end - 1;
    }
    let mut t: Vec<char> = Vec::new();
    let mut i = start;
    while i < end
        invariant
            start <= i <= end <= n,
            n == s@.len(),
            t@ == s@.subrange(start as int, i as int),
        decreases end - i,
    {
        t.push(s[i]);
        i = i + 1;
    }
    t
}

pub open spec fn is_decimal_digit(c: char) -> bool {
    '0' <= c && c <= '9'
}

pub open spec fn digit_value(c: char) -> nat {
    (c as u32 - '0' as u32) as nat
}

/// The number that the decimal digits `d` write, most significant first.
pub open spec fn decimal_value(d: Seq<char>) -> nat
    decreases d.len(),
{
    if d.len() == 0 {
        0
    } else {
        decimal_value(d.drop_last()) * 10 + digit_value(d.last())
    }
}

/// `s` without one leading `+`, if it has one.
pub open spec fn without_plus(s: Seq<char>) -> Seq<char> {
    if s.len() > 0 && s[0] == '+' {
        s.drop_first()
    } else {
        s
    }
}

pub open spec fn all_decimal(d: Seq<char>) -> bool {
    forall|i: int| 0 <= i < d.len() ==> is_decimal_digit(#[trigger] d[i])
}

/// What `str::parse::<u64>` gives: an optional `+`, then one or more ASCII
/// digits whose value fits in 64 bits; anything else is an error.
pub open spec fn parsed_u64(s: Seq<char>) -> Option<u64> {
    let d = without_plus(s);
    if d.len() == 0 || !all_decimal(d) || decimal_value(d) > u64::MAX {
        None
    } else {
        Some(decimal_value(d) as u64)
    }
}

proof fn lemma_decimal_prefix_le(d: Seq<char>, k: int)
    requires
        0 <= k <= d.len(),
    ensures
        decimal_value(d.take(k)) <= decimal_value(d),
    decreases d.len(),
{
    if k < d.len() {
        assert(d.drop_last().take(k) =~= d.take(k));
        lemma_decimal_prefix_le(d.drop_last(), k);
    } else {
        assert(d.take(k) =~= d);
    }
}

/// Reads an unsigned 64-bit decimal number, as `str::parse::<u64>` does.
pub fn parse_u64(s: &[char]) -> (r: Option<u64>)
    ensures
        r == parsed_u64(s@),
{
    let n = s.len();
    let first: usize = if n > 0 && s[0] == '+' {
        1
    } else {
        0
    };
    let ghost d = without_plus(s@);
    assert(d =~= s@.subrange(first as int, n as int));
    if first == n {
        return None;
    }
    let mut acc: u64 = 0;
    let mut i = first;
    while i < n
        invariant
            first <= i <= n,
            n == s@.len(),
            d =~= s@.subrange(first as int, n as int),
            d == without_plus(s@),
            forall|j: int| 0 <= j < i - first ==> is_decimal_digit(#[trigger] d[j]),
            acc == decimal_value(d.take(i - first)),
        decreases n - i,
    {
        let c = s[i];
        let ghost k = i - first;
        assert(d[k] == c);
        if !('0' <= c && c <= '9') {
            assert(!is_decimal_digit(d[k]));
            return None;
        }
        let digit = (c as u32 - '0' as u32) as u64;
        assert(d.take(k + 1).drop_last() =~= d.take(k));
        assert(decimal_value(d.take(k + 1)) == acc * 10 + digit);
        match acc.checked_mul(10) {
            Some(m) => match m.checked_add(digit) {
                Some(v) => {
                    acc = v;
                },
                None => {
                    proof {
                        lemma_decimal_prefix_le(d, k + 1);
                    }
                    assert(decimal_value(d) > u64::MAX);
                    return None;
                },
            },
            None => {
                proof {
                    lemma_decimal_prefix_le(d, k + 1);
                }
                return None;
            },
        }
        i = i + 1;
    }
    assert(d.take(n - first) =~= d);
    Some(acc)
}

/// `parse_u64` reads a non-empty run of ASCII digits `0`-`9`, with or
/// without a leading `+`, as the number those digits write in base ten
/// (each digit worth its code minus that of `0`), when that number fits in
/// 64 bits; and refuses a text with any other character (after the sign).
pub proof fn parse_reads_decimal_digits(d: Seq<char>)
    ensures
        d.len() > 0 && (forall|i: int| 0 <= i < d.len() ==> '0' <= #[trigger] d[i] && d[i] <= '9')
            && decimal_value(d) <= u64::MAX ==> {
            &&& parsed_u64(d) == Some(decimal_value(d) as u64)
            &&& parsed_u64(seq!['+'] + d) == Some(decimal_value(d) as u64)
        },
        (exists|i: int| 0 <= i < d.len() && !('0' <= #[trigger] d[i] && d[i] <= '9')) ==> {
            &&& parsed_u64(seq!['+'] + d) is None
            &&& d[0] != '+' ==> parsed_u64(d) is None
        },
        parsed_u64(Seq::empty()) is None,
        parsed_u64(seq!['+']) is None,
{
    let p = seq!['+'] + d;
    assert(p.drop_first() =~= d);
    assert(without_plus(p) == d);
    if d.len() > 0 && d[0] != '+' {
        assert(without_plus(d) == d);
    }
    assert(seq!['+'].drop_first() =~= Seq::<char>::empty());
}

/// One more digit: when `parse_u64` reads `d` (with no sign) as `v`, it
/// reads `d` followed by the digit `c` as ten times `v` plus the digit's
/// worth, as long as that fits in 64 bits.
pub proof fn parse_appends_a_digit(d: Seq<char>, v: u64, c: char)
    requires
        parsed_u64(d) == Some(v),
        d.len() > 0 && d[0] != '+',
        '0' <= c && c <= '9',
        10 * v + (c as u32 - 48) <= u64::MAX,
    ensures
        parsed_u64(d.push(c)) == Some((10 * v + (c as u32 - 48)) as u64),
{
    let e = d.push(c);
    assert(without_plus(d) == d);
    assert(e[0] == d[0]);
    assert(without_plus(e) == e);
    assert(e.drop_last() =~= d);
    assert(forall|i: int| 0 <= i < e.len() ==> is_decimal_digit(#[trigger] e[i])) by {
        assert forall|i: int| 0 <= i < e.len() implies is_decimal_digit(#[trigger] e[i]) by {
            if i < d.len() {
                assert(e[i] == d[i]);
            }
        }
    }
}

/// The lower-case hexadecimal digit for `v`, which is below 16.
pub open spec fn hex_digit(v: nat) -> char {
    (if v < 10 {
        48 + v
    } else {
        87 + v
    }) as u8 as char
}

/// The lowest `n` hexadecimal digits of `v`, most significant first.
pub open spec fn hex_digits(v: nat, n: nat) -> Seq<char>
    decreases n,
{
    if n == 0 {
        Seq::empty()
    } else {
        hex_digits(v / 16, (n - 1) as nat).push(hex_digit(v % 16))
    }
}

/// The hyphenated form of a UUID (its `Display`): 32 lower-case hexadecimal
/// digits of the 128-bit value, in groups of 8, 4, 4, 4 and 12.
pub open spec fn uuid_text(id: u128) -> Seq<char> {
    let h = hex_digits(id as nat, 32);
    h.subrange(0, 8) + seq!['-'] + h.subrange(8, 12) + seq!['-'] + h.subrange(12, 16) + seq!['-']
        + h.subrange(16, 20) + seq!['-'] + h.subrange(20, 32)
}

/// A lower-case hexadecimal digit.
pub open spec fn is_hex_char(c: char) -> bool {
    ('0' <= c && c <= '9') || ('a' <= c && c <= 'f')
}

proof fn lemma_hex_digits_are_hex(v: nat, n: nat)
    ensures
        hex_digits(v, n).len() == n,
        forall|k: int| 0 <= k < n ==> is_hex_char(#[trigger] hex_digits(v, n)[k]),
    decreases n,
{
    if n > 0 {
        lemma_hex_digits_are_hex(v / 16, (n - 1) as nat);
        let d = v % 16;
        assert(is_hex_char(hex_digit(d)));
    }
}

/// The hyphenated text of a UUID has no surrounding white space, so trimming
/// leaves it as it is.
pub proof fn uuid_text_is_trimmed(id: u128)
    ensures
        trimmed(uuid_text(id)) == uuid_text(id),
        uuid_text(id).len() == 36,
{
    let h = hex_digits(id as nat, 32);
    lemma_hex_digits_are_hex(id as nat, 32);
    let t = uuid_text(id);
    assert(t.len() == 36);
    assert(t[0] == h[0]);
    assert(t[35] == h[31]);
    assert(is_hex_char(h[0]) && is_hex_char(h[31]));
    assert(!is_white_space(t[0]));
    assert(!is_white_space(t.last()));
    assert(trim_start(t) == t);
    assert(trim_end(t) == t);
}

/// The lower-case hexadecimal digits, in order of their worth.
pub open spec fn hex_chars() -> Seq<char> {
    "0123456789abcdef"@
}

/// Sixteen to the power `e`.
pub open spec fn pow16(e: nat) -> nat
    decreases e,
{
    if e == 0 {
        1
    } else {
        16 * pow16((e - 1) as nat)
    }
}

proof fn lemma_hex_digit_is_listed(d: nat)
    requires
        d < 16,
    ensures
        hex_digit(d) == hex_chars()[d as int],
{
    reveal_strlit("0123456789abcdef");
    assert(hex_chars() =~= seq![
        '0', '1', '2', '3', '4', '5', '6', '7', '8', '9', 'a', 'b', 'c', 'd', 'e', 'f',
    ]);
}

proof fn lemma_hex_digits_value(v: nat, n: nat, k: int)
    requires
        0 <= k < n,
    ensures
        hex_digits(v, n).len() == n,
        hex_digits(v, n)[k] == hex_chars()[((v / pow16((n - 1 - k) as nat)) % 16) as int],
    decreases n,
{
    lemma_hex_digits_are_hex(v, n);
    let h = hex_digits(v, n);
    assert(h == hex_digits(v / 16, (n - 1) as nat).push(hex_digit(v % 16)));
    lemma_hex_digits_are_hex(v / 16, (n - 1) as nat);
    if k == n - 1 {
        assert(pow16(0) == 1);
        assert(v / 1 == v);
        assert(h[k] == hex_digit(v % 16));
        lemma_hex_digit_is_listed(v % 16);
    } else {
        lemma_hex_digits_value(v / 16, (n - 1) as nat, k);
        assert(h[k] == hex_digits(v / 16, (n - 1) as nat)[k]);
        let m = (n - 2 - k) as nat;
        assert((n - 1 - k) as nat == m + 1);
        assert(pow16((m + 1) as nat) == 16 * pow16(m));
        assert(pow16(m) > 0) by {
            lemma_pow16_positive(m);
        }
        vstd::arithmetic::div_mod::lemma_div_denominator(v as int, 16, pow16(m) as int);
        assert((v / 16) / pow16(m) == v / pow16((n - 1 - k) as nat));
    }
}

proof fn lemma_pow16_positive(e: nat)
    ensures
        pow16(e) > 0,
    decreases e,
{
    if e > 0 {
        lemma_pow16_positive((e - 1) as nat);
    }
}

/// Where the `j`-th of the 32 hexadecimal digits stands in the hyphenated
/// text: after one hyphen for each group of 8, 4, 4 and 4 digits before it.
pub open spec fn digit_position(j: int) -> int {
    j + (if j >= 8 { 1int } else { 0 }) + (if j >= 12 { 1int } else { 0 }) + (if j >= 16 {
        1int
    } else {
        0
    }) + (if j >= 20 { 1int } else { 0 })
}

/// The hyphenated text of a UUID writes its value: 36 characters, hyphens
/// at positions 8, 13, 18 and 23, and the `j`-th hexadecimal digit is the
/// lower-case digit worth `(id / 16^(31 - j)) % 16`.
pub proof fn uuid_text_writes_the_value(id: u128)
    ensures
        uuid_text(id).len() == 36,
        uuid_text(id)[8] == '-' && uuid_text(id)[13] == '-' && uuid_text(id)[18] == '-'
            && uuid_text(id)[23] == '-',
        forall|j: int|
            0 <= j < 32 ==> #[trigger] uuid_text(id)[digit_position(j)] == hex_chars()[((id as nat
                / pow16((31 - j) as nat)) % 16) as int],
{
    let h = hex_digits(id as nat, 32);
    lemma_hex_digits_are_hex(id as nat, 32);
    assert forall|j: int| 0 <= j < 32 implies #[trigger] uuid_text(id)[digit_position(j)]
        == hex_chars()[((id as nat / pow16((31 - j) as nat)) % 16) as int] by {
        lemma_hex_digits_value(id as nat, 32, j);
        assert(uuid_text(id)[digit_position(j)] == h[j]);
    }
}

fn hex_char(v: u128) -> (c: char)
    requires
        v < 16,
    ensures
        c == hex_digit(v as nat),
{
    let b: u8 = if v < 10 {
        48 + v as u8
    } else {
        87 + v as u8
    };
    b as char
}

/// Writes `id` as a hyphenated lower-case UUID, as `Uuid`'s `Display` does.
pub fn uuid_string(id: u128) -> (s: String)
    ensures
        s@ == uuid_text(id),
        s@.len() == 36,
{
    let mut digits: Vec<char> = Vec::new();
    let mut k: usize = 0;
    while k < 32
        invariant
            k <= 32,
            digits@.len() == k,
        decreases 32 - k,
    {
        digits.push('0');
        k = k + 1;
    }
    let mut cur: u128 = id;
    let mut k: usize = 0;
    while k < 32
        invariant
            k <= 32,
            digits@.len() == 32,
            hex_digits(id as nat, 32) =~= hex_digits(cur as nat, (32 - k) as nat) + digits@.subrange(
                32 - k,
                32,
            ),
        decreases 32 - k,
    {
        let ghost before = digits@;
        let d = hex_char(cur % 16);
        digits.set(31 - k, d);
        assert(hex_digits(cur as nat, (32 - k) as nat) == hex_digits(
            (cur / 16) as nat,
            (31 - k) as nat,
        ).push(hex_digit((cur % 16) as nat)));
        assert(digits@.subrange(31 - k, 32) =~= seq![d] + before.subrange(32 - k, 32));
        cur = cur / 16;
        k = k + 1;
    }
    assert(hex_digits(cur as nat, 0) =~= Seq::<char>::empty());
    assert(digits@.subrange(0, 32) =~= digits@);
    let mut s = String::new();
    push_chars(&mut s, digits.as_slice(), 0, 8);
    push_char(&mut s, '-');
    push_chars(&mut s, digits.as_slice(), 8, 12);
    push_char(&mut s, '-');
    push_chars(&mut s, digits.as_slice(), 12, 16);
    push_char(&mut s, '-');
    push_chars(&mut s, digits.as_slice(), 16, 20);
    push_char(&mut s, '-');
    push_chars(&mut s, digits.as_slice(), 20, 32);
    assert(s@ =~= uuid_text(id));
    s
}

} // verus!
