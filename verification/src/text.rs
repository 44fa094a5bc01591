//! Plain text: decimal numbers, trimming and the UTF-16 form that the system works with.

use vstd::prelude::*;

verus! {

/// `String::push` appends one character.
pub assume_specification[ String::push ](s: &mut String, ch: char)
    ensures
        final(s)@ == old(s)@.push(ch),
;

/// `char::from_u32` gives the character of a code point, and none for a number that is no Unicode
/// scalar value.
pub assume_specification[ char::from_u32 ](i: u32) -> (c: Option<char>)
    ensures
        c is Some == (i <= 0x10FFFF && !(0xD800 <= i <= 0xDFFF)),
        c matches Some(c) ==> c == i as char,
;

/// A text in lower case, as Unicode has it.
pub uninterp spec fn lowercase(s: Seq<char>) -> Seq<char>;

/// `str::to_lowercase` gives the lower case of a text, which depends on that text alone.
#[verifier::external_body]
pub(crate) fn to_lowercase(s: &str) -> (lower: String)
    ensures
        lower@ == lowercase(s@),
{
    s.to_lowercase()
}

/// The digits of `n` in base ten, without leading zeros.
pub open spec fn decimal(n: nat) -> Seq<char>
    decreases n,
{
    let digit = (48 + n % 10) as char;
    if n < 10 {
        seq![digit]
    } else {
        decimal(n / 10).push(digit)
    }
}

/// `n` in base ten, with a minus sign where it is negative.
pub open spec fn signed_decimal(n: int) -> Seq<char> {
    if n < 0 {
        seq!['-'] + decimal((-n) as nat)
    } else {
        decimal(n as nat)
    }
}

/// Appends `n` in base ten.
pub fn push_decimal(text: &mut String, n: u64)
    ensures
        final(text)@ == old(text)@ + decimal(n as nat),
    decreases n,
{
    if n >= 10 {
        push_decimal(text, n / 10);
    }
    let digit: u8 = 48 + (n % 10) as u8;
    text.push(digit as char);
    proof {
        if n >= 10 {
            assert(old(text)@ + decimal(n as nat) =~= (old(text)@ + decimal(
                (n / 10) as nat,
            )).push(digit as char));
        } else {
            assert(old(text)@ + decimal(n as nat) =~= old(text)@.push(digit as char));
        }
    }
}

/// Appends `n` in base ten with its sign where it is negative.
pub fn push_signed_decimal(text: &mut String, n: i64)
    ensures
        final(text)@ == old(text)@ + signed_decimal(n as int),
{
    if n < 0 {
        text.push('-');
        let magnitude: u64 = (-(n as i128)) as u64;
        push_decimal(text, magnitude);
        assert(text@ =~= old(text)@ + signed_decimal(n as int));
    } else {
        push_decimal(text, n as u64);
    }
}

/// The digit of a number below sixteen.
pub open spec fn hex_char(n: nat) -> char {
    if n < 10 {
        (48 + n) as char
    } else {
        (87 + n) as char
    }
}

/// The digits of `n` in base sixteen, in lower case and without leading zeros.
pub open spec fn hexadecimal(n: nat) -> Seq<char>
    decreases n,
{
    if n < 16 {
        seq![hex_char(n)]
    } else {
        hexadecimal(n / 16).push(hex_char(n % 16))
    }
}

/// Appends `n` in base sixteen.
pub fn push_hexadecimal(text: &mut String, n: u32)
    ensures
        final(text)@ == old(text)@ + hexadecimal(n as nat),
    decreases n,
{
    if n >= 16 {
        push_hexadecimal(text, n / 16);
    }
    let low: u8 = (n % 16) as u8;
    let digit: u8 = if low < 10 {
        48 + low
    } else {
        87 + low
    };
    text.push(digit as char);
    assert(digit as char == hex_char((n % 16) as nat));
    proof {
        if n >= 16 {
            assert(old(text)@ + hexadecimal(n as nat) =~= (old(text)@ + hexadecimal(
                (n / 16) as nat,
            )).push(digit as char));
        } else {
            assert(old(text)@ + hexadecimal(n as nat) =~= old(text)@.push(digit as char));
        }
    }
}

/// The characters of a text.
pub fn chars_of(text: &str) -> (chars: Vec<char>)
    ensures
        chars@ == text@,
{
    let mut chars: Vec<char> = Vec::new();
    for c in it: text.chars()
        invariant
            chars@ == text@.take(it.index() as int),
            it.seq() == text@,
    {
        chars.push(c);
    }
    assert(text@.take(text@.len() as int) =~= text@);
    chars
}

/// A letter of the basic alphabet in lower case; every other character as it is.
pub open spec fn ascii_lower(c: char) -> char {
    if 'A' <= c && c <= 'Z' {
        (c as int + 32) as char
    } else {
        c
    }
}

/// Whether two texts differ at most in the case of basic letters.
pub open spec fn same_ignoring_ascii_case(left: Seq<char>, right: Seq<char>) -> bool {
    left.map_values(|c: char| ascii_lower(c)) == right.map_values(|c: char| ascii_lower(c))
}

fn lower(c: char) -> (r: char)
    ensures
        r == ascii_lower(c),
{
    if 'A' <= c && c <= 'Z' {
        (c as u8 + 32) as char
    } else {
        c
    }
}

pub fn eq_ignore_ascii_case(left: &str, right: &str) -> (same: bool)
    ensures
        same == same_ignoring_ascii_case(left@, right@),
{
    let a = chars_of(left);
    let b = chars_of(right);
    let ghost lowered = |s: Seq<char>| s.map_values(|c: char| ascii_lower(c));
    if a.len() != b.len() {
        assert(lowered(left@).len() != lowered(right@).len());
        return false;
    }
    for i in 0..a.len()
        invariant
            a@ == left@,
            b@ == right@,
            a.len() == b.len(),
            forall|j: int| 0 <= j < i ==> ascii_lower(left@[j]) == ascii_lower(right@[j]),
    {
        if lower(a[i]) != lower(b[i]) {
            assert(left@.map_values(|c: char| ascii_lower(c))[i as int] != right@.map_values(
                |c: char| ascii_lower(c),
            )[i as int]);
            return false;
        }
    }
    assert(left@.map_values(|c: char| ascii_lower(c)) =~= right@.map_values(
        |c: char| ascii_lower(c),
    ));
    true
}

/// A text with the letters of the basic alphabet in lower case.
pub fn to_ascii_lowercase(s: &str) -> (lowered: String)
    ensures
        lowered@ == s@.map_values(|c: char| ascii_lower(c)),
{
    let chars = chars_of(s);
    let mut lowered = String::new();
    for i in 0..chars.len()
        invariant
            chars@ == s@,
            lowered@ == s@.take(i as int).map_values(|c: char| ascii_lower(c)),
    {
        lowered.push(lower(chars[i]));
        assert(lowered@ =~= s@.take(i + 1).map_values(|c: char| ascii_lower(c)));
    }
    assert(s@.take(s@.len() as int) =~= s@);
    lowered
}

/// `s` with each ampersand doubled, so that a menu shows it instead of underlining a letter.
pub open spec fn escaped(s: Seq<char>) -> Seq<char>
    decreases s.len(),
{
    if s.len() == 0 {
        Seq::empty()
    } else if s.last() == '&' {
        escaped(s.drop_last()).push('&').push('&')
    } else {
        escaped(s.drop_last()).push(s.last())
    }
}

pub fn escape_ampersands(label: &str) -> (text: String)
    ensures
        text@ == escaped(label@),
{
    let chars = chars_of(label);
    let mut text = String::new();
    for i in 0..chars.len()
        invariant
            chars@ == label@,
            text@ == escaped(label@.take(i as int)),
    {
        let c: char = chars[i];
        proof {
            assert(label@.take(i + 1).drop_last() =~= label@.take(i as int));
            assert(label@.take(i + 1).last() == c);
        }
        text.push(c);
        if c == '&' {
            text.push('&');
        }
    }
    assert(label@.take(label@.len() as int) =~= label@);
    text
}

/// The UTF-16 units of one character: one unit, or a surrogate pair beyond the first plane.
pub open spec fn char_units(c: char) -> Seq<u16> {
    let code = c as int;
    if code < 0x10000 {
        seq![code as u16]
    } else {
        seq![
            (0xD800 + (code - 0x10000) / 0x400) as u16,
            (0xDC00 + (code - 0x10000) % 0x400) as u16,
        ]
    }
}

/// The UTF-16 units of a text.
pub open spec fn utf16(s: Seq<char>) -> Seq<u16>
    decreases s.len(),
{
    if s.len() == 0 {
        Seq::empty()
    } else {
        utf16(s.drop_last()) + char_units(s.last())
    }
}

fn push_char_units(units: &mut Vec<u16>, c: char)
    ensures
        final(units)@ == old(units)@ + char_units(c),
{
    let code: u32 = c as u32;
    if code < 0x10000 {
        units.push(code as u16);
    } else {
        units.push((0xD800 + (code - 0x10000) / 0x400) as u16);
        units.push((0xDC00 + (code - 0x10000) % 0x400) as u16);
    }
    assert(units@ =~= old(units)@ + char_units(c));
}

/// Appends the UTF-16 units of a text.
pub fn push_utf16(units: &mut Vec<u16>, s: &str)
    ensures
        final(units)@ == old(units)@ + utf16(s@),
{
    let chars = chars_of(s);
    assert(units@ =~= old(units)@ + utf16(s@.take(0)));
    for i in 0..chars.len()
        invariant
            chars@ == s@,
            units@ == old(units)@ + utf16(s@.take(i as int)),
    {
        assert(s@.take(i + 1).drop_last() =~= s@.take(i as int));
        push_char_units(units, chars[i]);
        assert(units@ =~= old(units)@ + utf16(s@.take(i + 1)));
    }
    assert(s@.take(s@.len() as int) =~= s@);
}

pub open spec fn is_high_surrogate(unit: u16) -> bool {
    0xD800 <= unit <= 0xDBFF
}

pub open spec fn is_low_surrogate(unit: u16) -> bool {
    0xDC00 <= unit <= 0xDFFF
}

/// The text that UTF-16 units stand for; a surrogate without its partner becomes U+FFFD.
pub open spec fn utf16_text(units: Seq<u16>) -> Seq<char>
    decreases units.len(),
{
    if units.len() == 0 {
        Seq::empty()
    } else if !is_high_surrogate(units[0]) && !is_low_surrogate(units[0]) {
        seq![units[0] as char] + utf16_text(units.skip(1))
    } else if is_high_surrogate(units[0]) && units.len() > 1 && is_low_surrogate(units[1]) {
        seq![
            (0x10000 + (units[0] - 0xD800) * 0x400 + (units[1] - 0xDC00)) as char,
        ] + utf16_text(units.skip(2))
    } else {
        seq!['\u{FFFD}'] + utf16_text(units.skip(1))
    }
}

fn char_at_code(code: u32) -> (c: char)
    requires
        code <= 0x10FFFF,
        !(0xD800 <= code <= 0xDFFF),
    ensures
        c == code as char,
{
    match char::from_u32(code) {
        Some(c) => c,
        None => '\u{FFFD}',
    }
}

/// The text that UTF-16 units stand for.
pub fn decode_utf16(units: &[u16]) -> (decoded: String)
    ensures
        decoded@ == utf16_text(units@),
{
    let mut decoded = String::new();
    let mut i: usize = 0;
    assert(units@.skip(0) =~= units@);
    assert(decoded@ + utf16_text(units@) =~= utf16_text(units@));
    while i < units.len()
        invariant
            i <= units.len(),
            decoded@ + utf16_text(units@.skip(i as int)) == utf16_text(units@),
        decreases units.len() - i,
    {
        let unit: u16 = units[i];
        let ghost rest = units@.skip(i as int);
        let ghost before = decoded@;
        assert(rest[0] == unit);
        assert(rest.len() > 1 ==> rest[1] == units@[i + 1]);
        assert(rest.skip(1) =~= units@.skip(i + 1));
        if unit < 0xD800 || unit > 0xDFFF {
            decoded.push(char_at_code(unit as u32));
            i = i + 1;
            assert(decoded@ + utf16_text(rest.skip(1)) =~= before + utf16_text(rest));
        } else if unit <= 0xDBFF && units.len() - i > 1 && 0xDC00 <= units[i + 1] && units[i + 1]
            <= 0xDFFF {
            let low: u16 = units[i + 1];
            let code: u32 = 0x10000 + (unit as u32 - 0xD800) * 0x400 + (low as u32 - 0xDC00);
            decoded.push(char_at_code(code));
            i = i + 2;
            assert(rest.skip(2) =~= units@.skip(i as int));
            assert(decoded@ + utf16_text(rest.skip(2)) =~= before + utf16_text(rest));
        } else {
            decoded.push('\u{FFFD}');
            i = i + 1;
            assert(decoded@ + utf16_text(rest.skip(1)) =~= before + utf16_text(rest));
        }
    }
    assert(units@.skip(units@.len() as int) =~= Seq::empty());
    assert(decoded@ + Seq::empty() =~= decoded@);
    decoded
}

proof fn lemma_decode_one(c: char, rest: Seq<u16>)
    ensures
        utf16_text(char_units(c) + rest) == seq![c] + utf16_text(rest),
{
    let units = char_units(c) + rest;
    if (c as int) < 0x10000 {
        assert(units.skip(1) =~= rest);
        assert(units[0] as char == c);
    } else {
        let high = units[0];
        let low = units[1];
        assert(units.skip(2) =~= rest);
        assert(is_high_surrogate(high) && is_low_surrogate(low));
        assert(0x10000 + (high - 0xD800) * 0x400 + (low - 0xDC00) == c as int);
    }
}

proof fn lemma_decode_encoded(s: Seq<char>, rest: Seq<u16>)
    ensures
        utf16_text(utf16(s) + rest) == s + utf16_text(rest),
    decreases s.len(),
{
    if s.len() == 0 {
        assert(utf16(s) + rest =~= rest);
        assert(s + utf16_text(rest) =~= utf16_text(rest));
    } else {
        let tail = char_units(s.last()) + rest;
        assert(utf16(s) + rest =~= utf16(s.drop_last()) + tail);
        lemma_decode_encoded(s.drop_last(), tail);
        lemma_decode_one(s.last(), rest);
        assert(s.drop_last() + (seq![s.last()] + utf16_text(rest)) =~= s + utf16_text(rest));
    }
}

/// A text survives its way through UTF-16.
pub proof fn law_utf16_keeps_a_text(s: Seq<char>)
    ensures
        utf16_text(utf16(s)) == s,
{
    lemma_decode_encoded(s, Seq::empty());
    assert(utf16(s) + Seq::empty() =~= utf16(s));
    assert(s + utf16_text(Seq::empty()) =~= s);
}

/// The characters that Unicode counts as white space.
pub open spec fn is_white(c: char) -> bool {
    let code = c as int;
    ||| 0x9 <= code <= 0xD
    ||| code == 0x20
    ||| code == 0x85
    ||| code == 0xA0
    ||| code == 0x1680
    ||| 0x2000 <= code <= 0x200A
    ||| code == 0x2028
    ||| code == 0x2029
    ||| code == 0x202F
    ||| code == 0x205F
    ||| code == 0x3000
}

pub fn is_white_space(c: char) -> (white: bool)
    ensures
        white == is_white(c),
{
    let code: u32 = c as u32;
    (0x9 <= code && code <= 0xD) || code == 0x20 || code == 0x85 || code == 0xA0 || code == 0x1680
        || (0x2000 <= code && code <= 0x200A) || code == 0x2028 || code == 0x2029 || code == 0x202F
        || code == 0x205F || code == 0x3000
}

/// `s` without the white space at its beginning.
pub open spec fn trimmed_start(s: Seq<char>) -> Seq<char>
    decreases s.len(),
{
    if s.len() > 0 && is_white(s.first()) {
        trimmed_start(s.skip(1))
    } else {
        s
    }
}

/// `s` without the white space at its end.
pub open spec fn trimmed_end(s: Seq<char>) -> Seq<char>
    decreases s.len(),
{
    if s.len() > 0 && is_white(s.last()) {
        trimmed_end(s.drop_last())
    } else {
        s
    }
}

/// `s` without the white space at both ends.
pub open spec fn trimmed(s: Seq<char>) -> Seq<char> {
    trimmed_end(trimmed_start(s))
}

/// `s` without the white space at both ends.
pub fn trim(s: &str) -> (inner: &str)
    ensures
        inner@ == trimmed(s@),
{
    let chars = chars_of(s);
    let mut from: usize = 0;
    assert(s@.skip(0) =~= s@);
    while from < chars.len() && is_white_space(chars[from])
        invariant
            chars@ == s@,
            from <= chars.len(),
            trimmed_start(s@.skip(from as int)) == trimmed_start(s@),
        decreases chars.len() - from,
    {
        assert(s@.skip(from as int).first() == s@[from as int]);
        assert(s@.skip(from as int).skip(1) =~= s@.skip(from + 1));
        from = from + 1;
    }
    let ghost started = s@.skip(from as int);
    assert(started.len() > 0 ==> started.first() == s@[from as int]);
    assert(started == trimmed_start(s@));
    let mut to: usize = chars.len();
    assert(s@.subrange(from as int, to as int) =~= started);
    while to > from && is_white_space(chars[to - 1])
        invariant
            chars@ == s@,
            from <= to <= chars.len(),
            trimmed_end(s@.subrange(from as int, to as int)) == trimmed_end(started),
        decreases to,
    {
        assert(s@.subrange(from as int, to as int).last() == s@[to - 1]);
        assert(s@.subrange(from as int, to as int).drop_last() =~= s@.subrange(
            from as int,
            to - 1,
        ));
        to = to - 1;
    }
    let inner = s.substring_char(from, to);
    assert(inner@.len() > 0 ==> inner@.last() == s@[to - 1]);
    inner
}

/// A trimmed text has no white space at either end, and trimming it again changes nothing.
pub proof fn law_trimming_is_final(s: Seq<char>)
    ensures
        trimmed(s).len() > 0 ==> !is_white(trimmed(s).first()) && !is_white(trimmed(s).last()),
        trimmed(trimmed(s)) == trimmed(s),
{
    lemma_trimmed_start(s);
    lemma_trimmed_end(trimmed_start(s));
}

proof fn lemma_trimmed_start(s: Seq<char>)
    ensures
        trimmed_start(s).len() > 0 ==> !is_white(trimmed_start(s).first()),
    decreases s.len(),
{
    if s.len() > 0 && is_white(s.first()) {
        lemma_trimmed_start(s.skip(1));
    }
}

proof fn lemma_trimmed_end(s: Seq<char>)
    ensures
        trimmed_end(s).len() > 0 ==> !is_white(trimmed_end(s).last()) && trimmed_end(s).first()
            == s.first(),
    decreases s.len(),
{
    if s.len() > 0 && is_white(s.last()) {
        lemma_trimmed_end(s.drop_last());
    }
}

/// Trimming takes away white space at the ends and nothing else.
pub proof fn law_trimming_takes_only_white_space(s: Seq<char>)
    ensures
        exists|i: int, j: int|
            {
                &&& 0 <= i <= j <= s.len()
                &&& #[trigger] s.subrange(i, j) == trimmed(s)
                &&& forall|k: int| 0 <= k < i || j <= k < s.len() ==> is_white(#[trigger] s[k])
            },
{
    let rest = trimmed_start(s);
    lemma_taken_from_the_start(s);
    lemma_taken_from_the_end(rest);
    let i = s.len() - rest.len();
    let j = i + trimmed(s).len();
    assert(s.subrange(i, j) =~= trimmed(s));
    assert forall|k: int| 0 <= k < i || j <= k < s.len() implies is_white(#[trigger] s[k]) by {
        if j <= k {
            assert(rest[k - i] == s[k]);
        }
    }
}

proof fn lemma_taken_from_the_start(s: Seq<char>)
    ensures
        trimmed_start(s).len() <= s.len(),
        trimmed_start(s) == s.skip(s.len() - trimmed_start(s).len()),
        forall|k: int| 0 <= k < s.len() - trimmed_start(s).len() ==> is_white(#[trigger] s[k]),
    decreases s.len(),
{
    if s.len() > 0 && is_white(s.first()) {
        let rest = s.skip(1);
        lemma_taken_from_the_start(rest);
        let at = s.len() - trimmed_start(s).len();
        assert(rest.skip(at - 1) =~= s.skip(at));
        assert forall|k: int| 0 <= k < at implies is_white(#[trigger] s[k]) by {
            if k > 0 {
                assert(rest[k - 1] == s[k]);
            }
        }
    } else {
        assert(s.skip(0) =~= s);
    }
}

proof fn lemma_taken_from_the_end(s: Seq<char>)
    ensures
        trimmed_end(s).len() <= s.len(),
        trimmed_end(s) == s.take(trimmed_end(s).len() as int),
        forall|k: int| trimmed_end(s).len() <= k < s.len() ==> is_white(#[trigger] s[k]),
    decreases s.len(),
{
    if s.len() > 0 && is_white(s.last()) {
        let rest = s.drop_last();
        lemma_taken_from_the_end(rest);
        let end = trimmed_end(s).len() as int;
        assert(rest.take(end) =~= s.take(end));
        assert forall|k: int| end <= k < s.len() implies is_white(#[trigger] s[k]) by {
            if k < s.len() - 1 {
                assert(rest[k] == s[k]);
            }
        }
    } else {
        assert(s.take(s.len() as int) =~= s);
    }
}

/// Numbers are written without needless digits, and a negative one as its magnitude behind a sign.
pub proof fn law_numbers_are_written_plainly(n: nat)
    ensures
        n < 10 ==> decimal(n) == seq![(48 + n) as char],
        n >= 10 ==> decimal(n).len() == decimal(n / 10).len() + 1 && decimal(n).last() == (48 + n
            % 10) as char && decimal(n).drop_last() == decimal(n / 10),
        decimal(n)[0] == '0' <==> n == 0,
        signed_decimal(n as int) == decimal(n),
        n > 0 ==> signed_decimal(-n) == seq!['-'] + decimal(n),
        n < 16 ==> hexadecimal(n).len() == 1,
        n >= 16 ==> hexadecimal(n).drop_last() == hexadecimal(n / 16),
        hexadecimal(n).last() as int == if n % 16 < 10 {
            48 + n % 16
        } else {
            87 + n % 16
        },
    decreases n,
{
    if n >= 10 {
        assert(decimal(n).drop_last() =~= decimal(n / 10));
        law_numbers_are_written_plainly(n / 10);
        assert(decimal(n)[0] == decimal(n / 10)[0]);
    }
    if n >= 16 {
        assert(hexadecimal(n).drop_last() =~= hexadecimal(n / 16));
    }
}

/// Two texts are the same but for the case of basic letters exactly where they are so character by
/// character.
pub proof fn law_case_is_all_that_is_ignored(left: Seq<char>, right: Seq<char>)
    ensures
        same_ignoring_ascii_case(left, right) <==> left.len() == right.len() && forall|i: int|
            0 <= i < left.len() ==> {
                let a = #[trigger] left[i] as int;
                let b = right[i] as int;
                ||| a == b
                ||| a + 32 == b && 65 <= a <= 90
                ||| b + 32 == a && 65 <= b <= 90
            },
{
    let a = left.map_values(|c: char| ascii_lower(c));
    let b = right.map_values(|c: char| ascii_lower(c));
    if same_ignoring_ascii_case(left, right) {
        assert(a.len() == b.len());
        assert forall|i: int| 0 <= i < left.len() implies {
            let a = #[trigger] left[i] as int;
            let b = right[i] as int;
            ||| a == b
            ||| a + 32 == b && 65 <= a <= 90
            ||| b + 32 == a && 65 <= b <= 90
        } by {
            assert(a[i] == b[i]);
            assert(a[i] == ascii_lower(left[i]) && b[i] == ascii_lower(right[i]));
        }
    }
    if left.len() == right.len() && forall|i: int|
        0 <= i < left.len() ==> {
            let a = #[trigger] left[i] as int;
            let b = right[i] as int;
            ||| a == b
            ||| a + 32 == b && 65 <= a <= 90
            ||| b + 32 == a && 65 <= b <= 90
        } {
        assert(a =~= b);
    }
}

/// Escaping goes character by character: an ampersand becomes two, and every other character stays.
pub proof fn law_only_ampersands_are_doubled(s: Seq<char>, c: char)
    ensures
        escaped(Seq::empty()) == Seq::<char>::empty(),
        escaped(s.push(c)) == escaped(s) + (if c == '&' {
            seq!['&', '&']
        } else {
            seq![c]
        }),
{
    assert(s.push(c).drop_last() =~= s);
    assert(escaped(s.push(c)) =~= escaped(s) + (if c == '&' {
        seq!['&', '&']
    } else {
        seq![c]
    }));
}

/// A character of the first plane is one unit, its own number; one beyond is a high and a low
/// surrogate. A surrogate that stands alone is read as a replacement character.
pub proof fn law_characters_have_their_units(c: char, lone: u16)
    ensures
        (c as int) < 0x10000 ==> char_units(c) == seq![c as u16],
        c as int >= 0x10000 ==> {
            let units = char_units(c);
            &&& units.len() == 2
            &&& 0xD800 <= units[0] <= 0xDBFF
            &&& 0xDC00 <= units[1] <= 0xDFFF
            &&& 0x10000 + (units[0] - 0xD800) * 0x400 + (units[1] - 0xDC00) == c as int
        },
        0xD800 <= lone <= 0xDFFF ==> utf16_text(seq![lone]) == seq!['\u{FFFD}'],
{
    reveal_with_fuel(utf16_text, 2);
    assert(seq![lone].skip(1) =~= Seq::empty());
}

} // verus!
