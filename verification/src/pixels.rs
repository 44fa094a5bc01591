//! Colors and pixels on their way to the renderer.

use vstd::prelude::*;

use crate::text;

verus! {

/// One channel of a pixel, scaled by the pixel's alpha and rounded.
pub open spec fn scaled(channel: u8, alpha: u8) -> int {
    (channel * alpha + 127) / 255
}

/// What a pixel in the order red, green, blue, alpha becomes.
pub open spec fn premultiplied(pixel: Seq<u8>) -> Seq<u8> {
    seq![
        scaled(pixel[2], pixel[3]) as u8,
        scaled(pixel[1], pixel[3]) as u8,
        scaled(pixel[0], pixel[3]) as u8,
        pixel[3],
    ]
}

pub open spec fn pixel_at(bytes: Seq<u8>, index: int) -> Seq<u8> {
    bytes.subrange(4 * index, 4 * index + 4)
}

proof fn lemma_scaled(channel: u8, alpha: u8)
    ensures
        0 <= scaled(channel, alpha) <= alpha,
        alpha == 255 ==> scaled(channel, alpha) == channel,
{
    if alpha == 255 {
        assert((channel * alpha + 127) / 255 == channel) by (nonlinear_arith)
            requires
                0 <= channel <= 255,
                alpha == 255,
        ;
    }
    assert(0 <= channel * alpha <= 255 * alpha) by (nonlinear_arith)
        requires
            0 <= channel <= 255,
            0 <= alpha,
    ;
}

fn premultiply(channel: u8, alpha: u8) -> (result: u8)
    ensures
        result == scaled(channel, alpha),
        result <= alpha,
{
    proof {
        lemma_scaled(channel, alpha);
        assert(channel * alpha <= 255 * 255) by (nonlinear_arith)
            requires
                channel <= 255,
                alpha <= 255,
        ;
    }
    ((channel as u16 * alpha as u16 + 127) / 255) as u8
}

/// Turns pixels in the order red, green, blue, alpha into the order blue, green, red, alpha, with
/// the colors scaled by alpha. Bytes that are no whole pixel stay as they are.
pub fn to_premultiplied_bgra(bytes: &mut Vec<u8>)
    ensures
        final(bytes)@.len() == old(bytes)@.len(),
        forall|i: int|
            0 <= i < old(bytes)@.len() as int / 4 ==> #[trigger] pixel_at(final(bytes)@, i)
                == premultiplied(pixel_at(old(bytes)@, i)),
        forall|k: int|
            4 * (old(bytes)@.len() as int / 4) <= k < old(bytes)@.len()
                ==> #[trigger] final(bytes)@[k] == old(bytes)@[k],
{
    let count: usize = bytes.len() / 4;
    let mut index: usize = 0;
    while index < count
        invariant
            index <= count,
            4 * count <= bytes@.len(),
            4 * count <= usize::MAX,
            count == old(bytes)@.len() as int / 4,
            bytes@.len() == old(bytes)@.len(),
            forall|i: int|
                0 <= i < index ==> #[trigger] pixel_at(bytes@, i) == premultiplied(
                    pixel_at(old(bytes)@, i),
                ),
            forall|k: int| 4 * index <= k < bytes@.len() ==> #[trigger] bytes@[k] == old(bytes)@[k],
        decreases count - index,
    {
        let ghost before = bytes@;
        let at: usize = index * 4;
        let red: u8 = bytes[at];
        let green: u8 = bytes[at + 1];
        let blue: u8 = bytes[at + 2];
        let alpha: u8 = bytes[at + 3];
        bytes[at] = premultiply(blue, alpha);
        bytes[at + 1] = premultiply(green, alpha);
        bytes[at + 2] = premultiply(red, alpha);
        assert(pixel_at(bytes@, index as int) =~= premultiplied(
            pixel_at(old(bytes)@, index as int),
        ));
        assert forall|i: int| 0 <= i < index implies #[trigger] pixel_at(bytes@, i)
            == premultiplied(pixel_at(old(bytes)@, i)) by {
            assert(pixel_at(bytes@, i) =~= pixel_at(before, i));
        }
        index = index + 1;
    }
}

/// No color of a converted pixel is stronger than the pixel is opaque; where the pixel is opaque
/// the colors are as they were, and where it is transparent there are none.
pub proof fn law_premultiplied_pixels(pixel: Seq<u8>)
    requires
        pixel.len() == 4,
    ensures
        premultiplied(pixel)[0] <= pixel[3],
        premultiplied(pixel)[1] <= pixel[3],
        premultiplied(pixel)[2] <= pixel[3],
        pixel[3] == 255 ==> premultiplied(pixel) == seq![pixel[2], pixel[1], pixel[0], 255u8],
        pixel[3] == 0 ==> premultiplied(pixel) == seq![0u8, 0u8, 0u8, 0u8],
{
    lemma_scaled(pixel[0], pixel[3]);
    lemma_scaled(pixel[1], pixel[3]);
    lemma_scaled(pixel[2], pixel[3]);
    if pixel[3] == 255 {
        assert(premultiplied(pixel) =~= seq![pixel[2], pixel[1], pixel[0], 255u8]);
    }
    if pixel[3] == 0 {
        assert(premultiplied(pixel) =~= seq![0u8, 0u8, 0u8, 0u8]);
    }
}

pub open spec fn dimensions_text(configured: (u32, u32), found: (u32, u32)) -> Seq<char> {
    "image dimensions changed (config "@ + text::decimal(configured.0 as nat) + "x"@
        + text::decimal(configured.1 as nat) + ", file "@ + text::decimal(found.0 as nat) + "x"@
        + text::decimal(found.1 as nat) + ")"@
}

/// Whether a stamp's image is as large as when it was registered.
pub fn check_dimensions(configured: (u32, u32), found: (u32, u32)) -> (problem: Option<String>)
    ensures
        problem is Some == (configured != found),
        problem matches Some(problem) ==> problem@ == dimensions_text(configured, found),
{
    if configured.0 == found.0 && configured.1 == found.1 {
        return None;
    }
    let mut problem = "image dimensions changed (config ".to_owned();
    text::push_decimal(&mut problem, configured.0 as u64);
    problem.append("x");
    text::push_decimal(&mut problem, configured.1 as u64);
    problem.append(", file ");
    text::push_decimal(&mut problem, found.0 as u64);
    problem.append("x");
    text::push_decimal(&mut problem, found.1 as u64);
    problem.append(")");
    Some(problem)
}

/// A color as an item has it written down.
#[derive(Clone, Copy, Debug, PartialEq, Eq, Structural)]
pub enum ItemColor {
    Rgb(u8, u8, u8),
    /// Not a color; the renderer draws in its own.
    Fallback,
}

/// The bytes that a character takes in UTF-8.
pub open spec fn utf8_len(c: char) -> nat {
    if (c as u32) < 0x80 {
        1
    } else if (c as u32) < 0x800 {
        2
    } else if (c as u32) < 0x10000 {
        3
    } else {
        4
    }
}

pub open spec fn utf8_size(s: Seq<char>) -> nat
    decreases s.len(),
{
    if s.len() == 0 {
        0
    } else {
        utf8_len(s[0]) + utf8_size(s.skip(1))
    }
}

pub open spec fn without_hashes(s: Seq<char>) -> Seq<char>
    decreases s.len(),
{
    if s.len() > 0 && s[0] == '#' {
        without_hashes(s.skip(1))
    } else {
        s
    }
}

pub open spec fn hex_digit(c: char) -> Option<u8> {
    if '0' <= c <= '9' {
        Some((c as u8 - '0' as u8) as u8)
    } else if 'a' <= c <= 'f' {
        Some((c as u8 - 'a' as u8 + 10) as u8)
    } else if 'A' <= c <= 'F' {
        Some((c as u8 - 'A' as u8 + 10) as u8)
    } else {
        None
    }
}

/// The number that two characters stand for, or zero. A plus sign may stand before a digit.
pub open spec fn hex_pair(high: char, low: char) -> u8 {
    match (hex_digit(high), hex_digit(low)) {
        (Some(high), Some(low)) => (16 * high + low) as u8,
        (None, Some(low)) => if high == '+' {
            low
        } else {
            0
        },
        _ => 0,
    }
}

/// A text of which each two bytes are whole characters.
pub open spec fn splits_in_pairs(s: Seq<char>) -> bool
    decreases s.len(),
{
    if s.len() == 0 {
        true
    } else if utf8_len(s[0]) == 2 {
        splits_in_pairs(s.skip(1))
    } else {
        s.len() >= 2 && utf8_len(s[0]) == 1 && utf8_len(s[1]) == 1 && splits_in_pairs(s.skip(2))
    }
}

/// The numbers in the pairs of bytes.
pub open spec fn channels(s: Seq<char>) -> Seq<u8>
    decreases s.len(),
{
    if s.len() == 0 {
        Seq::empty()
    } else if utf8_len(s[0]) == 2 {
        seq![0u8] + channels(s.skip(1))
    } else if s.len() == 1 {
        Seq::empty()
    } else {
        seq![hex_pair(s[0], s[1])] + channels(s.skip(2))
    }
}

proof fn lemma_channels(s: Seq<char>)
    requires
        splits_in_pairs(s),
    ensures
        utf8_size(s) == 2 * channels(s).len(),
    decreases s.len(),
{
    reveal_with_fuel(utf8_size, 3);
    if s.len() > 0 {
        if utf8_len(s[0]) == 2 {
            lemma_channels(s.skip(1));
        } else {
            lemma_channels(s.skip(2));
            assert(s.skip(1).skip(1) =~= s.skip(2));
            assert(s.skip(1)[0] == s[1]);
        }
    }
}

fn hex_value(c: char) -> (value: Option<u8>)
    ensures
        value == hex_digit(c),
        value matches Some(value) ==> value < 16,
{
    if c >= '0' && c <= '9' {
        Some(c as u8 - '0' as u8)
    } else if c >= 'a' && c <= 'f' {
        Some(c as u8 - 'a' as u8 + 10)
    } else if c >= 'A' && c <= 'F' {
        Some(c as u8 - 'A' as u8 + 10)
    } else {
        None
    }
}

fn pair_value(high: char, low: char) -> (value: u8)
    ensures
        value == hex_pair(high, low),
{
    match (hex_value(high), hex_value(low)) {
        (Some(high), Some(low)) => 16 * high + low,
        (None, Some(low)) => if high == '+' {
            low
        } else {
            0
        },
        _ => 0,
    }
}

/// Bytes of a character, counted up to seven.
fn add_utf8_len(size: u8, c: char) -> (sum: u8)
    requires
        size <= 7,
    ensures
        sum == if size + utf8_len(c) > 7 {
            7
        } else {
            size + utf8_len(c)
        },
{
    let code: u32 = c as u32;
    let len: u8 = if code < 0x80 {
        1
    } else if code < 0x800 {
        2
    } else if code < 0x10000 {
        3
    } else {
        4
    };
    if size + len > 7 {
        7
    } else {
        size + len
    }
}

/// Reads a color such as `#ff8a3d`. What is not hexadecimal in it counts as zero; a text of
/// another length is no color.
pub fn parse_color(color: &str) -> (parsed: ItemColor)
    requires
        utf8_size(without_hashes(color@)) == 6 ==> splits_in_pairs(without_hashes(color@)),
    ensures
        ({
            let body = without_hashes(color@);
            if utf8_size(body) == 6 {
                &&& channels(body).len() == 3
                &&& parsed == ItemColor::Rgb(
                    channels(body)[0],
                    channels(body)[1],
                    channels(body)[2],
                )
            } else {
                parsed == ItemColor::Fallback
            }
        }),
{
    let chars = text::chars_of(color);
    let mut start: usize = 0;
    assert(chars@.skip(0) =~= chars@);
    while start < chars.len() && chars[start] == '#'
        invariant
            start <= chars@.len(),
            chars@ == color@,
            without_hashes(chars@.skip(start as int)) == without_hashes(color@),
        decreases chars@.len() - start,
    {
        assert(chars@.skip(start as int).skip(1) =~= chars@.skip(start as int + 1));
        start = start + 1;
    }
    let ghost body = without_hashes(color@);
    assert(chars@.skip(start as int) == body);
    let mut size: u8 = 0;
    let mut end: usize = start;
    assert(body.skip(0) =~= body);
    while end < chars.len()
        invariant
            start <= end <= chars@.len(),
            body == chars@.skip(start as int),
            size <= 7,
            size < 7 ==> utf8_size(body) == size + utf8_size(body.skip(end - start)),
            size == 7 ==> utf8_size(body) >= 7,
        decreases chars@.len() - end,
    {
        assert(body.skip(end - start).skip(1) =~= body.skip(end - start + 1));
        assert(body.skip(end - start)[0] == chars@[end as int]);
        size = add_utf8_len(size, chars[end]);
        end = end + 1;
    }
    if size != 6 {
        return ItemColor::Fallback;
    }
    let mut numbers: Vec<u8> = Vec::new();
    let mut at: usize = start;
    assert(body.skip(0) =~= body);
    assert(channels(body) =~= numbers@ + channels(body.skip(0)));
    proof {
        lemma_channels(body);
    }
    while at < chars.len()
        invariant
            start <= at <= chars@.len(),
            body == chars@.skip(start as int),
            splits_in_pairs(body.skip(at - start)),
            channels(body) == numbers@ + channels(body.skip(at - start)),
            channels(body).len() == 3,
        decreases chars@.len() - at,
    {
        let ghost rest = body.skip(at - start);
        let ghost before = numbers@;
        assert(rest[0] == chars@[at as int]);
        if is_two_bytes(chars[at]) {
            numbers.push(0);
            at = at + 1;
            assert(rest.skip(1) =~= body.skip(at - start));
            assert(channels(body) =~= numbers@ + channels(body.skip(at - start)));
        } else {
            assert(rest[1] == chars@[at as int + 1]);
            numbers.push(pair_value(chars[at], chars[at + 1]));
            at = at + 2;
            assert(rest.skip(2) =~= body.skip(at - start));
            assert(channels(body) =~= numbers@ + channels(body.skip(at - start)));
        }
    }
    assert(channels(body) =~= numbers@);
    ItemColor::Rgb(numbers[0], numbers[1], numbers[2])
}

fn is_two_bytes(c: char) -> (two: bool)
    ensures
        two == (utf8_len(c) == 2),
{
    let code: u32 = c as u32;
    code >= 0x80 && code < 0x800
}

/// A pixel's channels are scaled by its alpha to the nearest, and stand in the order blue, green,
/// red, alpha.
pub proof fn law_pixels_are_scaled_and_reordered(pixel: Seq<u8>)
    requires
        pixel.len() == 4,
    ensures
        ({
            let after = premultiplied(pixel);
            &&& after.len() == 4
            &&& after[3] == pixel[3]
            &&& -127 <= after[0] * 255 - pixel[2] * pixel[3] <= 127
            &&& -127 <= after[1] * 255 - pixel[1] * pixel[3] <= 127
            &&& -127 <= after[2] * 255 - pixel[0] * pixel[3] <= 127
        }),
{
    lemma_scaled(pixel[0], pixel[3]);
    lemma_scaled(pixel[1], pixel[3]);
    lemma_scaled(pixel[2], pixel[3]);
}

/// A color that is written in hexadecimal behind a number sign is read back.
pub proof fn law_a_written_color_is_read_back(red: u8, green: u8, blue: u8)
    ensures
        ({
            let digits = seq![
                text::hex_char((red / 16) as nat),
                text::hex_char((red % 16) as nat),
                text::hex_char((green / 16) as nat),
                text::hex_char((green % 16) as nat),
                text::hex_char((blue / 16) as nat),
                text::hex_char((blue % 16) as nat),
            ];
            &&& without_hashes(seq!['#'] + digits) == digits
            &&& without_hashes(digits) == digits
            &&& utf8_size(digits) == 6
            &&& splits_in_pairs(digits)
            &&& channels(digits) == seq![red, green, blue]
        }),
{
    let digits = seq![
        text::hex_char((red / 16) as nat),
        text::hex_char((red % 16) as nat),
        text::hex_char((green / 16) as nat),
        text::hex_char((green % 16) as nat),
        text::hex_char((blue / 16) as nat),
        text::hex_char((blue % 16) as nat),
    ];
    reveal_with_fuel(without_hashes, 2);
    lemma_hex_char(red / 16);
    lemma_hex_char(red % 16);
    lemma_hex_char(green / 16);
    lemma_hex_char(green % 16);
    lemma_hex_char(blue / 16);
    lemma_hex_char(blue % 16);
    let second = seq![digits[2], digits[3], digits[4], digits[5]];
    let third = seq![digits[4], digits[5]];
    assert((seq!['#'] + digits).skip(1) =~= digits);
    assert(digits.skip(2) =~= second);
    assert(second.skip(2) =~= third);
    assert(third.skip(2) =~= Seq::empty());
    assert(forall|i: int| 0 <= i < 6 ==> utf8_len(#[trigger] digits[i]) == 1);
    assert(hex_pair(digits[0], digits[1]) == red);
    assert(hex_pair(digits[2], digits[3]) == green);
    assert(hex_pair(digits[4], digits[5]) == blue);
    assert(channels(Seq::empty()) =~= Seq::<u8>::empty());
    assert(channels(third) =~= seq![blue]);
    assert(channels(second) =~= seq![green, blue]);
    assert(channels(digits) =~= seq![red, green, blue]);
    assert(splits_in_pairs(Seq::empty()));
    assert(splits_in_pairs(third));
    assert(splits_in_pairs(second));
    lemma_channels(digits);
}

proof fn lemma_hex_char(n: u8)
    requires
        n < 16,
    ensures
        hex_digit(text::hex_char(n as nat)) == Some(n),
        utf8_len(text::hex_char(n as nat)) == 1,
        text::hex_char(n as nat) != '#',
{
}

/// The digits of both cases count, and nothing else is a digit; a pair that is not two digits
/// counts as nothing, but for a plus sign before a digit.
pub proof fn law_digits_of_both_cases_count(c: char, high: char, low: char)
    ensures
        hex_digit(c) == hex_digit(text::ascii_lower(c)),
        hex_digit(c) is Some <==> ('0' <= c && c <= '9') || ('a' <= c && c <= 'f') || ('A' <= c
            && c <= 'F'),
        hex_digit(high) is Some && hex_digit(low) is Some ==> hex_pair(high, low) == 16
            * hex_digit(high)->0 + hex_digit(low)->0,
        hex_digit(low) is None ==> hex_pair(high, low) == 0,
        hex_digit(high) is None && high != '+' ==> hex_pair(high, low) == 0,
        high == '+' && hex_digit(low) is Some ==> hex_pair(high, low) == hex_digit(low)->0,
{
}

/// The pixels of an image follow each other without gaps: each byte belongs to exactly one.
pub proof fn law_pixels_follow_each_other(bytes: Seq<u8>, at: int)
    requires
        bytes.len() % 4 == 0,
        0 <= at < bytes.len(),
    ensures
        pixel_at(bytes, at / 4).len() == 4,
        pixel_at(bytes, at / 4)[at % 4] == bytes[at],
{
}

/// A character takes as many bytes as the ranges of its encoding say.
pub proof fn law_characters_take_their_bytes(c: char)
    ensures
        utf8_len(c) == 1 <==> (c as int) < 0x80,
        utf8_len(c) == 2 <==> 0x80 <= c as int && (c as int) < 0x800,
        utf8_len(c) == 3 <==> 0x800 <= c as int && (c as int) < 0x10000,
        utf8_len(c) == 4 <==> 0x10000 <= c as int,
{
}

} // verus!
