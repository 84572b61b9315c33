//! Activity colours: `#rrggbb` in lower-case hexadecimal.
use vstd::prelude::*;

verus! {

/// The sixteen lower-case hexadecimal digits, in order of value.
pub open spec fn hex_digits() -> Seq<char> {
    seq!['0', '1', '2', '3', '4', '5', '6', '7', '8', '9', 'a', 'b', 'c', 'd', 'e', 'f']
}

/// The two digits of a byte, most significant first.
pub open spec fn hex_pair(b: u8) -> Seq<char> {
    seq![hex_digits()[b as int / 16], hex_digits()[b as int % 16]]
}

/// The colour code of a red, green and blue channel.
pub open spec fn color_code(r: u8, g: u8, b: u8) -> Seq<char> {
    seq!['#'] + hex_pair(r) + hex_pair(g) + hex_pair(b)
}

/// A lower-case hexadecimal digit.
pub open spec fn is_hex_char(c: char) -> bool {
    ('0' <= c && c <= '9') || ('a' <= c && c <= 'f')
}

/// The value of a lower-case hexadecimal digit.
pub open spec fn hex_value(c: char) -> int {
    if '0' <= c && c <= '9' {
        c as int - '0' as int
    } else {
        c as int - 'a' as int + 10
    }
}

/// The value of the two digits that start at `i`.
pub open spec fn pair_value(s: Seq<char>, i: int) -> int {
    16 * hex_value(s[i]) + hex_value(s[i + 1])
}

/// The one-character string of a digit.
fn digit(n: u8) -> (r: &'static str)
    requires
        n < 16,
    ensures
        r@ == seq![hex_digits()[n as int]],
{
    let table = "0123456789abcdef";
    proof {
        reveal_strlit("0123456789abcdef");
    }
    assert(table@ =~= hex_digits());
    let r = table.substring_char(n as usize, n as usize + 1);
    assert(r@ =~= seq![hex_digits()[n as int]]);
    r
}

/// Formats a colour as `#` followed by two lower-case hexadecimal digits per channel.
pub fn format_color(r: u8, g: u8, b: u8) -> (s: String)
    ensures
        s@ == color_code(r, g, b),
{
    let mut s = String::from_str("#");
    proof {
        reveal_strlit("#");
    }
    s.append(digit(r / 16));
    s.append(digit(r % 16));
    s.append(digit(g / 16));
    s.append(digit(g % 16));
    s.append(digit(b / 16));
    s.append(digit(b % 16));
    assert(s@ =~= color_code(r, g, b));
    s
}

/// Relies on rand::Rng::gen_range over rand::thread_rng with the inclusive range
/// `0..=255`: one byte drawn uniformly. The range is not empty, so the call does not
/// panic; nothing is known of the value drawn.
#[verifier::external_body]
fn random_channel() -> (c: u8) {
    rand::Rng::gen_range(&mut rand::thread_rng(), 0..=255u8)
}

/// Draws a colour from three independent random channels.
pub fn create_random_color() -> (s: String)
    ensures
        exists|r: u8, g: u8, b: u8| s@ == color_code(r, g, b),
{
    let r = random_channel();
    let g = random_channel();
    let b = random_channel();
    format_color(r, g, b)
}

proof fn lemma_hex_digit(k: int)
    requires
        0 <= k < 16,
    ensures
        is_hex_char(hex_digits()[k]),
        hex_value(hex_digits()[k]) == k,
{
}

/// A colour code is `#` followed by six lower-case hexadecimal digits, and each
/// pair of digits reads back as the channel it was made from, so its value lies
/// in `0..=255`.
pub proof fn lemma_color_code_shape(r: u8, g: u8, b: u8)
    ensures
        color_code(r, g, b).len() == 7,
        color_code(r, g, b)[0] == '#',
        forall|i: int| 1 <= i < 7 ==> is_hex_char(#[trigger] color_code(r, g, b)[i]),
        pair_value(color_code(r, g, b), 1) == r,
        pair_value(color_code(r, g, b), 3) == g,
        pair_value(color_code(r, g, b), 5) == b,
        0 <= pair_value(color_code(r, g, b), 1) <= 255,
        0 <= pair_value(color_code(r, g, b), 3) <= 255,
        0 <= pair_value(color_code(r, g, b), 5) <= 255,
{
    let c = color_code(r, g, b);
    lemma_hex_digit(r as int / 16);
    lemma_hex_digit(r as int % 16);
    lemma_hex_digit(g as int / 16);
    lemma_hex_digit(g as int % 16);
    lemma_hex_digit(b as int / 16);
    lemma_hex_digit(b as int % 16);
    assert(c[1] == hex_digits()[r as int / 16]);
    assert(c[2] == hex_digits()[r as int % 16]);
    assert(c[3] == hex_digits()[g as int / 16]);
    assert(c[4] == hex_digits()[g as int % 16]);
    assert(c[5] == hex_digits()[b as int / 16]);
    assert(c[6] == hex_digits()[b as int % 16]);
}

} // verus!
