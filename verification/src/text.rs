//! Text of numbers and names, as std's and ash's formatting writes it.

use vstd::prelude::*;
use ash::vk;

verus! {

/// The character of the digit `d` (below 16): `0`-`9`, then `A`-`F`.
pub open spec fn digit_char(d: nat) -> char {
    if d < 10 { (48 + d) as char } else { (55 + d) as char }
}

/// The digits of `x` in base `base` (2 to 16), most significant first,
/// without leading zeros (`0` is written as one digit).
pub open spec fn digits(x: nat, base: nat) -> Seq<char>
    decreases x,
{
    if base < 2 || x < base {
        seq![digit_char(x % 16)]
    } else {
        proof {
            vstd::arithmetic::div_mod::lemma_div_decreases(x as int, base as int);
        }
        digits(x / base, base).push(digit_char(x % base))
    }
}

/// The decimal digits of `x`, as `<u64 as ToString>::to_string` writes them.
pub open spec fn decimal(x: u64) -> Seq<char> {
    digits(x as nat, 10)
}

/// Digits are never empty.
pub proof fn lemma_digits_nonempty(x: nat, base: nat)
    ensures digits(x, base).len() > 0,
    decreases x,
{
    if !(base < 2 || x < base) {
        vstd::arithmetic::div_mod::lemma_div_decreases(x as int, base as int);
        lemma_digits_nonempty(x / base, base);
    }
}

/// `x.to_string()` (std's `<u64 as ToString>::to_string`): its decimal digits.
#[verifier::external_body]
pub(crate) fn decimal_string(x: u64) -> (r: String)
    ensures r@ == decimal(x),
{
    x.to_string()
}

/// The text `<[u8]>::escape_ascii` writes for the bytes of `s`: printable
/// ASCII as it is, except `'`, `"` and `\\`, which are escaped by a
/// backslash; tabs, line feeds and carriage returns as `\\t`, `\\n`, `\\r`;
/// any other byte as `\\x` and two hexadecimal digits.
pub uninterp spec fn escape_ascii(s: Seq<char>) -> Seq<char>;

/// `s.as_bytes().escape_ascii().to_string()` (std's `<[u8]>::escape_ascii`).
#[verifier::external_body]
pub(crate) fn escape_ascii_string(s: &str) -> (r: String)
    ensures r@ == escape_ascii(s@),
{
    s.as_bytes().escape_ascii().to_string()
}

/// The text ash's `Debug` writes for the raw queue flags `raw`: the names of
/// the flags set, joined by `" | "`.
pub uninterp spec fn queue_flags_text(raw: u32) -> Seq<char>;

/// `format!("{:?}", vk::QueueFlags::from_raw(raw))` (ash's
/// `<QueueFlags as Debug>::fmt`).
#[verifier::external_body]
pub(crate) fn queue_flags_string(raw: u32) -> (r: String)
    ensures r@ == queue_flags_text(raw),
{
    format!("{:?}", vk::QueueFlags::from_raw(raw))
}

/// The text `{:#X}` writes for `x`: `0x` and its upper-case hexadecimal digits.
pub open spec fn upper_hex(x: u64) -> Seq<char> {
    "0x"@ + digits(x as nat, 16)
}

/// `format!("{:#X}", x)` (std's `<u64 as UpperHex>::fmt` with `#`).
#[verifier::external_body]
pub(crate) fn upper_hex_string(x: u64) -> (r: String)
    ensures r@ == upper_hex(x),
{
    format!("{:#X}", x)
}

} // verus!
