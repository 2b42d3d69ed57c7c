//! Signed binary fixed-point numbers in two widths.
//!
//! [`Fixed`] has 32 integer and 32 fractional bits and carries the privacy
//! parameters, the bounds, the budget and the noise. [`WideFixed`] has 64
//! integer and 64 fractional bits and carries the running sum. Both are held
//! as their raw two's-complement bits, and every contract speaks of those
//! bits as mathematical integers: the number that `x` stands for is
//! `x@ / 2^32` for a [`Fixed`] and `x@ / 2^64` for a [`WideFixed`].
//!
//! Sums, differences and byte codecs are computed here. Products, quotients,
//! the narrowing conversion, the logarithm and the decimal notation are those
//! of the `substrate_fixed` crate, reached through the private functions at
//! the end of this file whose contracts are not proved.
use crate::error::ContractError;
use std::str::FromStr;
use substrate_fixed::transcendental::ln;
use substrate_fixed::types::{I32F32, I64F64};
use vstd::prelude::*;

verus! {

/// The bits of the number one in a [`Fixed`]: two to the power 32.
pub const ONE_BITS: i64 = 0x1_0000_0000;

/// The integer in `[-2^63, 2^63)` that is congruent to `x` modulo `2^64`.
pub open spec fn wrap64(x: int) -> int {
    let m = x % 0x1_0000_0000_0000_0000;
    if m >= 0x8000_0000_0000_0000 {
        m - 0x1_0000_0000_0000_0000
    } else {
        m
    }
}

/// The integer in `[-2^127, 2^127)` that is congruent to `x` modulo `2^128`.
pub open spec fn wrap128(x: int) -> int {
    let m = x % 0x1_0000_0000_0000_0000_0000_0000_0000_0000int;
    if m >= 0x8000_0000_0000_0000_0000_0000_0000_0000 {
        m - 0x1_0000_0000_0000_0000_0000_0000_0000_0000int
    } else {
        m
    }
}

/// The quotient of `a` by `b` rounded toward zero, for `b != 0`.
pub open spec fn trunc_div(a: int, b: int) -> int {
    if a >= 0 && b > 0 {
        a / b
    } else if a < 0 && b > 0 {
        -((-a) / b)
    } else if a >= 0 {
        -(a / (-b))
    } else {
        (-a) / (-b)
    }
}

/// A number with 32 integer and 32 fractional bits, held as its raw bits.
#[derive(Clone, Copy, Debug, PartialEq, Eq, Structural)]
pub struct Fixed {
    pub bits: i64,
}

/// A number with 64 integer and 64 fractional bits, held as its raw bits.
#[derive(Clone, Copy, Debug, PartialEq, Eq, Structural)]
pub struct WideFixed {
    pub bits: i128,
}

impl View for Fixed {
    type V = int;

    /// The number scaled by `2^32`.
    open spec fn view(&self) -> int {
        self.bits as int
    }
}

impl View for WideFixed {
    type V = int;

    /// The number scaled by `2^64`.
    open spec fn view(&self) -> int {
        self.bits as int
    }
}

/// The [`Fixed`] whose bits are `x` wrapped into 64 bits.
pub open spec fn wrapped(x: int) -> Fixed {
    Fixed { bits: wrap64(x) as i64 }
}

/// The [`WideFixed`] whose bits are `x` wrapped into 128 bits.
pub open spec fn wide_wrapped(x: int) -> WideFixed {
    WideFixed { bits: wrap128(x) as i128 }
}

impl Fixed {
    /// The sum, wrapped on overflow.
    pub open spec fn spec_wrapping_add(self, rhs: Fixed) -> Fixed {
        wrapped(self@ + rhs@)
    }

    /// The difference, wrapped on overflow.
    pub open spec fn spec_wrapping_sub(self, rhs: Fixed) -> Fixed {
        wrapped(self@ - rhs@)
    }

    /// The negation, wrapped on overflow.
    pub open spec fn spec_wrapping_neg(self) -> Fixed {
        wrapped(-self@)
    }

    /// Twice the number, wrapped on overflow.
    pub open spec fn spec_wrapping_double(self) -> Fixed {
        wrapped(2 * self@)
    }

    /// The product rounded down to a multiple of `2^-32`, wrapped on overflow.
    pub open spec fn spec_wrapping_mul(self, rhs: Fixed) -> Fixed {
        wrapped((self@ * rhs@) / 0x1_0000_0000)
    }

    /// The quotient rounded toward zero to a multiple of `2^-32`, wrapped on
    /// overflow. Meaningful for `rhs@ != 0`.
    pub open spec fn spec_wrapping_div(self, rhs: Fixed) -> Fixed {
        wrapped(trunc_div(self@ * 0x1_0000_0000, rhs@))
    }

    /// The whole number `n`, wrapped on overflow.
    pub open spec fn spec_from_u32(n: u32) -> Fixed {
        wrapped(n * 0x1_0000_0000)
    }

    /// The same number with 64 fractional bits.
    pub open spec fn spec_widen(self) -> WideFixed {
        WideFixed { bits: (self@ * 0x1_0000_0000) as i128 }
    }

    /// The number zero.
    pub fn zero() -> (r: Fixed)
        ensures
            r@ == 0,
    {
        Fixed { bits: 0 }
    }

    /// The number one.
    pub fn one() -> (r: Fixed)
        ensures
            r@ == 0x1_0000_0000,
    {
        Fixed { bits: ONE_BITS }
    }

    /// The number with the given raw bits.
    pub fn from_bits(bits: i64) -> (r: Fixed)
        ensures
            r.bits == bits,
    {
        Fixed { bits }
    }

    /// The raw bits of the number.
    pub fn to_bits(&self) -> (bits: i64)
        ensures
            bits == self.bits,
    {
        self.bits
    }

    /// The whole number `n`. A number of `2^31` or more does not fit and
    /// wraps to `n - 2^32`.
    pub fn from_u32(n: u32) -> (r: Fixed)
        ensures
            r == Fixed::spec_from_u32(n),
            n < 0x8000_0000 ==> r@ == n * 0x1_0000_0000,
    {
        if n < 0x8000_0000 {
            Fixed { bits: (n as i64) * ONE_BITS }
        } else {
            Fixed { bits: ((n as i64) - ONE_BITS) * ONE_BITS }
        }
    }

    /// The sum of two numbers, wrapped on overflow.
    pub fn wrapping_add(self, rhs: Fixed) -> (r: Fixed)
        ensures
            r == self.spec_wrapping_add(rhs),
    {
        Fixed { bits: self.bits.wrapping_add(rhs.bits) }
    }

    /// The difference of two numbers, wrapped on overflow.
    pub fn wrapping_sub(self, rhs: Fixed) -> (r: Fixed)
        ensures
            r == self.spec_wrapping_sub(rhs),
    {
        Fixed { bits: self.bits.wrapping_sub(rhs.bits) }
    }

    /// The negation of the number, wrapped on overflow.
    pub fn wrapping_neg(self) -> (r: Fixed)
        ensures
            r == self.spec_wrapping_neg(),
    {
        let zero: i64 = 0;
        Fixed { bits: zero.wrapping_sub(self.bits) }
    }

    /// Twice the number, wrapped on overflow.
    pub fn wrapping_double(self) -> (r: Fixed)
        ensures
            r == self.spec_wrapping_double(),
    {
        Fixed { bits: self.bits.wrapping_add(self.bits) }
    }

    /// The same number with 64 fractional bits. Nothing is lost.
    pub fn widen(self) -> (r: WideFixed)
        ensures
            r == self.spec_widen(),
            r@ == self@ * 0x1_0000_0000,
    {
        WideFixed { bits: (self.bits as i128) * 0x1_0000_0000 }
    }
}

impl WideFixed {
    /// The sum, wrapped on overflow.
    pub open spec fn spec_wrapping_add(self, rhs: WideFixed) -> WideFixed {
        wide_wrapped(self@ + rhs@)
    }

    /// The quotient rounded toward zero to a multiple of `2^-64`, wrapped on
    /// overflow. Meaningful for `rhs@ != 0`.
    pub open spec fn spec_wrapping_div(self, rhs: WideFixed) -> WideFixed {
        wide_wrapped(trunc_div(self@ * 0x1_0000_0000_0000_0000, rhs@))
    }

    /// The number rounded down to a multiple of `2^-32`, wrapped on overflow.
    pub open spec fn spec_narrow(self) -> Fixed {
        wrapped(self@ / 0x1_0000_0000)
    }

    /// The whole number `n`.
    pub open spec fn spec_from_u32(n: u32) -> WideFixed {
        WideFixed { bits: (n * 0x1_0000_0000_0000_0000) as i128 }
    }

    /// The number zero.
    pub fn zero() -> (r: WideFixed)
        ensures
            r@ == 0,
    {
        WideFixed { bits: 0 }
    }

    /// The number with the given raw bits.
    pub fn from_bits(bits: i128) -> (r: WideFixed)
        ensures
            r.bits == bits,
    {
        WideFixed { bits }
    }

    /// The raw bits of the number.
    pub fn to_bits(&self) -> (bits: i128)
        ensures
            bits == self.bits,
    {
        self.bits
    }

    /// The whole number `n`.
    pub fn from_u32(n: u32) -> (r: WideFixed)
        ensures
            r == WideFixed::spec_from_u32(n),
            r@ == n * 0x1_0000_0000_0000_0000,
    {
        WideFixed { bits: (n as i128) * 0x1_0000_0000_0000_0000 }
    }

    /// The sum of two numbers, wrapped on overflow.
    pub fn wrapping_add(self, rhs: WideFixed) -> (r: WideFixed)
        ensures
            r == self.spec_wrapping_add(rhs),
    {
        WideFixed { bits: self.bits.wrapping_add(rhs.bits) }
    }
}

/// The unsigned number that `bytes` spell, most significant byte first.
pub open spec fn be_value(bytes: Seq<u8>) -> nat
    decreases bytes.len(),
{
    if bytes.len() == 0 {
        0
    } else {
        be_value(bytes.drop_last()) * 256 + bytes.last() as nat
    }
}

/// The `len` low-order base-256 digits of `value`, most significant first.
pub open spec fn be_bytes(value: nat, len: nat) -> Seq<u8>
    decreases len,
{
    if len == 0 {
        Seq::empty()
    } else {
        be_bytes(value / 256, (len - 1) as nat).push((value % 256) as u8)
    }
}

/// 256 to the power `len`: the number of byte strings of that length.
pub open spec fn pow256(len: nat) -> nat
    decreases len,
{
    if len == 0 {
        1
    } else {
        256 * pow256((len - 1) as nat)
    }
}

/// The bits of a 64-bit two's-complement number, read as unsigned.
pub open spec fn unsigned64(bits: int) -> nat {
    if bits < 0 {
        (bits + 0x1_0000_0000_0000_0000) as nat
    } else {
        bits as nat
    }
}

/// The bits of a 128-bit two's-complement number, read as unsigned.
pub open spec fn unsigned128(bits: int) -> nat {
    if bits < 0 {
        (bits + 0x1_0000_0000_0000_0000_0000_0000_0000_0000int) as nat
    } else {
        bits as nat
    }
}

/// The eight bytes of a [`Fixed`], most significant first.
pub open spec fn fixed_be_bytes(x: Fixed) -> Seq<u8> {
    be_bytes(unsigned64(x@), 8)
}

/// The [`Fixed`] that eight bytes spell, most significant first.
pub open spec fn fixed_from_be_bytes(bytes: Seq<u8>) -> Fixed {
    wrapped(be_value(bytes) as int)
}

/// The sixteen bytes of a [`WideFixed`], most significant first.
pub open spec fn wide_be_bytes(x: WideFixed) -> Seq<u8> {
    be_bytes(unsigned128(x@), 16)
}

/// The [`WideFixed`] that sixteen bytes spell, most significant first.
pub open spec fn wide_from_be_bytes(bytes: Seq<u8>) -> WideFixed {
    wide_wrapped(be_value(bytes) as int)
}

/// `be_bytes` yields exactly `len` bytes.
pub proof fn lemma_be_bytes_len(value: nat, len: nat)
    ensures
        be_bytes(value, len).len() == len,
    decreases len,
{
    if len > 0 {
        lemma_be_bytes_len(value / 256, (len - 1) as nat);
    }
}

/// A byte string of length `n` spells a number below `256^n`.
pub proof fn lemma_be_value_bound(bytes: Seq<u8>)
    ensures
        be_value(bytes) < pow256(bytes.len()),
    decreases bytes.len(),
{
    if bytes.len() > 0 {
        lemma_be_value_bound(bytes.drop_last());
    }
}

/// Reading back the digits of a number below `256^len` gives the number.
pub proof fn lemma_be_value_of_bytes(value: nat, len: nat)
    requires
        value < pow256(len),
    ensures
        be_value(be_bytes(value, len)) == value,
    decreases len,
{
    if len > 0 {
        let rest = be_bytes(value / 256, (len - 1) as nat);
        lemma_be_value_of_bytes(value / 256, (len - 1) as nat);
        assert(be_bytes(value, len).drop_last() =~= rest);
    }
}

/// Writing out the number that a byte string spells gives the string.
pub proof fn lemma_be_bytes_of_value(bytes: Seq<u8>)
    ensures
        be_bytes(be_value(bytes), bytes.len()) == bytes,
    decreases bytes.len(),
{
    if bytes.len() > 0 {
        lemma_be_bytes_of_value(bytes.drop_last());
        assert(be_bytes(be_value(bytes), bytes.len()) =~= bytes);
    }
}

/// `256^8` is `2^64` and `256^16` is `2^128`.
pub proof fn lemma_pow256_widths()
    ensures
        pow256(8) == 0x1_0000_0000_0000_0000,
        pow256(16) == 0x1_0000_0000_0000_0000_0000_0000_0000_0000int,
{
    reveal_with_fuel(pow256, 17);
}

/// Encoding a [`Fixed`] and decoding the bytes gives the number back.
pub proof fn lemma_fixed_round_trip(x: Fixed)
    ensures
        fixed_be_bytes(x).len() == 8,
        fixed_from_be_bytes(fixed_be_bytes(x)) == x,
{
    lemma_pow256_widths();
    lemma_be_bytes_len(unsigned64(x@), 8);
    lemma_be_value_of_bytes(unsigned64(x@), 8);
}

/// Decoding eight bytes and encoding the number gives the bytes back.
pub proof fn lemma_fixed_bytes_round_trip(bytes: Seq<u8>)
    requires
        bytes.len() == 8,
    ensures
        fixed_be_bytes(fixed_from_be_bytes(bytes)) == bytes,
{
    lemma_pow256_widths();
    lemma_be_value_bound(bytes);
    lemma_be_bytes_of_value(bytes);
}

/// Encoding a [`WideFixed`] and decoding the bytes gives the number back.
pub proof fn lemma_wide_round_trip(x: WideFixed)
    ensures
        wide_be_bytes(x).len() == 16,
        wide_from_be_bytes(wide_be_bytes(x)) == x,
{
    lemma_pow256_widths();
    lemma_be_bytes_len(unsigned128(x@), 16);
    lemma_be_value_of_bytes(unsigned128(x@), 16);
}

/// Decoding sixteen bytes and encoding the number gives the bytes back.
pub proof fn lemma_wide_bytes_round_trip(bytes: Seq<u8>)
    requires
        bytes.len() == 16,
    ensures
        wide_be_bytes(wide_from_be_bytes(bytes)) == bytes,
{
    lemma_pow256_widths();
    lemma_be_value_bound(bytes);
    lemma_be_bytes_of_value(bytes);
}

/// Writes the `len` low-order base-256 digits of `value`.
fn encode_be(value: u128, len: usize) -> (bytes: Vec<u8>)
    ensures
        bytes@ == be_bytes(value as nat, len as nat),
    decreases len,
{
    if len == 0 {
        Vec::new()
    } else {
        let mut bytes = encode_be(value / 256, len - 1);
        bytes.push((value % 256) as u8);
        bytes
    }
}

/// Reads the unsigned number that at most sixteen bytes spell.
fn decode_be(bytes: &Vec<u8>) -> (value: u128)
    requires
        bytes@.len() <= 16,
    ensures
        value == be_value(bytes@),
{
    let mut value: u128 = 0;
    let mut i: usize = 0;
    while i < bytes.len()
        invariant
            i <= bytes@.len() <= 16,
            value == be_value(bytes@.take(i as int)),
            value < pow256(i as nat),
        decreases bytes@.len() - i,
    {
        proof {
            reveal_with_fuel(pow256, 17);
            assert(pow256(i as nat) <= pow256(15)) by {
                lemma_pow256_monotonic(i as nat, 15);
            }
            assert(bytes@.take(i + 1).drop_last() =~= bytes@.take(i as int));
        }
        value = value * 256 + bytes[i] as u128;
        i = i + 1;
    }
    proof {
        assert(bytes@.take(i as int) =~= bytes@);
    }
    value
}

/// A longer byte string has at least as many values.
pub proof fn lemma_pow256_monotonic(a: nat, b: nat)
    requires
        a <= b,
    ensures
        pow256(a) <= pow256(b),
        pow256(a) > 0,
    decreases b,
{
    if a < b {
        lemma_pow256_monotonic(a, (b - 1) as nat);
    } else if a > 0 {
        lemma_pow256_monotonic((a - 1) as nat, (a - 1) as nat);
    }
}

impl Fixed {
    /// The eight bytes of the number, most significant first.
    pub fn to_be_bytes(&self) -> (bytes: Vec<u8>)
        ensures
            bytes@ == fixed_be_bytes(*self),
            bytes@.len() == 8,
    {
        let unsigned: u64 = if self.bits >= 0 {
            self.bits as u64
        } else {
            ((self.bits + i64::MAX + 1) as u64) + 0x8000_0000_0000_0000
        };
        proof {
            lemma_be_bytes_len(unsigned as nat, 8);
        }
        encode_be(unsigned as u128, 8)
    }
}

impl WideFixed {
    /// The sixteen bytes of the number, most significant first.
    pub fn to_be_bytes(&self) -> (bytes: Vec<u8>)
        ensures
            bytes@ == wide_be_bytes(*self),
            bytes@.len() == 16,
    {
        let unsigned: u128 = if self.bits >= 0 {
            self.bits as u128
        } else {
            ((self.bits + i128::MAX + 1) as u128) + 0x8000_0000_0000_0000_0000_0000_0000_0000
        };
        proof {
            lemma_be_bytes_len(unsigned as nat, 16);
        }
        encode_be(unsigned, 16)
    }
}

/// What decoding a byte string as a [`Fixed`] gives.
pub open spec fn decoded_fixed(bytes: Seq<u8>) -> Result<Fixed, ContractError> {
    if bytes.len() == 8 {
        Ok(fixed_from_be_bytes(bytes))
    } else {
        Err(ContractError::StorageDecodeError)
    }
}

/// What decoding a byte string as a [`WideFixed`] gives.
pub open spec fn decoded_wide(bytes: Seq<u8>) -> Result<WideFixed, ContractError> {
    if bytes.len() == 16 {
        Ok(wide_from_be_bytes(bytes))
    } else {
        Err(ContractError::StorageDecodeError)
    }
}

/// Reads a [`Fixed`] from its eight bytes, most significant first. Any other
/// length is refused.
pub fn byte_vec_to_fixed(byte_vec: Vec<u8>) -> (r: Result<Fixed, ContractError>)
    ensures
        r == decoded_fixed(byte_vec@),
{
    fixed_from_bytes(&byte_vec)
}

/// Reads a [`WideFixed`] from its sixteen bytes, most significant first. Any
/// other length is refused.
pub fn byte_vec_to_fixed64(byte_vec: Vec<u8>) -> (r: Result<WideFixed, ContractError>)
    ensures
        r == decoded_wide(byte_vec@),
{
    wide_from_bytes(&byte_vec)
}

/// [`byte_vec_to_fixed`] on borrowed bytes.
pub fn fixed_from_bytes(bytes: &Vec<u8>) -> (r: Result<Fixed, ContractError>)
    ensures
        r == decoded_fixed(bytes@),
{
    if bytes.len() != 8 {
        return Err(ContractError::StorageDecodeError);
    }
    let unsigned: u128 = decode_be(bytes);
    proof {
        lemma_be_value_bound(bytes@);
        lemma_pow256_widths();
    }
    let bits: i64 = if unsigned < 0x8000_0000_0000_0000 {
        unsigned as i64
    } else {
        ((unsigned - 0x8000_0000_0000_0000) as i64) + i64::MIN
    };
    Ok(Fixed { bits })
}

/// [`byte_vec_to_fixed64`] on borrowed bytes.
pub fn wide_from_bytes(bytes: &Vec<u8>) -> (r: Result<WideFixed, ContractError>)
    ensures
        r == decoded_wide(bytes@),
{
    if bytes.len() != 16 {
        return Err(ContractError::StorageDecodeError);
    }
    let unsigned: u128 = decode_be(bytes);
    let bits: i128 = if unsigned < 0x8000_0000_0000_0000_0000_0000_0000_0000 {
        unsigned as i128
    } else {
        ((unsigned - 0x8000_0000_0000_0000_0000_0000_0000_0000) as i128) + i128::MIN
    };
    Ok(WideFixed { bits })
}

/// What `I32F32::from_str` makes of a decimal string: the bits of the number
/// it denotes, rounded to the nearest multiple of `2^-32`, or nothing where
/// the string is malformed or the number does not fit.
pub uninterp spec fn parsed_decimal(text: Seq<char>) -> Option<i64>;

/// The decimal notation that `Display` gives the `I32F32` with these bits.
pub uninterp spec fn decimal_text(bits: i64) -> Seq<char>;

/// What `transcendental::ln` makes of the `I32F32` with these bits: the bits
/// of its approximation of the natural logarithm, or nothing where it
/// reports an error.
pub uninterp spec fn ln_bits(bits: i64) -> Option<i64>;

/// The number with the given bits, where there are any.
pub open spec fn fixed_of_bits(bits: Option<i64>) -> Option<Fixed> {
    match bits {
        Some(b) => Some(Fixed { bits: b }),
        None => None,
    }
}

/// What [`fixed_from_str`] returns for a string.
pub open spec fn parsed_fixed(text: Seq<char>) -> Result<Fixed, ContractError> {
    match parsed_decimal(text) {
        Some(b) => Ok(Fixed { bits: b }),
        None => Err(ContractError::InvalidNumber),
    }
}

/// Reads a number in decimal notation. A string that is not such a notation,
/// or whose number does not fit, is refused with `InvalidNumber`.
pub fn fixed_from_str(string: String) -> (r: Result<Fixed, ContractError>)
    ensures
        r == parsed_fixed(string@),
{
    match parse_decimal(string.as_str()) {
        Some(value) => Ok(value),
        None => Err(ContractError::InvalidNumber),
    }
}

impl Fixed {
    /// The natural logarithm as the fixed-point routine approximates it, or
    /// nothing where the routine gives up.
    pub open spec fn spec_ln(self) -> Option<Fixed> {
        fixed_of_bits(ln_bits(self.bits))
    }

    /// The number in decimal notation.
    pub fn to_string(&self) -> (text: String)
        ensures
            text@ == decimal_text(self.bits),
    {
        format_decimal(*self)
    }

    /// The product of two numbers, rounded down to a multiple of `2^-32` and
    /// wrapped on overflow.
    pub fn wrapping_mul(self, rhs: Fixed) -> (r: Fixed)
        ensures
            r == self.spec_wrapping_mul(rhs),
    {
        multiply(self, rhs)
    }

    /// The quotient of two numbers, rounded toward zero to a multiple of
    /// `2^-32` and wrapped on overflow.
    pub fn wrapping_div(self, rhs: Fixed) -> (r: Fixed)
        requires
            rhs@ != 0,
        ensures
            r == self.spec_wrapping_div(rhs),
    {
        divide(self, rhs)
    }

    /// The natural logarithm of a positive number, as the fixed-point
    /// routine approximates it. The routine gives up on the two smallest
    /// positive numbers, whose reciprocal does not fit.
    pub fn ln(self) -> (r: Option<Fixed>)
        requires
            self@ > 0,
        ensures
            r == self.spec_ln(),
    {
        natural_log(self)
    }
}

impl WideFixed {
    /// The quotient of two numbers, rounded toward zero to a multiple of
    /// `2^-64` and wrapped on overflow.
    pub fn wrapping_div(self, rhs: WideFixed) -> (r: WideFixed)
        requires
            rhs@ != 0,
        ensures
            r == self.spec_wrapping_div(rhs),
    {
        wide_divide(self, rhs)
    }

    /// The number with 32 fractional bits: rounded down to a multiple of
    /// `2^-32` and wrapped where it does not fit.
    pub fn narrow(self) -> (r: Fixed)
        ensures
            r == self.spec_narrow(),
    {
        narrow_wide(self)
    }
}

/// Calls `I32F32::from_str`. Trusted: the result is what that function makes
/// of the string, the bits of the parsed number or nothing on its error.
#[verifier::external_body]
fn parse_decimal(text: &str) -> (r: Option<Fixed>)
    ensures
        r == fixed_of_bits(parsed_decimal(text@)),
{
    match I32F32::from_str(text) {
        Ok(value) => Some(Fixed { bits: value.to_bits() }),
        Err(_) => None,
    }
}

/// Calls `to_string` on an `I32F32`. Trusted: the result is the decimal
/// notation that its `Display` gives the number with these bits.
#[verifier::external_body]
fn format_decimal(x: Fixed) -> (text: String)
    ensures
        text@ == decimal_text(x.bits),
{
    I32F32::from_bits(x.bits).to_string()
}

/// Calls `I32F32::wrapping_mul`. Trusted: the 128-bit product of the bits is
/// shifted right by 32 and cut to its low 64 bits.
#[verifier::external_body]
fn multiply(a: Fixed, b: Fixed) -> (r: Fixed)
    ensures
        r@ == wrap64((a@ * b@) / 0x1_0000_0000),
{
    Fixed { bits: I32F32::from_bits(a.bits).wrapping_mul(I32F32::from_bits(b.bits)).to_bits() }
}

/// Calls `I32F32::wrapping_div`, which panics on a zero divisor. Trusted: the
/// dividend's bits shifted left by 32 are divided in 128 bits, rounding
/// toward zero, and the quotient is cut to its low 64 bits.
#[verifier::external_body]
fn divide(a: Fixed, b: Fixed) -> (r: Fixed)
    requires
        b@ != 0,
    ensures
        r@ == wrap64(trunc_div(a@ * 0x1_0000_0000, b@)),
{
    Fixed { bits: I32F32::from_bits(a.bits).wrapping_div(I32F32::from_bits(b.bits)).to_bits() }
}

/// Calls `I64F64::wrapping_div`, which panics on a zero divisor. Trusted: the
/// dividend's bits shifted left by 64 are divided in 256 bits, rounding
/// toward zero, and the quotient is cut to its low 128 bits.
#[verifier::external_body]
fn wide_divide(a: WideFixed, b: WideFixed) -> (r: WideFixed)
    requires
        b@ != 0,
    ensures
        r@ == wrap128(trunc_div(a@ * 0x1_0000_0000_0000_0000, b@)),
{
    WideFixed { bits: I64F64::from_bits(a.bits).wrapping_div(I64F64::from_bits(b.bits)).to_bits() }
}

/// Calls `I32F32::wrapping_from_num` on an `I64F64`. Trusted: the bits are
/// shifted right by 32, which rounds down, and cut to their low 64 bits.
#[verifier::external_body]
fn narrow_wide(x: WideFixed) -> (r: Fixed)
    ensures
        r@ == wrap64(x@ / 0x1_0000_0000),
{
    Fixed { bits: I32F32::wrapping_from_num(I64F64::from_bits(x.bits)).to_bits() }
}

/// Calls `transcendental::ln` from `I32F32` to `I32F32`. Trusted: the result
/// is what that function makes of the number, the bits of the logarithm or
/// nothing on its error. It is called on positive numbers only.
#[verifier::external_body]
fn natural_log(x: Fixed) -> (r: Option<Fixed>)
    requires
        x@ > 0,
    ensures
        r == fixed_of_bits(ln_bits(x.bits)),
{
    match ln::<I32F32, I32F32>(I32F32::from_bits(x.bits)) {
        Ok(value) => Some(Fixed { bits: value.to_bits() }),
        Err(_) => None,
    }
}

} // verus!
