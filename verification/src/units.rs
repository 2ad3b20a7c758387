//! Unit values for sample rates, frequencies and durations: conversions and
//! comparisons across scales, and the textual grammar `<digits>[hHkKmM]?`.

use crate::text::{decimal_digits, decimal_text, digit_char};
use std::str::FromStr;
use vstd::prelude::*;
use vstd::std_specs::cmp::PartialEqSpec;
use vstd::std_specs::convert::FromSpec;

verus! {

/// Samples per second.
#[derive(Debug, Copy, Clone, Eq, PartialEq, Ord, PartialOrd, Hash, Structural)]
pub struct Sps(pub u64);

/// Hertz, the base unit of frequency.
#[derive(Debug, Copy, Clone, Eq, PartialEq, Ord, PartialOrd, Hash, Structural)]
pub struct Hertz(pub u64);

/// Thousands of Hertz.
#[derive(Debug, Copy, Clone, Eq, PartialEq, Ord, PartialOrd, Hash, Structural)]
pub struct KiloHertz(pub u64);

/// Millions of Hertz.
#[derive(Debug, Copy, Clone, Eq, PartialEq, Ord, PartialOrd, Hash, Structural)]
pub struct MegaHertz(pub u64);

/// Milliseconds.
#[derive(Debug, Copy, Clone, Eq, PartialEq, Ord, PartialOrd, Hash, Structural)]
pub struct MilliSeconds(pub u64);

pub const ONE_KHZ: u64 = 1_000;

pub const ONE_MHZ: u64 = 1_000_000;

pub const ONE_GHZ: u64 = 1_000_000_000;

impl Hertz {
    /// The magnitude in Hertz, as a mathematical integer.
    pub open spec fn in_hertz(self) -> int {
        self.0 as int
    }
}

impl KiloHertz {
    /// The magnitude in Hertz, as a mathematical integer.
    pub open spec fn in_hertz(self) -> int {
        self.0 * 1_000
    }
}

impl MegaHertz {
    /// The magnitude in Hertz, as a mathematical integer.
    pub open spec fn in_hertz(self) -> int {
        self.0 * 1_000_000
    }
}

/// Wraps a bare integer in a unit.
pub trait UnitExt: Sized {
    /// The magnitude that the integer stands for.
    spec fn magnitude(self) -> u64;

    /// Wrap in `Sps`
    fn sps(self) -> (r: Sps)
        ensures
            r.0 == self.magnitude(),
    ;

    /// Wrap in `Hertz`
    fn hz(self) -> (r: Hertz)
        ensures
            r.0 == self.magnitude(),
    ;

    /// Wrap in `KiloHertz`
    fn khz(self) -> (r: KiloHertz)
        ensures
            r.0 == self.magnitude(),
    ;

    /// Wrap in `MegaHertz`
    fn mhz(self) -> (r: MegaHertz)
        ensures
            r.0 == self.magnitude(),
    ;

    /// Wrap in `MilliSeconds`
    fn ms(self) -> (r: MilliSeconds)
        ensures
            r.0 == self.magnitude(),
    ;
}

impl UnitExt for u32 {
    open spec fn magnitude(self) -> u64 {
        self as u64
    }

    fn sps(self) -> (r: Sps) {
        Sps(self as u64)
    }

    fn hz(self) -> (r: Hertz) {
        Hertz(self as u64)
    }

    fn khz(self) -> (r: KiloHertz) {
        KiloHertz(self as u64)
    }

    fn mhz(self) -> (r: MegaHertz) {
        MegaHertz(self as u64)
    }

    fn ms(self) -> (r: MilliSeconds) {
        MilliSeconds(self as u64)
    }
}

impl UnitExt for u64 {
    open spec fn magnitude(self) -> u64 {
        self
    }

    fn sps(self) -> (r: Sps) {
        Sps(self)
    }

    fn hz(self) -> (r: Hertz) {
        Hertz(self)
    }

    fn khz(self) -> (r: KiloHertz) {
        KiloHertz(self)
    }

    fn mhz(self) -> (r: MegaHertz) {
        MegaHertz(self)
    }

    fn ms(self) -> (r: MilliSeconds) {
        MilliSeconds(self)
    }
}

/// `value * factor`, reduced modulo 2^64. Where the product fits in 64 bits
/// it is the exact product.
pub open spec fn scale_up(value: u64, factor: u64) -> u64 {
    ((value * factor) % 0x1_0000_0000_0000_0000) as u64
}

fn scale_up_exec(value: u64, factor: u64) -> (r: u64)
    requires
        factor <= 1_000_000,
    ensures
        r == scale_up(value, factor),
        value * factor <= u64::MAX ==> r == value * factor,
{
    assert(value * factor <= 0xffff_ffff_ffff_ffff * 1_000_000) by (nonlinear_arith)
        requires
            value <= 0xffff_ffff_ffff_ffff,
            factor <= 1_000_000,
    ;
    let wide: u128 = value as u128 * factor as u128;
    (wide % 0x1_0000_0000_0000_0000u128) as u64
}

/// The product `value * factor` where it fits in 64 bits, and nothing
/// where it does not.
fn scale_checked(value: u64, factor: u64) -> (r: Option<u64>)
    requires
        0 < factor <= 1_000_000,
    ensures
        value * factor <= u64::MAX ==> r == Some((value * factor) as u64),
        value * factor > u64::MAX ==> r is None,
{
    if value <= u64::MAX / factor {
        assert(value * factor <= u64::MAX) by (nonlinear_arith)
            requires
                value <= u64::MAX / factor,
                0 < factor,
        ;
        Some(value * factor)
    } else {
        assert(value * factor > u64::MAX) by (nonlinear_arith)
            requires
                value > u64::MAX / factor,
                0 < factor,
        ;
        None
    }
}

impl From<u64> for Hertz {
    fn from(val: u64) -> (r: Hertz)
        ensures
            r.0 == val,
    {
        Hertz(val)
    }
}

impl vstd::std_specs::convert::FromSpecImpl<u64> for Hertz {
    open spec fn obeys_from_spec() -> bool {
        true
    }

    open spec fn from_spec(v: u64) -> Hertz {
        Hertz(v)
    }
}

impl From<u64> for KiloHertz {
    fn from(val: u64) -> (r: KiloHertz)
        ensures
            r.0 == val,
    {
        KiloHertz(val)
    }
}

impl vstd::std_specs::convert::FromSpecImpl<u64> for KiloHertz {
    open spec fn obeys_from_spec() -> bool {
        true
    }

    open spec fn from_spec(v: u64) -> KiloHertz {
        KiloHertz(v)
    }
}

impl From<u64> for MegaHertz {
    fn from(val: u64) -> (r: MegaHertz)
        ensures
            r.0 == val,
    {
        MegaHertz(val)
    }
}

impl vstd::std_specs::convert::FromSpecImpl<u64> for MegaHertz {
    open spec fn obeys_from_spec() -> bool {
        true
    }

    open spec fn from_spec(v: u64) -> MegaHertz {
        MegaHertz(v)
    }
}

/// Kilohertz to Hertz: the exact product by 1,000 wherever it fits in 64
/// bits, which covers the device's whole range; beyond that the product
/// reduced modulo 2^64.
impl From<KiloHertz> for Hertz {
    fn from(value: KiloHertz) -> (r: Hertz)
        ensures
            r.0 == scale_up(value.0, 1_000),
            value.in_hertz() <= u64::MAX ==> r.in_hertz() == value.in_hertz(),
    {
        Hertz(scale_up_exec(value.0, 1_000))
    }
}

impl vstd::std_specs::convert::FromSpecImpl<KiloHertz> for Hertz {
    open spec fn obeys_from_spec() -> bool {
        true
    }

    open spec fn from_spec(v: KiloHertz) -> Hertz {
        Hertz(scale_up(v.0, 1_000))
    }
}

/// Megahertz to Hertz: the exact product by 1,000,000 wherever it fits in
/// 64 bits; beyond that the product reduced modulo 2^64.
impl From<MegaHertz> for Hertz {
    fn from(value: MegaHertz) -> (r: Hertz)
        ensures
            r.0 == scale_up(value.0, 1_000_000),
            value.in_hertz() <= u64::MAX ==> r.in_hertz() == value.in_hertz(),
    {
        Hertz(scale_up_exec(value.0, 1_000_000))
    }
}

impl vstd::std_specs::convert::FromSpecImpl<MegaHertz> for Hertz {
    open spec fn obeys_from_spec() -> bool {
        true
    }

    open spec fn from_spec(v: MegaHertz) -> Hertz {
        Hertz(scale_up(v.0, 1_000_000))
    }
}

/// Megahertz to kilohertz: the exact product by 1,000 wherever it fits in
/// 64 bits; beyond that the product reduced modulo 2^64.
impl From<MegaHertz> for KiloHertz {
    fn from(value: MegaHertz) -> (r: KiloHertz)
        ensures
            r.0 == scale_up(value.0, 1_000),
            value.0 * 1_000 <= u64::MAX ==> r.in_hertz() == value.in_hertz(),
    {
        KiloHertz(scale_up_exec(value.0, 1_000))
    }
}

impl vstd::std_specs::convert::FromSpecImpl<MegaHertz> for KiloHertz {
    open spec fn obeys_from_spec() -> bool {
        true
    }

    open spec fn from_spec(v: MegaHertz) -> KiloHertz {
        KiloHertz(scale_up(v.0, 1_000))
    }
}

/// A frequency in Hertz equals one in kilohertz exactly when both denote the
/// same number of Hertz.
impl PartialEq<KiloHertz> for Hertz {
    fn eq(&self, other: &KiloHertz) -> (r: bool) {
        other.0 <= u64::MAX / 1_000 && self.0 == other.0 * 1_000
    }
}

impl vstd::std_specs::cmp::PartialEqSpecImpl<KiloHertz> for Hertz {
    open spec fn obeys_eq_spec() -> bool {
        true
    }

    open spec fn eq_spec(&self, other: &KiloHertz) -> bool {
        self.in_hertz() == other.in_hertz()
    }
}

impl PartialEq<Hertz> for KiloHertz {
    fn eq(&self, other: &Hertz) -> (r: bool) {
        self.0 <= u64::MAX / 1_000 && self.0 * 1_000 == other.0
    }
}

impl vstd::std_specs::cmp::PartialEqSpecImpl<Hertz> for KiloHertz {
    open spec fn obeys_eq_spec() -> bool {
        true
    }

    open spec fn eq_spec(&self, other: &Hertz) -> bool {
        self.in_hertz() == other.in_hertz()
    }
}

impl PartialEq<MegaHertz> for Hertz {
    fn eq(&self, other: &MegaHertz) -> (r: bool) {
        other.0 <= u64::MAX / 1_000_000 && self.0 == other.0 * 1_000_000
    }
}

impl vstd::std_specs::cmp::PartialEqSpecImpl<MegaHertz> for Hertz {
    open spec fn obeys_eq_spec() -> bool {
        true
    }

    open spec fn eq_spec(&self, other: &MegaHertz) -> bool {
        self.in_hertz() == other.in_hertz()
    }
}

impl PartialEq<Hertz> for MegaHertz {
    fn eq(&self, other: &Hertz) -> (r: bool) {
        self.0 <= u64::MAX / 1_000_000 && self.0 * 1_000_000 == other.0
    }
}

impl vstd::std_specs::cmp::PartialEqSpecImpl<Hertz> for MegaHertz {
    open spec fn obeys_eq_spec() -> bool {
        true
    }

    open spec fn eq_spec(&self, other: &Hertz) -> bool {
        self.in_hertz() == other.in_hertz()
    }
}

impl PartialEq<MegaHertz> for KiloHertz {
    fn eq(&self, other: &MegaHertz) -> (r: bool) {
        other.0 <= u64::MAX / 1_000 && self.0 == other.0 * 1_000
    }
}

impl vstd::std_specs::cmp::PartialEqSpecImpl<MegaHertz> for KiloHertz {
    open spec fn obeys_eq_spec() -> bool {
        true
    }

    open spec fn eq_spec(&self, other: &MegaHertz) -> bool {
        self.in_hertz() == other.in_hertz()
    }
}

impl PartialEq<KiloHertz> for MegaHertz {
    fn eq(&self, other: &KiloHertz) -> (r: bool) {
        self.0 <= u64::MAX / 1_000 && self.0 * 1_000 == other.0
    }
}

impl vstd::std_specs::cmp::PartialEqSpecImpl<KiloHertz> for MegaHertz {
    open spec fn obeys_eq_spec() -> bool {
        true
    }

    open spec fn eq_spec(&self, other: &KiloHertz) -> bool {
        self.in_hertz() == other.in_hertz()
    }
}

/// A kilohertz value equals the Hertz value of a thousand times its
/// magnitude, whichever of the two stands on the left, and that Hertz value
/// is what it converts to.
pub proof fn lemma_kilohertz_equals_its_hertz(a: KiloHertz)
    requires
        a.0 * 1_000 <= u64::MAX,
    ensures
        a.eq_spec(&Hertz((a.0 * 1_000) as u64)),
        Hertz((a.0 * 1_000) as u64).eq_spec(&a),
        Hertz::from_spec(a) == Hertz((a.0 * 1_000) as u64),
{
}

/// A megahertz value equals what it converts to, in Hertz and in
/// kilohertz, wherever the conversion stays within 64 bits.
pub proof fn lemma_megahertz_equals_its_multiples(a: MegaHertz)
    requires
        a.0 * 1_000_000 <= u64::MAX,
    ensures
        a.eq_spec(&Hertz::from_spec(a)),
        Hertz::from_spec(a).eq_spec(&a),
        a.eq_spec(&KiloHertz::from_spec(a)),
        KiloHertz::from_spec(a).eq_spec(&a),
        Hertz::from_spec(KiloHertz::from_spec(a)) == Hertz::from_spec(a),
{
}

/// Equality across scales is symmetric, and it holds exactly when both
/// sides denote the same number of Hertz.
pub proof fn lemma_cross_scale_eq_symmetric(h: Hertz, k: KiloHertz, m: MegaHertz)
    ensures
        h.eq_spec(&k) == k.eq_spec(&h),
        h.eq_spec(&m) == m.eq_spec(&h),
        k.eq_spec(&m) == m.eq_spec(&k),
        h.eq_spec(&k) <==> h.0 == k.0 * 1_000,
        h.eq_spec(&m) <==> h.0 == m.0 * 1_000_000,
        k.eq_spec(&m) <==> k.0 == m.0 * 1_000,
{
}

/// Why a piece of text is no unsigned 64-bit integer.
#[derive(Debug, Copy, Clone, Eq, PartialEq, Hash, Structural)]
pub enum IntFault {
    /// Nothing stands where the integer should.
    Empty,
    /// A character that is no decimal digit, before the value left 64 bits.
    InvalidDigit,
    /// The value does not fit in 64 bits.
    Overflow,
}

impl IntFault {
    pub open spec fn message_spec(self) -> Seq<char> {
        match self {
            IntFault::Empty => "cannot parse integer from empty string"@,
            IntFault::InvalidDigit => "invalid digit found in string"@,
            IntFault::Overflow => "number too large to fit in target type"@,
        }
    }

    /// The sentence that describes the fault to a user.
    pub fn message(self) -> (text: &'static str)
        ensures
            text@ == self.message_spec(),
    {
        match self {
            IntFault::Empty => "cannot parse integer from empty string",
            IntFault::InvalidDigit => "invalid digit found in string",
            IntFault::Overflow => "number too large to fit in target type",
        }
    }
}

/// Why a piece of text is no frequency or rate.
#[derive(Debug, Copy, Clone, Eq, PartialEq, Hash, Structural)]
pub enum UnitFault {
    /// The text is empty.
    Empty,
    /// The part of the text that should be an integer is none, or the scaled
    /// value does not fit in 64 bits.
    Int(IntFault),
}

/// The error of parsing a frequency or a rate.
#[derive(Debug, PartialEq)]
pub enum ParseUnitError {
    /// The text is empty.
    Empty,
    /// The unit is not known.
    UnitError,
    /// The integer part could not be read; the text says why.
    IntError(String),
}

impl Clone for ParseUnitError {
    fn clone(&self) -> (copy: ParseUnitError)
        ensures
            copy == *self,
    {
        match self {
            ParseUnitError::Empty => ParseUnitError::Empty,
            ParseUnitError::UnitError => ParseUnitError::UnitError,
            ParseUnitError::IntError(text) => ParseUnitError::IntError(text.clone()),
        }
    }
}

impl ParseUnitError {
    /// Whether this error reports the given fault.
    pub open spec fn reports(self, fault: UnitFault) -> bool {
        match fault {
            UnitFault::Empty => self is Empty,
            UnitFault::Int(why) => self matches ParseUnitError::IntError(text) && text@
                == why.message_spec(),
        }
    }
}

pub open spec fn is_digit(c: char) -> bool {
    '0' <= c && c <= '9'
}

/// The value of a decimal digit.
pub open spec fn digit_value(c: char) -> nat
    recommends
        is_digit(c),
{
    if is_digit(c) {
        (c as u32 - '0' as u32) as nat
    } else {
        0
    }
}

pub open spec fn all_digits(s: Seq<char>) -> bool {
    forall|i: int| 0 <= i < s.len() ==> is_digit(#[trigger] s[i])
}

/// The number that a sequence of decimal digits denotes, the first digit
/// being the most significant. The empty sequence denotes zero.
pub open spec fn decimal_value(s: Seq<char>) -> nat
    decreases s.len(),
{
    if s.len() == 0 {
        0
    } else {
        decimal_value(s.drop_last()) * 10 + digit_value(s.last())
    }
}

/// The digits of an integer: the text itself, or what follows a single
/// leading plus sign when something follows it.
pub open spec fn unsigned_part(s: Seq<char>) -> Seq<char> {
    if s.len() > 1 && s[0] == '+' {
        s.skip(1)
    } else {
        s
    }
}

/// Whether some leading run of digits already denotes more than 64 bits
/// hold.
pub open spec fn leading_digits_overflow(d: Seq<char>) -> bool {
    exists|k: int|
        0 <= k <= d.len() && all_digits(#[trigger] d.take(k)) && decimal_value(d.take(k))
            > u64::MAX
}

/// What a piece of text denotes as an unsigned 64-bit integer. The text is
/// read from the left: the fault reported is the first that is met.
pub open spec fn parse_int(s: Seq<char>) -> Result<u64, IntFault> {
    let d = unsigned_part(s);
    if s.len() == 0 {
        Err(IntFault::Empty)
    } else if leading_digits_overflow(d) {
        Err(IntFault::Overflow)
    } else if !all_digits(d) {
        Err(IntFault::InvalidDigit)
    } else {
        Ok(decimal_value(d) as u64)
    }
}

/// The factor that a trailing unit character stands for, if it is one.
pub open spec fn suffix_scale(c: char) -> Option<u64> {
    if c == 'h' || c == 'H' {
        Some(1u64)
    } else if c == 'k' || c == 'K' {
        Some(1_000u64)
    } else if c == 'm' || c == 'M' {
        Some(1_000_000u64)
    } else {
        None
    }
}

/// What a piece of text denotes in the base unit: an integer, or an integer
/// followed by one unit character by whose factor it is multiplied.
pub open spec fn parse_unit(s: Seq<char>) -> Result<u64, UnitFault> {
    if s.len() == 0 {
        Err(UnitFault::Empty)
    } else {
        match suffix_scale(s.last()) {
            Some(factor) => match parse_int(s.drop_last()) {
                Ok(v) => if v * factor <= u64::MAX {
                    Ok((v * factor) as u64)
                } else {
                    Err(UnitFault::Int(IntFault::Overflow))
                },
                Err(why) => Err(UnitFault::Int(why)),
            },
            None => match parse_int(s) {
                Ok(v) => Ok(v),
                Err(why) => Err(UnitFault::Int(why)),
            },
        }
    }
}

/// A prefix of a text denotes no more than the text.
pub proof fn lemma_decimal_prefix_le(s: Seq<char>, k: int)
    requires
        0 <= k <= s.len(),
    ensures
        decimal_value(s.take(k)) <= decimal_value(s),
    decreases s.len(),
{
    if k == s.len() {
        assert(s.take(k) =~= s);
    } else {
        lemma_decimal_prefix_le(s.drop_last(), k);
        assert(s.drop_last().take(k) =~= s.take(k));
    }
}

/// Digits whose value fits in 64 bits have no leading run that overflows.
pub proof fn lemma_no_overflow(d: Seq<char>, n: int)
    requires
        0 <= n <= d.len(),
        decimal_value(d.take(n)) <= u64::MAX,
        n == d.len() || !is_digit(d[n]),
    ensures
        !leading_digits_overflow(d),
{
    assert forall|k: int| 0 <= k <= d.len() && all_digits(#[trigger] d.take(k)) implies decimal_value(
        d.take(k),
    ) <= u64::MAX by {
        if k > n {
            assert(d.take(k)[n] == d[n]);
        } else {
            lemma_decimal_prefix_le(d.take(n), k);
            assert(d.take(n).take(k) =~= d.take(k));
        }
    }
}

/// The characters of `s`, in one pass over it.
fn chars_of(s: &str) -> (chars: Vec<char>)
    ensures
        chars@ == s@,
{
    broadcast use vstd::string::group_string_axioms;

    let mut chars: Vec<char> = Vec::new();
    for c in it: s.chars()
        invariant
            it.seq() == s@,
            chars@ == s@.take(it.index() as int),
    {
        chars.push(c);
        assert(chars@ =~= s@.take(it.index() + 1));
    }
    assert(chars@ =~= s@);
    chars
}

/// Reads the first `end` characters of `s` as an unsigned 64-bit integer.
fn parse_int_prefix(s: &Vec<char>, end: usize) -> (r: Result<u64, IntFault>)
    requires
        end <= s@.len(),
    ensures
        r == parse_int(s@.take(end as int)),
{
    let ghost text = s@.take(end as int);
    if end == 0 {
        return Err(IntFault::Empty);
    }
    let mut i: usize = 0;
    if end > 1 && s[0] == '+' {
        i = 1;
    }
    let start: usize = i;
    let ghost d = unsigned_part(text);
    assert(d =~= text.skip(start as int));
    let mut acc: u64 = 0;
    assert(d.take(0) =~= Seq::<char>::empty());
    while i < end
        invariant
            start <= i <= end,
            end <= s@.len(),
            text == s@.take(end as int),
            d == text.skip(start as int),
            d == unsigned_part(text),
            text.len() > 0,
            d.len() == end - start,
            all_digits(d.take(i - start)),
            acc == decimal_value(d.take(i - start)),
        decreases end - i,
    {
        let c = s[i];
        let ghost n = i - start;
        assert(d[n] == c);
        if !(c >= '0' && c <= '9') {
            proof {
                lemma_no_overflow(d, n);
                assert(!is_digit(d[n]));
            }
            return Err(IntFault::InvalidDigit);
        }
        let digit: u64 = (c as u32 - '0' as u32) as u64;
        proof {
            assert(d.take(n + 1).drop_last() =~= d.take(n));
            assert(d.take(n + 1).last() == c);
            assert(decimal_value(d.take(n + 1)) == acc * 10 + digit);
            assert(all_digits(d.take(n + 1))) by {
                assert forall|j: int| 0 <= j < n + 1 implies is_digit(
                    #[trigger] d.take(n + 1)[j],
                ) by {
                    if j < n {
                        assert(d.take(n)[j] == d.take(n + 1)[j]);
                    }
                }
            }
        }
        if acc > (u64::MAX - digit) / 10 {
            return Err(IntFault::Overflow);
        }
        acc = acc * 10 + digit;
        i = i + 1;
    }
    proof {
        assert(d.take(end - start) =~= d);
        lemma_no_overflow(d, end - start);
    }
    Ok(acc)
}

/// Reads a frequency or a rate in the base unit from `s`.
fn parse_unit_text(s: &str) -> (r: Result<u64, UnitFault>)
    ensures
        r == parse_unit(s@),
{
    let chars = chars_of(s);
    let len = chars.len();
    if len == 0 {
        return Err(UnitFault::Empty);
    }
    let last = chars[len - 1];
    let factor: Option<u64> = if last == 'h' || last == 'H' {
        Some(1u64)
    } else if last == 'k' || last == 'K' {
        Some(1_000u64)
    } else if last == 'm' || last == 'M' {
        Some(1_000_000u64)
    } else {
        None
    };
    assert(s@.take(len as int) =~= s@);
    assert(s@.take(len - 1) =~= s@.drop_last());
    match factor {
        Some(factor) => match parse_int_prefix(&chars, len - 1) {
            Ok(v) => match scale_checked(v, factor) {
                Some(scaled) => Ok(scaled),
                None => Err(UnitFault::Int(IntFault::Overflow)),
            },
            Err(why) => Err(UnitFault::Int(why)),
        },
        None => match parse_int_prefix(&chars, len) {
            Ok(v) => Ok(v),
            Err(why) => Err(UnitFault::Int(why)),
        },
    }
}

fn unit_error(fault: UnitFault) -> (e: ParseUnitError)
    ensures
        e.reports(fault),
{
    match fault {
        UnitFault::Empty => ParseUnitError::Empty,
        UnitFault::Int(why) => ParseUnitError::IntError(why.message().to_owned()),
    }
}

/// Reads a frequency: a non-negative integer in Hertz, or an integer
/// followed by one of `h`, `k`, `m` in either case, for Hertz, kilohertz and
/// megahertz. Text that denotes more Hertz than 64 bits hold is refused as
/// too large.
impl FromStr for Hertz {
    type Err = ParseUnitError;

    fn from_str(s: &str) -> (r: Result<Hertz, ParseUnitError>)
        ensures
            match parse_unit(s@) {
                Ok(v) => r == Ok::<Hertz, ParseUnitError>(Hertz(v)),
                Err(fault) => r matches Err(e) && e.reports(fault),
            },
    {
        match parse_unit_text(s) {
            Ok(v) => Ok(Hertz(v)),
            Err(fault) => Err(unit_error(fault)),
        }
    }
}

/// Reads a sample rate, in the grammar of a frequency.
impl FromStr for Sps {
    type Err = ParseUnitError;

    fn from_str(s: &str) -> (r: Result<Sps, ParseUnitError>)
        ensures
            match parse_unit(s@) {
                Ok(v) => r == Ok::<Sps, ParseUnitError>(Sps(v)),
                Err(fault) => r matches Err(e) && e.reports(fault),
            },
    {
        match Hertz::from_str(s) {
            Ok(rate) => Ok(Sps(rate.0)),
            Err(e) => Err(e),
        }
    }
}

/// Digits alone denote their value in the base unit.
pub proof fn lemma_parse_bare(digits: Seq<char>)
    requires
        digits.len() > 0,
        all_digits(digits),
        decimal_value(digits) <= u64::MAX,
    ensures
        parse_unit(digits) == Ok::<u64, UnitFault>(decimal_value(digits) as u64),
{
    assert(is_digit(digits[0]));
    assert(is_digit(digits.last()));
    assert(digits.take(digits.len() as int) =~= digits);
    lemma_no_overflow(digits, digits.len() as int);
}

/// Digits followed by one unit character denote the digits' value times
/// the factor of the unit, exactly.
pub proof fn lemma_parse_scaled(digits: Seq<char>, suffix: char)
    requires
        digits.len() > 0,
        all_digits(digits),
        suffix_scale(suffix) is Some,
        decimal_value(digits) * suffix_scale(suffix).unwrap() <= u64::MAX,
    ensures
        parse_unit(digits.push(suffix)) == Ok::<u64, UnitFault>(
            (decimal_value(digits) * suffix_scale(suffix).unwrap()) as u64,
        ),
{
    let text = digits.push(suffix);
    let factor = suffix_scale(suffix).unwrap();
    assert(text.drop_last() =~= digits);
    assert(text.last() == suffix);
    assert(is_digit(digits[0]));
    assert(decimal_value(digits) <= decimal_value(digits) * factor) by (nonlinear_arith)
        requires
            factor >= 1,
    ;
    assert(digits.take(digits.len() as int) =~= digits);
    lemma_no_overflow(digits, digits.len() as int);
}

/// Only the empty text is refused as empty.
pub proof fn lemma_parse_empty(s: Seq<char>)
    ensures
        parse_unit(s) == Err::<u64, UnitFault>(UnitFault::Empty) <==> s.len() == 0,
{
}

/// Text that begins with neither a digit nor a plus sign is refused as no
/// integer, whatever follows.
pub proof fn lemma_parse_bad_prefix(s: Seq<char>)
    requires
        s.len() > 0,
        !is_digit(s[0]),
        s[0] != '+',
    ensures
        parse_unit(s) matches Err(UnitFault::Int(why)) && why != IntFault::Overflow,
        s.len() > 1 || suffix_scale(s[0]) is None ==> parse_unit(s) == Err::<u64, UnitFault>(
            UnitFault::Int(IntFault::InvalidDigit),
        ),
{
    let head = s.drop_last();
    assert(s.take(0) =~= Seq::<char>::empty());
    lemma_no_overflow(s, 0);
    if head.len() > 0 {
        assert(head[0] == s[0]);
        assert(head.take(0) =~= Seq::<char>::empty());
        lemma_no_overflow(head, 0);
    }
}

/// The scale at which a magnitude is shown: the largest whose threshold the
/// magnitude reaches.
#[derive(Debug, Copy, Clone, Eq, PartialEq, Hash, Structural)]
pub enum Scale {
    /// Below one thousand: shown as an exact integer.
    Base,
    Kilo,
    Mega,
    Giga,
}

impl Scale {
    pub open spec fn of_spec(magnitude: u64) -> Scale {
        if magnitude >= ONE_GHZ {
            Scale::Giga
        } else if magnitude >= ONE_MHZ {
            Scale::Mega
        } else if magnitude >= ONE_KHZ {
            Scale::Kilo
        } else {
            Scale::Base
        }
    }

    pub open spec fn divisor_spec(self) -> u64 {
        match self {
            Scale::Base => 1,
            Scale::Kilo => ONE_KHZ,
            Scale::Mega => ONE_MHZ,
            Scale::Giga => ONE_GHZ,
        }
    }

    /// The scale at which `magnitude` is shown.
    pub fn of(magnitude: u64) -> (scale: Scale)
        ensures
            scale == Scale::of_spec(magnitude),
            scale.divisor_spec() <= magnitude || magnitude == 0,
            scale != Scale::Giga ==> magnitude < 1_000 * scale.divisor_spec(),
    {
        if magnitude >= ONE_GHZ {
            Scale::Giga
        } else if magnitude >= ONE_MHZ {
            Scale::Mega
        } else if magnitude >= ONE_KHZ {
            Scale::Kilo
        } else {
            Scale::Base
        }
    }

    /// The number of base units in one unit of this scale.
    pub fn divisor(self) -> (d: u64)
        ensures
            d == self.divisor_spec(),
    {
        match self {
            Scale::Base => 1,
            Scale::Kilo => ONE_KHZ,
            Scale::Mega => ONE_MHZ,
            Scale::Giga => ONE_GHZ,
        }
    }

    /// The unit of a frequency at each scale: `Hz`, `kHz` with a small k,
    /// `MHz` and `GHz`.
    pub open spec fn hertz_suffix_spec(self) -> Seq<char> {
        match self {
            Scale::Base => "Hz"@,
            Scale::Kilo => "kHz"@,
            Scale::Mega => "MHz"@,
            Scale::Giga => "GHz"@,
        }
    }

    /// The unit that follows a frequency shown at this scale.
    pub fn hertz_suffix(self) -> (text: &'static str)
        ensures
            text@ == self.hertz_suffix_spec(),
    {
        match self {
            Scale::Base => "Hz",
            Scale::Kilo => "kHz",
            Scale::Mega => "MHz",
            Scale::Giga => "GHz",
        }
    }

    /// The unit of a sample rate at each scale: `Sps`, `KSps` with a
    /// capital K, `MSps` and `GSps`.
    pub open spec fn sps_suffix_spec(self) -> Seq<char> {
        match self {
            Scale::Base => "Sps"@,
            Scale::Kilo => "KSps"@,
            Scale::Mega => "MSps"@,
            Scale::Giga => "GSps"@,
        }
    }

    /// The unit that follows a sample rate shown at this scale.
    pub fn sps_suffix(self) -> (text: &'static str)
        ensures
            text@ == self.sps_suffix_spec(),
    {
        match self {
            Scale::Base => "Sps",
            Scale::Kilo => "KSps",
            Scale::Mega => "MSps",
            Scale::Giga => "GSps",
        }
    }
}

impl KiloHertz {
    pub open spec fn text(self) -> Seq<char> {
        decimal_digits(self.0 as nat) + " kHz"@
    }

    /// The magnitude in decimal, followed by the unit.
    pub fn to_string(&self) -> (text: String)
        ensures
            text@ == self.text(),
    {
        let mut text = decimal_text(self.0);
        text.append(" kHz");
        text
    }
}

impl MegaHertz {
    pub open spec fn text(self) -> Seq<char> {
        decimal_digits(self.0 as nat) + " MHz"@
    }

    /// The magnitude in decimal, followed by the unit.
    pub fn to_string(&self) -> (text: String)
        ensures
            text@ == self.text(),
    {
        let mut text = decimal_text(self.0);
        text.append(" MHz");
        text
    }
}

/// How a magnitude is shown with its unit: below one thousand the exact
/// integer, and from there on the mantissa that the caller rendered at the
/// magnitude's scale; then a space and the unit.
pub open spec fn pretty_text(magnitude: u64, mantissa: Seq<char>, unit: Seq<char>) -> Seq<char> {
    if Scale::of_spec(magnitude) == Scale::Base {
        decimal_digits(magnitude as nat) + " "@ + unit
    } else {
        mantissa + " "@ + unit
    }
}

fn pretty_fmt(magnitude: u64, mantissa: &str, unit: &str) -> (text: String)
    ensures
        text@ == pretty_text(magnitude, mantissa@, unit@),
{
    let mut text = match Scale::of(magnitude) {
        Scale::Base => decimal_text(magnitude),
        _ => mantissa.to_owned(),
    };
    text.append(" ");
    text.append(unit);
    text
}

/// Shows a frequency at the largest scale that it reaches. `mantissa` is
/// the frequency divided by `Scale::of(h.0).divisor()` as the caller
/// rendered it, to four decimals; below one kilohertz it is not used and
/// the exact number of Hertz is shown.
pub fn pretty_fmt_hz(h: Hertz, mantissa: &str) -> (text: String)
    ensures
        text@ == pretty_text(h.0, mantissa@, Scale::of_spec(h.0).hertz_suffix_spec()),
{
    pretty_fmt(h.0, mantissa, Scale::of(h.0).hertz_suffix())
}

/// Shows a sample rate at the largest scale that it reaches. `mantissa` is
/// the rate divided by `Scale::of(rate.0).divisor()` as the caller rendered
/// it, to four decimals; below one thousand samples per second it is not
/// used and the exact rate is shown.
pub fn pretty_fmt_sps(rate: Sps, mantissa: &str) -> (text: String)
    ensures
        text@ == pretty_text(rate.0, mantissa@, Scale::of_spec(rate.0).sps_suffix_spec()),
{
    pretty_fmt(rate.0, mantissa, Scale::of(rate.0).sps_suffix())
}

/// A frequency from one thousand up to one million Hertz is shown as its
/// mantissa, a space and `kHz`; a sample rate in that range as its mantissa,
/// a space and `KSps`.
pub proof fn lemma_kilo_scale_text(magnitude: u64, mantissa: Seq<char>)
    requires
        1_000 <= magnitude < 1_000_000,
    ensures
        pretty_text(magnitude, mantissa, Scale::of_spec(magnitude).hertz_suffix_spec()) == mantissa
            + " "@ + "kHz"@,
        pretty_text(magnitude, mantissa, Scale::of_spec(magnitude).sps_suffix_spec()) == mantissa
            + " "@ + "KSps"@,
{
}

/// The decimal text of a magnitude reads back as that magnitude.
pub proof fn lemma_decimal_round_trip(n: u64)
    ensures
        all_digits(decimal_digits(n as nat)),
        decimal_value(decimal_digits(n as nat)) == n,
        parse_unit(decimal_digits(n as nat)) == Ok::<u64, UnitFault>(n),
{
    lemma_decimal_digits_value(n as nat);
    lemma_parse_bare(decimal_digits(n as nat));
}

proof fn lemma_decimal_digits_value(n: nat)
    ensures
        decimal_digits(n).len() > 0,
        all_digits(decimal_digits(n)),
        decimal_value(decimal_digits(n)) == n,
    decreases n,
{
    let c = digit_char(n % 10);
    assert(is_digit(c) && digit_value(c) == n % 10);
    if n < 10 {
        let one = seq![c];
        assert(one.drop_last() =~= Seq::<char>::empty());
        assert(decimal_value(one.drop_last()) == 0);
        assert(one.last() == c);
    } else {
        let head = decimal_digits(n / 10);
        lemma_decimal_digits_value(n / 10);
        assert(head.push(c).drop_last() =~= head);
        assert(head.push(c).last() == c);
    }
}

} // verus!
