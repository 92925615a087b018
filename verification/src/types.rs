//! What every part of the library shares: errors and results, the stand-in
//! for a sample, and the names by which the native layer knows a choice.

use vstd::prelude::*;
use vstd::string::StrSliceExecFns;

verus! {

/// What an operation reports when it cannot be carried out.
#[derive(Debug, Clone, Copy, PartialEq, Eq, Hash, Structural)]
pub enum Error {
    /// The native layer handed back no object for the requested geometry.
    FailedInit,
    /// A buffer is shorter than the operation needs.
    MismatchSize,
    /// A name or an index is not one the library knows.
    InvalidArg,
}

impl Error {
    /// What the error says of itself.
    pub open spec fn message(&self) -> Seq<char> {
        match self {
            Error::FailedInit => "creation error"@,
            Error::MismatchSize => "data size mismatch"@,
            Error::InvalidArg => "invalid argument"@,
        }
    }

    /// The message of the error, as it is displayed.
    pub fn to_string(&self) -> (s: String)
        ensures
            s@ == self.message(),
    {
        match self {
            Error::FailedInit => "creation error".to_owned(),
            Error::MismatchSize => "data size mismatch".to_owned(),
            Error::InvalidArg => "invalid argument".to_owned(),
        }
    }
}

/// Result with a payload.
pub type Result<T> = core::result::Result<T, Error>;

/// Result of an operation that yields nothing but success or failure.
pub type Status = Result<()>;

/// Accepts the address of a freshly created native object: address zero is
/// the null pointer and means that creation failed.
pub fn check_init(raw: usize) -> (r: Status)
    ensures
        match r {
            Ok(()) => raw != 0,
            Err(e) => raw == 0 && e == Error::FailedInit,
        },
{
    if raw == 0 {
        Err(Error::FailedInit)
    } else {
        Ok(())
    }
}

/// A sample or a parameter value: a single-precision number, held by the
/// 32 bits of its IEEE-754 encoding. The library never computes with such a
/// value; it stores it, hands it on and tells its sign.
///
/// Two values are equal when their bits are: a NaN equals itself, and the
/// two zeros differ.
#[derive(Debug, Clone, Copy, PartialEq, Eq, Hash, Structural)]
pub struct Smpl {
    pub bits: u32,
}

impl Smpl {
    /// Whether the value is numerically zero: all bits but the sign are
    /// clear.
    pub open spec fn is_zero_spec(self) -> bool {
        self.bits == 0 || self.bits == 0x8000_0000
    }

    /// The value with the given encoding.
    pub fn from_bits(bits: u32) -> (v: Smpl)
        ensures
            v.bits == bits,
    {
        Smpl { bits }
    }

    /// The encoding of the value.
    pub fn to_bits(self) -> (bits: u32)
        ensures
            bits == self.bits,
    {
        self.bits
    }

    /// Positive zero.
    pub fn zero() -> (v: Smpl)
        ensures
            v.bits == 0,
    {
        Smpl { bits: 0 }
    }

    /// Whether the value is greater than zero: the sign is clear, and the
    /// rest is neither all clear, which is zero, nor beyond the encoding of
    /// infinity, which is no number.
    pub open spec fn is_positive_spec(self) -> bool {
        0 < self.bits <= 0x7f80_0000
    }

    /// Whether the value is greater than zero; a NaN is not.
    #[verifier::when_used_as_spec(is_positive_spec)]
    pub fn is_positive(self) -> (p: bool)
        ensures
            p == self.is_positive_spec(),
    {
        0 < self.bits && self.bits <= 0x7f80_0000
    }

    /// Whether the value is numerically zero, of either sign.
    #[verifier::when_used_as_spec(is_zero_spec)]
    pub fn is_zero(self) -> (z: bool)
        ensures
            z == self.is_zero_spec(),
    {
        let bits = self.bits;
        assert((bits & 0x7fff_ffff == 0) <==> (bits == 0 || bits == 0x8000_0000)) by (bit_vector);
        self.bits & 0x7fff_ffff == 0
    }
}

/// A stretch of time, in the unit in which it was given.
#[derive(Debug, PartialEq, Eq, Hash, Structural)]
pub enum Span<N> {
    /// A count of samples.
    Samples(N),
    /// Seconds.
    Seconds(Smpl),
    /// Milliseconds.
    Millis(Smpl),
}

/// A choice that the native layer knows by name.
pub trait AsNativeStr {
    /// The name, as the native layer spells it.
    spec fn name(&self) -> Seq<char>;

    /// The name followed by the terminator that the native layer expects.
    fn as_native_str(&self) -> (s: &'static str)
        ensures
            s@ == self.name().push('\0'),
            s.is_ascii(),
    ;

    /// The name alone.
    fn as_rust_str(&self) -> (s: &'static str)
        ensures
            s@ == self.name(),
    {
        let terminated: &'static str = self.as_native_str();
        let n: usize = terminated.unicode_len();
        let name = terminated.substring_ascii(0, n - 1);
        assert(name@ =~= self.name());
        name
    }
}

/// Whether two strings hold the same characters. The strings are compared
/// byte by byte: the encoding of a string determines its characters.
pub(crate) fn str_eq(a: &str, b: &str) -> (same: bool)
    ensures
        same == (a@ == b@),
{
    let x = a.as_bytes();
    let y = b.as_bytes();
    assert(x@ == vstd::utf8::encode_utf8(a@));
    assert(y@ == vstd::utf8::encode_utf8(b@));
    proof {
        vstd::utf8::encode_utf8_decode_utf8(a@);
        vstd::utf8::encode_utf8_decode_utf8(b@);
    }
    if x.len() != y.len() {
        return false;
    }
    let mut i: usize = 0;
    while i < x.len()
        invariant
            x@ == vstd::utf8::encode_utf8(a@),
            y@ == vstd::utf8::encode_utf8(b@),
            x@.len() == y@.len(),
            i <= x@.len(),
            forall|k: int| 0 <= k < i ==> x@[k] == y@[k],
        decreases x@.len() - i,
    {
        if x[i] != y[i] {
            return false;
        }
        i += 1;
    }
    assert(x@ =~= y@);
    true
}

} // verus!
