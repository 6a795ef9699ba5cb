//! The Win32 status code wrapper and its conversions to and from the
//! unified `HRESULT` space.

use crate::decimal::{dec_seq, push_decimal};
use crate::error::Error;
use crate::hresult::HRESULT;
use vstd::prelude::*;
use vstd::string::StringExecFns;

verus! {

/// An error or status code value returned by some operating system
/// functions: zero is success, every nonzero value names a failure
/// condition.
#[allow(non_camel_case_types)]
#[derive(Copy, Clone, Debug, PartialEq, Eq, Structural, PartialOrd, Ord, Hash)]
#[must_use]
pub struct WIN32_ERROR(pub u32);

/// The bits of the `HRESULT` a status code maps to: a code whose signed
/// reading is at most zero passes through unchanged; any other code keeps
/// its low 16 bits, takes facility 7 and has the severity bit set.
pub open spec fn hresult_bits_of(c: u32) -> u32 {
    if c as i32 <= 0 {
        c
    } else {
        (c & 0x0000_FFFF) | (7u32 << 16u32) | 0x8000_0000
    }
}

/// The status code recovered from `HRESULT` bits: the low 16 bits when
/// the facility field is 7, nothing otherwise.
pub open spec fn win32_of_hresult_bits(h: u32) -> Option<u32> {
    if (h >> 16u32) & 0x7FF == 7 {
        Some(h & 0xFFFF)
    } else {
        None
    }
}

impl WIN32_ERROR {
    /// Whether the code is the success code, zero.
    pub open spec fn spec_is_ok(self) -> bool {
        self.0 == 0
    }

    /// Whether the code is a failure code, that is, nonzero.
    pub open spec fn spec_is_err(self) -> bool {
        !self.spec_is_ok()
    }

    /// The `HRESULT` the code maps to.
    pub open spec fn spec_to_hresult(self) -> HRESULT {
        HRESULT(hresult_bits_of(self.0) as i32)
    }

    /// The status code an error's `HRESULT` maps back to, when its
    /// facility field is 7.
    pub open spec fn spec_from_error(error: Error) -> Option<WIN32_ERROR> {
        match win32_of_hresult_bits(error.spec_code().spec_bits()) {
            Some(c) => Some(WIN32_ERROR(c)),
            None => None,
        }
    }

    /// Returns `true` if `self` is a success code.
    pub fn is_ok(self) -> (r: bool)
        ensures
            r == self.spec_is_ok(),
            r == (self.0 == 0),
    {
        self.0 == 0
    }

    /// Returns `true` if `self` is a failure code.
    pub fn is_err(self) -> (r: bool)
        ensures
            r == self.spec_is_err(),
            r == !self.spec_is_ok(),
    {
        !self.is_ok()
    }

    /// Maps the status code to an `HRESULT` value.
    pub fn to_hresult(self) -> (r: HRESULT)
        ensures
            r == self.spec_to_hresult(),
            r.spec_bits() == hresult_bits_of(self.0),
    {
        let bits: u32 = if self.0 as i32 <= 0 {
            self.0
        } else {
            (self.0 & 0x0000_FFFF) | (7u32 << 16u32) | 0x8000_0000
        };
        proof {
            assert((bits as i32) as u32 == bits) by (bit_vector);
        }
        HRESULT(bits as i32)
    }

    /// Recovers the status code an error originated from: `Some` of the
    /// low 16 bits of the error's `HRESULT` when its facility field is 7,
    /// `None` otherwise.
    pub fn from_error(error: &Error) -> (r: Option<Self>)
        ensures
            r == Self::spec_from_error(*error),
    {
        let hresult: u32 = error.code().0 as u32;
        if ((hresult >> 16u32) & 0x7FF) == 7 {
            Some(Self(hresult & 0xFFFF))
        } else {
            None
        }
    }

    /// Converts the code to an empty success or to an [`Error`] carrying
    /// the `HRESULT` the code maps to: `Ok` exactly when the code is zero.
    pub fn ok(self) -> (r: Result<(), Error>)
        ensures
            self.0 == 0 ==> r == Ok::<(), Error>(()),
            self.0 != 0 ==> (r matches Err(e) && e.spec_code() == self.spec_to_hresult()),
    {
        proof {
            let c = self.0;
            assert({
                let b = hresult_bits_of(c);
                (c == 0 ==> b as i32 >= 0) && (c != 0 ==> (b as i32) < 0)
            }) by (bit_vector);
        }
        self.to_hresult().ok()
    }

    /// The decimal rendering of the code: its textual display form.
    pub fn display_string(self) -> (r: String)
        ensures
            r@ == dec_seq(self.0 as nat),
    {
        let mut s = String::new();
        push_decimal(&mut s, self.0);
        proof {
            assert(s@ =~= dec_seq(self.0 as nat));
        }
        s
    }

    /// The type-qualified debug rendering of the code: the type's name
    /// around its decimal form.
    pub fn debug_string(self) -> (r: String)
        ensures
            r@ == "WIN32_ERROR("@ + dec_seq(self.0 as nat) + ")"@,
    {
        let mut s = String::from_str("WIN32_ERROR(");
        push_decimal(&mut s, self.0);
        s.append(")");
        proof {
            assert(s@ =~= "WIN32_ERROR("@ + dec_seq(self.0 as nat) + ")"@);
        }
        s
    }
}

/// Success and failure partition the codes: exactly the zero code is ok,
/// and a code is a failure exactly when it is not ok.
pub proof fn lemma_ok_err_complement(c: WIN32_ERROR)
    ensures
        c.spec_is_ok() == (c.0 == 0),
        c.spec_is_err() == !c.spec_is_ok(),
{
}

/// A status code whose signed reading is at most zero maps to an
/// `HRESULT` with exactly the same bit pattern.
pub proof fn lemma_to_hresult_pass_through(c: WIN32_ERROR)
    requires
        c.0 as i32 <= 0,
    ensures
        c.spec_to_hresult().spec_bits() == c.0,
{
    let c0 = c.0;
    assert((c0 as i32) as u32 == c0) by (bit_vector);
}

/// A status code whose signed reading is positive maps to an `HRESULT`
/// with the severity bit set, facility field 7 and the code's low 16
/// bits as its code field.
pub proof fn lemma_to_hresult_failure(c: WIN32_ERROR)
    requires
        c.0 as i32 > 0,
    ensures
        c.spec_to_hresult().spec_severity(),
        c.spec_to_hresult().spec_facility() == 7,
        c.spec_to_hresult().spec_code_field() == c.0 & 0xFFFF,
{
    let c0 = c.0;
    assert({
        let b = hresult_bits_of(c0);
        ((b as i32) as u32 == b) && (b & 0x8000_0000 != 0) && ((b >> 16u32) & 0x7FF == 7) && (b
            & 0xFFFF == c0 & 0xFFFF)
    }) by (bit_vector)
        requires
            c0 as i32 > 0,
    ;
}

/// Round trip: converting a status code to an `HRESULT`, wrapping it in
/// an error and mapping back recovers `Some` of the code's low 16 bits
/// when the code's signed reading is positive; when it is at most zero
/// the `HRESULT` keeps the code's bits unchanged.
pub proof fn lemma_round_trip(c: WIN32_ERROR)
    ensures
        c.0 as i32 > 0 ==> WIN32_ERROR::spec_from_error(
            Error::spec_from_hresult(c.spec_to_hresult()),
        ) == Some(WIN32_ERROR(c.0 & 0xFFFF)),
        c.0 as i32 <= 0 ==> c.spec_to_hresult().spec_bits() == c.0,
{
    Error::lemma_spec_from_hresult_code(c.spec_to_hresult());
    if c.0 as i32 > 0 {
        lemma_to_hresult_failure(c);
    } else {
        lemma_to_hresult_pass_through(c);
    }
}

/// An `HRESULT` whose facility field is not 7 maps back to no status
/// code at all.
pub proof fn lemma_foreign_facility_none(error: Error)
    requires
        error.spec_code().spec_facility() != 7,
    ensures
        WIN32_ERROR::spec_from_error(error) is None,
{
}

impl Default for WIN32_ERROR {
    /// The default status code is the success code, zero.
    fn default() -> (r: Self)
        ensures
            r == WIN32_ERROR(0),
    {
        WIN32_ERROR(0)
    }
}

impl From<WIN32_ERROR> for HRESULT {
    /// Maps the status code by [`WIN32_ERROR::to_hresult`].
    fn from(value: WIN32_ERROR) -> (r: HRESULT) {
        value.to_hresult()
    }
}

impl vstd::std_specs::convert::FromSpecImpl<WIN32_ERROR> for HRESULT {
    open spec fn obeys_from_spec() -> bool {
        true
    }

    open spec fn from_spec(v: WIN32_ERROR) -> HRESULT {
        v.spec_to_hresult()
    }
}

impl From<WIN32_ERROR> for Error {
    /// Carries the `HRESULT` the status code maps to.
    fn from(value: WIN32_ERROR) -> (r: Error) {
        Error::from_hresult(value.to_hresult())
    }
}

impl vstd::std_specs::convert::FromSpecImpl<WIN32_ERROR> for Error {
    open spec fn obeys_from_spec() -> bool {
        true
    }

    open spec fn from_spec(v: WIN32_ERROR) -> Error {
        Error::spec_from_hresult(v.spec_to_hresult())
    }
}

} // verus!
