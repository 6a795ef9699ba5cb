//! The unified 32-bit signed result code and its bit layout.

use crate::error::Error;
use vstd::prelude::*;

verus! {

/// A 32-bit signed result code with a layered layout: bit 31 is the
/// severity bit (set on failure), bits 16..27 hold the facility field
/// naming the code space a failure came from, and bits 0..16 hold the
/// code itself.
#[allow(non_camel_case_types)]
#[derive(Copy, Clone, Debug, PartialEq, Eq, Structural)]
#[must_use]
pub struct HRESULT(pub i32);

impl HRESULT {
    /// The 32 bits of the code, read as an unsigned value.
    pub open spec fn spec_bits(self) -> u32 {
        self.0 as u32
    }

    /// The severity bit: set exactly on failure codes.
    pub open spec fn spec_severity(self) -> bool {
        self.spec_bits() & 0x8000_0000 != 0
    }

    /// The facility field, bits 16..27.
    pub open spec fn spec_facility(self) -> u32 {
        (self.spec_bits() >> 16u32) & 0x7FF
    }

    /// The code field, bits 0..16.
    pub open spec fn spec_code_field(self) -> u32 {
        self.spec_bits() & 0xFFFF
    }

    /// Returns `true` if `self` is a success code, that is, its severity
    /// bit is clear.
    pub fn is_ok(self) -> (r: bool)
        ensures
            r == (self.0 >= 0),
            r == !self.spec_severity(),
    {
        proof {
            let v = self.0;
            assert(v >= 0 <==> (v as u32) & 0x8000_0000 == 0) by (bit_vector);
        }
        self.0 >= 0
    }

    /// Converts the code to an empty success or an [`Error`] carrying the
    /// code, according to the severity bit.
    pub fn ok(self) -> (r: Result<(), Error>)
        ensures
            self.0 >= 0 ==> r == Ok::<(), Error>(()),
            self.0 < 0 ==> (r matches Err(e) && e.spec_code() == self),
    {
        if self.is_ok() {
            Ok(())
        } else {
            Err(Error::from_hresult(self))
        }
    }
}

} // verus!
