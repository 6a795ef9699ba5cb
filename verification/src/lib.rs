//! Win32 status codes and their conversion to and from `HRESULT` values.
//!
//! A [`WIN32_ERROR`] wraps a native 32-bit status code, where zero is
//! success and every nonzero value names a failure condition. The code
//! maps into the unified `HRESULT` space by a deterministic bit-level
//! encoding (facility 7 marks codes of this origin), and an `HRESULT`
//! maps back to a status code exactly when its facility field is 7.

pub mod decimal;
pub mod error;
pub mod hresult;
pub mod win32_error;

pub use error::Error;
pub use hresult::HRESULT;
pub use win32_error::WIN32_ERROR;
