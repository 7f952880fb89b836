//! Types of `std` and of outside crates that the library's data carries.
//!
//! They are opaque to verification: values of them are only moved, stored and
//! handed back.
use vstd::prelude::*;

verus! {

/// `std::path::PathBuf`, the type of configured filesystem paths.
#[verifier::external_type_specification]
#[verifier::external_body]
pub struct ExPathBuf(std::path::PathBuf);

/// `std::io::Error`, carried by the I/O failure variants of the error type.
#[verifier::external_type_specification]
#[verifier::external_body]
pub struct ExIoError(std::io::Error);

/// `toml::de::Error`, carried by the configuration parse failure variant.
#[verifier::external_type_specification]
#[verifier::external_body]
pub struct ExTomlError(toml::de::Error);

/// `PathBuf::clone`: the copy is the same path as the original.
pub assume_specification[ <std::path::PathBuf as Clone>::clone ](p: &std::path::PathBuf) -> (r:
    std::path::PathBuf)
    ensures
        r == *p,
;

} // verus!
