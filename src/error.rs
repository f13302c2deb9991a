use vstd::prelude::*;

verus! {

/// Why a value could not cross the boundary.
#[derive(Debug)]
pub enum ConversionError {
    /// The managed runtime raised while a method or constructor ran.
    CallFailed(String),
    /// String data from the managed side could not be decoded.
    StringDecode(String),
    /// A reference was presented as a class it is not an instance of.
    ClassMismatch { expected: String, actual: String },
    /// Native validation of a decoded value failed.
    Parse(String),
}

} // verus!
