//! Small value types with proved contracts: a factorial, a wrapping
//! unsigned integer and a ticket record with normalised accessors.
pub mod factorial;
pub mod ticket;
pub mod wrapping;
