//! The error type shared by the library's fallible surface.

use vstd::prelude::*;

verus! {

/// An error surfaced by the library to its caller. The reducers themselves
/// never return one: every rejection there is a silent "no change".
#[derive(PartialEq, Eq, Debug)]
pub enum HolochainError {
    ErrorGeneric(String),
    NotImplemented,
    InstanceNotActive,
    InstanceActive,
}

impl Clone for HolochainError {
    fn clone(&self) -> (res: Self)
        ensures
            res == *self,
    {
        match self {
            HolochainError::ErrorGeneric(msg) => HolochainError::ErrorGeneric(msg.clone()),
            HolochainError::NotImplemented => HolochainError::NotImplemented,
            HolochainError::InstanceNotActive => HolochainError::InstanceNotActive,
            HolochainError::InstanceActive => HolochainError::InstanceActive,
        }
    }
}

impl HolochainError {
    /// A short description of the error.
    pub fn message(&self) -> (s: String)
        ensures
            self matches HolochainError::ErrorGeneric(msg) ==> s@ == msg@,
    {
        match self {
            HolochainError::ErrorGeneric(msg) => msg.clone(),
            HolochainError::NotImplemented => "not implemented".to_owned(),
            HolochainError::InstanceNotActive => "the instance is not active".to_owned(),
            HolochainError::InstanceActive => "the instance is already active".to_owned(),
        }
    }
}

} // verus!
