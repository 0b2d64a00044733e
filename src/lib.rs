//! Face verification for an authentication hook: illumination checks, embedding similarity,
//! a reference store and the bounded retry policies for enrollment and
//! verification, stated and proved over exact integer models.

pub mod config;
pub mod enroll;
pub mod error;
pub mod illumination;
pub mod paths;
pub mod similarity;
pub mod store;
pub mod verify;
