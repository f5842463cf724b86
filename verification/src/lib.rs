//! Verified core of the Intake Desk receiving service.
pub mod text;
pub mod problem;
pub mod digest;
pub mod audit;
pub mod clock;
pub mod system_clock;
pub mod entitlement;
pub mod identity;
pub mod tenancy;
pub mod evidence;
pub mod records;
pub mod service;
pub mod finalize;
pub mod signin;
pub mod admission;
pub mod correction;
