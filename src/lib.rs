//! Provisioning of a platform-specific helper binary: platform resolution,
//! artifact naming, freshness evaluation, version-scope cleanup and the
//! acquisition state machine that drives downloads.
pub mod cache;
pub mod freshness;
pub mod layout;
pub mod platform;
pub mod update;
