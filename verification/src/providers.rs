//! The experimental AMD and Intel providers: their identity, their command
//! line, and the decisions they make on what their vendor libraries return.
pub mod amd_adl;
pub mod amd_adlx;
pub mod intel_level_zero;
