//! Manager-initiated forced withdrawal from a pooled vault that keeps its
//! capital in an external margin protocol: detection of the optional records
//! a vault instance carries, the share accounting of the withdrawal, and the
//! ordered sequence of outside steps that moves the funds.
pub mod error;
pub mod state;
pub mod accountant;
pub mod extensions;
pub mod orchestrator;
