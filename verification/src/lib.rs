//! Verified core of GSTools-Core's local (moving-neighbourhood) kriging and
//! covariance-model validation: the error types and their messages, the
//! block layout of each local kriging system, the per-target error
//! selection, and the order in which model parameters are validated.

pub mod covmodel;
pub mod local_krige;
pub mod text;
