//! Versioned re-exports of the traits a typical embedding needs in scope.

pub mod v1;
