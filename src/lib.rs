//! The verified core of a 2D narrow-phase collision library: the simplex
//! bookkeeping of GJK and EPA, segment clipping, shape-pair dispatch, the
//! contact manifold and its invariant, polygon edge selection and checks,
//! and the shape logic of dense matrices. The floating-point geometry that
//! drives them is supplied by the caller.
pub mod clip;
pub mod config;
pub mod dispatch;
pub mod error;
pub mod force;
pub mod manifold;
pub mod matrix;
pub mod polygon;
pub mod simplex;
