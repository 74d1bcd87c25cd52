//! A minimal generic linear-algebra foundation: capability traits for
//! numeric scalar types, arithmetic primitives on vectors of such scalars,
//! and a dense row-major matrix with row/column traversal.

/// Capability traits that scalar types must satisfy.
pub mod traits;

/// Algebraic operations on vectors.
pub mod vector;

/// Dense row-major matrices.
pub mod full_matrix;
