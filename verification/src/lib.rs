//! A 2D/4D vector-math primitive layer and a path-construction state
//! machine.
//!
//! Coordinates are carried as raw IEEE-754 binary32 encodings (`u32` bit
//! patterns), so that every structural rule of the core — lane permutation,
//! elementwise ordering, the cursor discipline of path building, and the
//! shape of a finished path — is verified.  Rounding arithmetic on the
//! encoded values (lengths, normalization, curve evaluation) is left to an
//! unverified front end that decodes the coordinates.

pub mod scalar;

pub mod float2;

pub mod float4;

pub mod path;

