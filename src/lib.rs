//! Integer core of a deterministic Monte Carlo engine for European options.
//!
//! Everything the engine decides at the level of bits is stated and proved
//! here: the index-keyed splitmix64 generator that yields a uniform deviate's
//! binary64 pattern, the binary64 pattern of the power-of-two scale factor used
//! by the fast exponential, and the coefficient tables of the two polynomial
//! approximations. Floating-point evaluation sits with the caller.
pub mod binary64;
pub mod fast_exp;
pub mod indexed_rng;
pub mod quantile;
