//! Constraint gates of a PLONK-style proof system.
//!
//! A gate is one family of constraints on a row of the trace. It is defined
//! once, as a function over the extension field, and every way of evaluating
//! it is proved to compute that function: over the extension field, over the
//! base field for a batch of rows and for rows packed into lanes, and as
//! targets of a circuit under construction. A gate also emits code that
//! checks its constraints in Circom and in Solidity.
//!
//! - [`field`], [`extension`], [`packed`]: the Goldilocks field, its
//!   quadratic extension, and packed field batches.
//! - [`vars`]: the views through which a gate reads a row.
//! - [`consumer`]: the sink through which a gate hands out constraints.
//! - [`gate`], [`packed_util`]: what a gate offers, and batched evaluation
//!   derived from packed evaluation.
//! - [`constant`]: the constant gate.
//! - [`circuit_builder`]: circuits under construction.
//! - [`generator`]: witness generators.
//! - [`template`], [`decimal`], [`codegen`]: templates with placeholders,
//!   decimal notation, and the verification code of the constant gate.
//! - [`cuda`]: the values that cross the boundary to the CUDA runtime.

pub mod circuit_builder;
pub mod codegen;
pub mod constant;
pub mod consumer;
pub mod cuda;
pub mod decimal;
pub mod extension;
pub mod field;
pub mod gate;
pub mod generator;
pub mod packed;
pub mod packed_util;
pub mod template;
pub mod vars;
