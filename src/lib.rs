//! Synthetic datasets in three memory layouts and fused multiply-add reduction
//! kernels over them, with proofs that every layout and every indexing strategy
//! gives the same result.
//!
//! - `lane`: the arithmetic of one vector lane group, and an eight-lane
//!   integer implementation with wrapping arithmetic.
//! - `formula`, `arity`: how records are generated, and the chain each family
//!   reduces them with.
//! - `chain`: a reduction chain as data, and its evaluator.
//! - `layout`: array-of-structs, struct-of-arrays and flattened datasets, and
//!   their generators.
//! - `kernel`, `stream`: the reduction kernels, by direct indexing, by offset
//!   stepping and by per-field cursors.
//! - `laws`: the equivalences between layouts and indexing strategies.
//! - `driver`: dataset pools and the cursor that walks them.
pub mod arity;
pub mod chain;
pub mod driver;
pub mod formula;
pub mod kernel;
pub mod lane;
pub mod laws;
pub mod layout;
pub mod stream;
