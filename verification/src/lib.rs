//! A minimal multiplication circuit over a PLONK-style proving framework.
//!
//! The circuit proves knowledge of two private field elements whose product
//! equals a single public value. Three advice columns hold the witnesses and
//! their product on one row, a selector activates the multiplication gate
//! `selector * (a*b - c) == 0` there, and the product cell is bound to row 0
//! of an instance column. The proving framework itself (halo2) is an outside
//! collaborator: every call into it stands behind a trusted item whose
//! contract records what its source shows.

pub mod chip;
pub mod circuit;
pub mod error;
pub mod gate;
pub mod plonk;
