//! Integer and decision core of an interactive Taylor-series ODE demonstration:
//! the problem catalog, the refinement search over division counts, display
//! decimation, and the small index computations the numeric stepper relies on.

pub mod catalog;
pub mod display;
pub mod refinement;
pub mod numeric;
pub mod taylor;
pub mod interpolation;
