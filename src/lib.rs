//! Runs a query's decoded result through a formatter that renders every cell
//! as display text, and assembles the rectangular table handed back to the
//! host application.
pub mod text;
pub mod formatter;
pub mod model;
pub mod assembler;
pub mod bridge;
