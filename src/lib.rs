//! A reaction engine for closed parcels of gas: which reactions run on a
//! mixture, in what order, which of their answers are kept, and how ticks
//! repeat to a fixed point. The reactions' own formulas are supplied by the
//! caller as a function from reaction and mixture to mixture.

pub mod binary64;
pub mod gas;
pub mod catalogue;
pub mod engine;
pub mod laws;
