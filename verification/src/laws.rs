//! Consequences of the definitions, proved for every input.

pub mod scalars;
pub mod slots;
pub mod insertion;
pub mod buffers;
pub mod scene;
