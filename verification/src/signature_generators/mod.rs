//! Concrete signature sources, grouped by the chain whose signing scheme they use.

pub mod eth;
