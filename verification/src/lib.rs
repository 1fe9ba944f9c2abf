//! A fixed-capacity circular history built on modular index arithmetic.

pub mod cycle;
pub mod cyclic_index;
pub mod history;

pub use cyclic_index::CycleError;
pub use cyclic_index::Cyclic;
pub use cyclic_index::CyclicIndex;
pub use history::History;
pub use history::HistoryDefault;
pub use history::HistoryIntoIterator;
