//! What the request handlers decide once the data is read.

pub mod data;
pub mod symbols;

pub use data::Parameters;
pub use symbols::resolve;
pub use symbols::search;
pub use symbols::SymbolsAnswer;
pub use symbols::SymbolsQueryParams;
