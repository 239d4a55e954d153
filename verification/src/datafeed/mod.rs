//! From ticks to series.

pub mod bar_generator;
pub mod historical;

pub use bar_generator::generate_from_ticks;
pub use historical::bars_from_ticks;
pub use historical::enhanced_series;
pub use historical::get_table_name;
pub use historical::tick_query;
pub use historical::SeriesError;
