//! The data that flows through the library.

pub mod bar;
pub mod indicators;
pub mod interval;
pub mod resolution;
pub mod series;
pub mod symbol_info;
pub mod symbol_type;
pub mod tick;

pub use bar::Bar;
pub use bar::BarModel;
pub use indicators::calculate;
pub use indicators::requests;
pub use indicators::Calculation;
pub use indicators::Indicator;
pub use indicators::Indicators;
pub use interval::Interval;
pub use resolution::Resolution;
pub use series::EnhancedSeries;
pub use series::Series;
pub use symbol_info::SymbolInfo;
pub use symbol_info::VisiblePlotSet;
pub use symbol_type::SymbolType;
pub use tick::Tick;
pub use tick::TickModel;
