pub mod collector;
pub mod level;
pub mod view;

pub use collector::LogCollector;
pub use view::LogView;
