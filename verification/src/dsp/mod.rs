//! Single-sample detectors: gates, zero crossings and pitch-period boundaries.
pub mod cycle_detector;
pub mod gate;
pub mod level;
pub mod zero;

pub use cycle_detector::{CycleDetectInfo, CycleDetector, CycleInfo};
pub use gate::Gate;
pub use level::{Level, Reading, Sign};
pub use zero::ZeroDetector;
