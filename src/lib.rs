//! Per-cycle signal processing of a humanoid soccer robot: a joint-trajectory
//! interpolator over time-stamped keyframes, a debounce and fault filter for the
//! foot bumpers, and the path layout of the code repository.
pub mod detection_buffer;
pub mod foot_bumper_filter;
pub mod repository;
pub mod spline_interpolator;
