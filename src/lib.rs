//! Wellness suggestions chosen from the weather: a label such as `"rainy"`
//! and an optional temperature reading select one fixed piece of advice.

pub mod temperature;
pub mod text;
pub mod advisor;
pub mod lemmas;
