//! The first form of the lecture model, where a lecture names its week.

pub mod lecture;
