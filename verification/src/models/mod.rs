//! The detection and recognition models and their builders.

pub mod crnn;
pub mod db;
