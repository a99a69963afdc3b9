//! Verified configuration, validation and text-processing core of an
//! OCR pipeline built on ONNX Runtime models.

pub mod error;
pub mod text;
pub mod config;
pub mod ocr;
pub mod batching;
pub mod models;
pub mod slots;
pub mod ordering;
