//! A Subsonic-compatible music server library: response models and their
//! XML rendering, request validation, query construction and the decisions
//! taken by the library services.

pub mod text;
pub mod error;
pub mod format;
pub mod response;
pub mod models;
pub mod utils;
pub mod services;
