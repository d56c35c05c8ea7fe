//! Subsonic API response models and their XML rendering.

pub mod common;
pub mod album;
pub mod artist;
pub mod genre;
pub mod play_queue;
pub mod rating;
pub mod search;
pub mod song;
pub mod starred;
pub mod playlist;
pub mod user;
