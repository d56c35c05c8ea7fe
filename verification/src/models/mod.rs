//! Data models: database rows, requests and Subsonic responses.

pub mod dto;
pub mod entities;
pub mod response;
pub mod song;
pub mod starred;
pub mod user;
