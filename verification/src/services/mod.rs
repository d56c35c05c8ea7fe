//! The decisions the library services take, apart from their database and
//! file-system work.

pub mod auth_service;
pub mod browsing_service;
pub mod library_service;
pub mod play_queue_service;
pub mod playlist_service;
pub mod scan_service;
pub mod search_service;
pub mod song_service;
pub mod user_service;
