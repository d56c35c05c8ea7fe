//! Utilities: authentication checks, identifiers, hashing, images and audio
//! metadata, pinyin, SQL fragments.

pub mod image_utils;
pub mod paths;
pub mod id_builder;
pub mod hash_utils;
pub mod clock;
pub mod sql_utils;
pub mod auth_utils;
pub mod pinyin_utils;
pub mod meta_fetch;
