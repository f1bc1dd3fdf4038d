//! The operations on the social graph, one module each.

pub mod comment_post;
pub mod create_post;
pub mod create_profile;
pub mod follow_user;
pub mod like_post;
pub mod unfollow_user;
pub mod unlike_post;
pub mod update_profile;
