//! The social graph: profiles, posts, likes, follows and comments.

pub mod error;
pub mod events;
pub mod instructions;
pub mod laws;
pub mod state;

pub use instructions::comment_post::handler as comment_post;
pub use instructions::create_post::handler as create_post;
pub use instructions::create_profile::handler as create_profile;
pub use instructions::follow_user::handler as follow_user;
pub use instructions::like_post::handler as like_post;
pub use instructions::unfollow_user::handler as unfollow_user;
pub use instructions::unlike_post::handler as unlike_post;
pub use instructions::update_profile::handler as update_profile;
