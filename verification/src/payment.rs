//! Payment settlement and vault accounting.

pub mod error;
pub mod events;
pub mod instructions;
pub mod laws;
pub mod settlement;
pub mod state;

pub use instructions::cancel_subscription::handler as cancel_subscription;
pub use instructions::initialize_platform::handler as initialize_platform;
pub use instructions::initialize_vault::handler as initialize_vault;
pub use instructions::process_subscription::handler as process_subscription;
pub use instructions::subscribe::handler as subscribe;
pub use instructions::tip_creator::handler as tip_creator;
pub use instructions::withdraw::handler as withdraw;
