pub mod counts;
pub mod error;
pub mod kick;
pub mod oauth;
pub mod server;
pub mod session;
pub mod socket;
pub mod text;
pub mod twitch;
pub mod vk;
pub mod youtube;

pub use counts::ViewerCounts;
