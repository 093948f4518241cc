pub mod discord;
pub mod dispatch;
