pub mod command;
pub mod dispatch;
pub mod outbound;
pub mod keyboard;
pub mod membership;
pub mod text;
