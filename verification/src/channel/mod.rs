pub mod channel_manager;
pub mod channel_type;
pub mod message_type;
pub mod module_type;
