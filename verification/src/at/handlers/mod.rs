pub mod freq_handler;
pub mod fwupdate_handler;
pub mod reset_handler;
pub mod setrgb_handler;
pub mod version_handler;
