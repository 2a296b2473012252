pub mod battery;
pub mod icon;
pub mod notify;
pub mod lang;
pub mod toast;
pub mod settings;
pub mod monitor;
