pub mod cooldown;
pub mod dispatch;
pub mod metrics;
pub mod models;
pub mod present;
pub mod request;
