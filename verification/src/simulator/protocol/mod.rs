pub mod http;
pub mod mqtt;
