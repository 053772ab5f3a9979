pub mod client;
pub mod server;
pub mod utils;
