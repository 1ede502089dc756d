pub mod client;
pub mod creds;
pub mod errors;
pub mod paths;
pub mod render;
pub mod store;
pub mod supervisor;
pub mod text;
pub mod token;
