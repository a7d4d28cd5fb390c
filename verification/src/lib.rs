pub mod text;
pub mod chars;
pub mod json;
pub mod codec;
pub mod registry;
pub mod session;
pub mod rpc;
pub mod bridge;
pub mod server;
pub mod dispatcher;
pub mod guarantees;
pub mod lifecycle;
pub mod events;
pub mod config;
pub mod collaborators;
pub mod playlist;
pub mod history;
pub mod transcoder;
pub mod cache;
pub mod browser;
