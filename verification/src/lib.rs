pub mod text;
pub mod ids;
pub mod parser;
pub mod context;
pub mod event;
pub mod handler;
pub mod cmd;
pub mod callback;
pub mod transform;
pub mod bridge;
pub mod api;
pub mod model;
pub mod client;
pub mod flow;
pub mod state;
pub mod handlers;
pub mod ws;
pub mod redact;
pub mod env;
