pub mod agent_input;
pub mod agent_response;
pub mod chat;
pub mod gemini;
pub mod json;
pub mod keyed;
pub mod providers;
pub mod service;
pub mod store;
pub mod text;
pub mod turn;
pub mod ui;
pub mod usage;
