pub mod text;
pub mod types;
pub mod entities;
pub mod commands;
pub mod bot;
pub mod api_client;
pub mod registry;
pub mod echo;
pub mod describe;
