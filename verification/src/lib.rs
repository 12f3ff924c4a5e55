pub mod ai_chat;
pub mod assistant;
pub mod context;
pub mod json;
pub mod mime;
pub mod model;
pub mod text;
pub mod routes;
