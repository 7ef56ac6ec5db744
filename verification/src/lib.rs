pub mod commits;
pub mod config;
pub mod error;
pub mod github;
pub mod json;
pub mod pipeline;
pub mod retry;
pub mod scanner;
pub mod text;
