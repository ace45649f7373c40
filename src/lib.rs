pub mod account;
pub mod config;
pub mod config_env;
pub mod cookie;
pub mod error;
pub mod guard;
pub mod health;
pub mod jwt;
pub mod session;
pub mod text;
pub mod token;
pub mod user;
pub mod words;
