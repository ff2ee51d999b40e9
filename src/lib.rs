//! Authentication and list-query core of a CRUD service for items and users.

pub mod auth;
pub mod config;
pub mod duration;
pub mod error;
pub mod filter;
pub mod listing;
pub mod login;
pub mod models;
pub mod pagination;
pub mod password;
pub mod query;
pub mod text;
pub mod token;
pub mod users;
