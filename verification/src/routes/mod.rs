pub mod auth;
pub mod projects;
