pub mod auth;
pub mod body;
pub mod products;
pub mod users;
