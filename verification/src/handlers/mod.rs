pub mod body;
pub mod extract;
pub mod reply;
pub mod router;
pub mod routes;
pub mod service;
