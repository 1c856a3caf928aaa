//! The verified core of an employee directory service.
//!
//! - [`models`]: an employee, and what a client submits to create one.
//! - [`repository`]: the employee table and the five operations on it.
//! - [`handlers`]: the route table and its dispatcher, the extraction of
//!   typed values from a request, the bounded buffer for request bodies,
//!   what each route does, and the replies.
//! - [`error`]: the ways in which a request can fail, and their statuses.
//!
//! Nothing here reads a socket or talks to a database. A front end hands
//! each request over as plain values, carries out the one statement it is
//! told to run, on a worker thread and with a connection of its pool, and
//! writes out the reply it is given.

pub mod clock;
pub mod error;
pub mod handlers;
pub mod models;
pub mod repository;
pub mod view;
