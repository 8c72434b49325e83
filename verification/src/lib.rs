//! The process bridge between a desktop shell and its backend, which
//! runs as a separate process and is reached through its command line
//! only.
//!
//! A call passes through four parts:
//!
//! - [`commands`] describes each operation as a [`request`], and the
//!   command builder turns the request into an argument vector;
//! - [`resolver`] decides which interpreter candidates are probed, in
//!   which order, and which one is chosen;
//! - [`executor`] plans the run of the backend (arguments, working
//!   directory, environment) and classifies how it ended;
//! - [`output`] finds the structured payload in what the backend
//!   printed.
//!
//! [`python`] ties the parts into the steps of one call. Probing an
//! executable and running a process are left to the caller: the library
//! says what to do next and takes back what happened. It keeps no state
//! between calls.
//!
//! [`text`] and [`decimal`] hold the text and number primitives that the
//! parts share, [`error`] the failures, and [`database`] the places
//! where the application keeps its own data.

pub mod commands;
pub mod database;
pub mod decimal;
pub mod error;
pub mod executor;
pub mod output;
pub mod python;
pub mod request;
pub mod resolver;
pub mod text;
