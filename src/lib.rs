//! A small collection of verified building blocks: a worker-pool dispatcher
//! state machine, HTTP request routing for a toy server, and a set of
//! everyday helpers on strings, numbers and small records.
pub mod advanced;
pub mod art;
pub mod closures;
pub mod coins;
pub mod dining;
pub mod garden;
pub mod guess;
pub mod http;
pub mod limit;
pub mod pool;
pub mod restaurant;
pub mod shapes;
pub mod summary;
pub mod text;
