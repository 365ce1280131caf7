//! Small verified building blocks: message channels for cooperative tasks
//! (single-consumer and broadcast), and a handful of containers and rules
//! used around them.

pub mod wake;
pub mod poll;
pub mod mpsc;
pub mod broadcast;
pub mod fizzbuzz;
pub mod quizzer;
pub mod local_storage_vec;
pub mod linked_list;
pub mod printer;
pub mod config;
pub mod chat;
