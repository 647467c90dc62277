//! The operations on tags and on tickets, each as an exchange with the store.

pub mod tags;
pub mod tickets;
