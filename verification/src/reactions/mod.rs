//! Types of the reactions module.

pub mod models;
