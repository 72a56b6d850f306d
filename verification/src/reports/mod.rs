//! Types of the reports module.

pub mod models;
