//! Start-up configuration for a command-line program: where its configuration
//! file lives, what reading it means, and what the program does next.
//!
//! The library decides; the program around it parses the command line, reads
//! and parses the file and leaves the process. [`startup`] gives the order of
//! the steps, [`dirs`] finds the file, [`load`] turns what was read into a
//! configuration or a fatal error, and [`config`] holds the record itself.

pub mod config;
pub mod dirs;
pub mod load;
pub mod startup;
