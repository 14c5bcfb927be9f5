//! Library core of the pCloud console client.
#![allow(unused_imports)]

pub mod text;
pub mod error;
pub mod cli;
pub mod daemon;
pub mod service;
pub mod ffi;
pub mod tui;
pub mod utils;
pub mod crash_reporting;
pub mod security;
