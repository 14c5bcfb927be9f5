//! Utilities: terminal formatting, dependency hints, QR codes, browser
//! launching and mountpoint checks.
use vstd::prelude::*;

pub mod terminal;
pub mod deps;
pub mod qrcode;
pub mod browser;
pub mod mount;
pub mod doctor;

verus! {

} // verus!
