use vstd::prelude::*;

pub mod checksum;
pub mod progress;
pub mod error;
pub mod download;
pub mod upload;
pub mod media;
pub mod common;

verus! {

} // verus!
