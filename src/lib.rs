//! Fixed-layout instance records for the GPU: typed builders for each kind of
//! draw instance, and their packing into the eight-word record that the
//! vertex shaders read.
use vstd::prelude::*;

pub mod address;
pub mod instance;

verus! {

} // verus!
