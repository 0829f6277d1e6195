//! The Redstone Drive System: a kernel's device/driver registry, its
//! recovery and health policy, and the bus and ring logic of its drivers.
#![allow(unused_imports)]
use vstd::prelude::*;

pub mod drivers;
pub mod bits;
pub mod seqs;
pub mod text;
pub mod bitfields;

verus! {

} // verus!
