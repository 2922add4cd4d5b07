use vstd::prelude::*;

pub mod bits;
pub mod bus;
pub mod huc3;
pub mod mbc1;
pub mod mbc3;
pub mod mbc5;

verus! {

} // verus!
