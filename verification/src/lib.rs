use vstd::prelude::*;

pub mod encoding;
pub mod entropy;
pub mod balance;
pub mod card;
pub mod order;
pub mod product;
pub mod reply;
pub mod text;

verus! {

} // verus!
