use vstd::prelude::*;

use crate::contract::Cw721ExtendedContract;

verus! {

/// Marks a chain-specific message type that the contract may carry in its responses.
pub trait CustomMsg: Clone + core::fmt::Debug + PartialEq {}

/// A registry that layers this contract's actions and queries, over extension
/// payloads `T` and custom messages `C`, on a base token registry.
pub trait Cw721Extended<T, C: CustomMsg> {}

impl<T, C: CustomMsg> Cw721Extended<T, C> for Cw721ExtendedContract<T> {}

} // verus!
