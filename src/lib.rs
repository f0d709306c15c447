//! A permissioned NFT registry extension: gated pre-seeding and claiming of
//! token records, a one-shot free-mint limiter, a three-party signed
//! withdrawal, whitelist and reveal toggles, and a royalty quote.
pub mod constants;
pub mod contract;
pub mod decimal;
pub mod error;
pub mod laws;
pub mod table;
pub mod traits;

pub use crate::constants::{
    ADDR_PRO, ADDR_TEAM, ADDR_TREAS, BASE_URI, DENOM, FREE_MINT_CAP, NOT_YET_REVEALED, ROYALTY_ADDRESS,
    ROYALTY_PERCENTAGE, TOKEN_ID_OFFSET,
};
pub use crate::contract::{
    BankTransfer, Cw721ExtendedContract, ExecuteMsg, Outcome, QueryAnswer, QueryMsg, RoyaltiesInfoResponse,
    TokenStatus,
};
pub use crate::error::ContractError;
pub use crate::traits::{CustomMsg, Cw721Extended};
