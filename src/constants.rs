use vstd::prelude::*;

verus! {

/// Prefix of every revealed token URI.
pub const BASE_URI: &'static str = "ipfs://QmRiLKmhizpnwqpHGeiJnL4G6fsPAxdEdCiDkuJpt7xHPH/";

/// Suffix of every revealed token URI.
pub const URI_SUFFIX: &'static str = ".json";

/// What a token URI resolves to before the reveal.
pub const NOT_YET_REVEALED: &'static str = "NOT_YET_REVEALED";

/// The three parties whose joint signature releases the pooled funds.
pub const ADDR_TEAM: &'static str = "terra109rgfl6x8v6k29dtfpc4kxq9tl08lly73wgjzg";

pub const ADDR_PRO: &'static str = "terra10hcrj0tlum8nkk2apz3v6y0vrdd8k9murs9vfy";

pub const ADDR_TREAS: &'static str = "terra1dsxpz56r8m3kga773a8f8754r7y7jqs95lda4k";

/// Payee of the royalty quote, and its rate in percent of the sale price.
pub const ROYALTY_ADDRESS: &'static str = "terra1dsxpz56r8m3kga773a8f8754r7y7jqs95lda4k";

pub const ROYALTY_PERCENTAGE: u64 = 6;

/// How many free mints the contract allows over its lifetime.
pub const FREE_MINT_CAP: u64 = 1;

/// The id of the n-th free mint is `TOKEN_ID_OFFSET + n`.
pub const TOKEN_ID_OFFSET: u64 = 3001;

/// Shares of a withdrawal, in percent, for the team, the project and the treasury.
pub const TEAM_PERCENT: u64 = 30;

pub const PRO_PERCENT: u64 = 14;

pub const TREAS_PERCENT: u64 = 56;

/// Denomination of the pooled funds.
pub const DENOM: &'static str = "uluna";

} // verus!
