use vstd::prelude::*;

verus! {

/// Creation parameters. `owner` defaults to the engine's own deployed
/// identity when absent; identity strings are validated by the hosting
/// runtime before they reach the engine.
#[derive(Debug, PartialEq, Eq)]
pub struct InstantiateMsg {
    pub owner: Option<String>,
    /// The only currency in which bids are accepted.
    pub required_native_denom: String,
    /// The protocol fee rate as a fixed-point fraction scaled by `10^20`:
    /// a 3% fee is `3 * 10^18`.
    pub fee: u128,
}

/// The three externally invoked actions.
#[derive(Debug, PartialEq, Eq)]
pub enum ExecuteMsg {
    /// Place or raise a cumulative bid with the attached payment.
    Bid {},
    /// Owner only: close the auction and collect the winning amount.
    Close {},
    /// After close, a losing participant reclaims their funds, optionally
    /// redirected to `friend_rec`.
    Retract { friend_rec: Option<String> },
}

/// The three read-only queries.
#[derive(Debug, PartialEq, Eq)]
pub enum QueryMsg {
    /// Cumulative contribution of one participant; zero for an unknown one.
    BidderTotalBid { address: String },
    /// Current leader, leading amount, and whether the auction is closed.
    HighestBidInfo {},
    /// Count of distinct participants that ever placed a bid.
    TotalNumberOfParticipants {},
}

/// Answer to [`QueryMsg::HighestBidInfo`]. Both options are `None` until the
/// first bid is placed.
#[derive(Debug, PartialEq, Eq)]
pub struct BidEventInfoResponse {
    pub addr: Option<String>,
    pub bid_amount: Option<u128>,
    pub event_closed: bool,
}

/// Answer to a query, one variant per [`QueryMsg`] variant.
#[derive(Debug, PartialEq, Eq)]
pub enum QueryAnswer {
    BidderTotalBid { amount: u128 },
    HighestBidInfo { info: BidEventInfoResponse },
    TotalNumberOfParticipants { count: usize },
}

/// One attached or instructed payment: an amount of one currency.
#[derive(Debug, PartialEq, Eq)]
pub struct Coin {
    pub denom: String,
    pub amount: u128,
}

/// A payment instruction for the external ledger: move `amount` of `denom`
/// out of the auction's escrow to `to_address`. Emitted, never executed, by
/// the engine.
#[derive(Debug, PartialEq, Eq)]
pub struct BankSend {
    pub to_address: String,
    pub denom: String,
    pub amount: u128,
}

/// A key/value attribute observable by the caller of an action.
#[derive(Debug, PartialEq, Eq)]
pub struct Attribute {
    pub key: String,
    pub value: String,
}

/// The observable outcome of a successful action: zero or more payment
/// instructions and zero or more attributes.
#[derive(Debug, PartialEq, Eq)]
pub struct Response {
    pub messages: Vec<BankSend>,
    pub attributes: Vec<Attribute>,
}

} // verus!
