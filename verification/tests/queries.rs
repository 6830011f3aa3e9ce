//! Query behaviour: dispatch, idempotence, and creation acknowledgments.

use bid_festival::contract::{execute, instantiate, query};
use bid_festival::msg::{Coin, ExecuteMsg, InstantiateMsg, QueryAnswer, QueryMsg};
use bid_festival::state::AuctionState;

const OWNER: &str = "owner1";
const BIDDER1: &str = "bidder1";
const BIDDER2: &str = "bidder2";
const USED_DENOM: &str = "Juno";
const CONTRACT_ADDR: &str = "biddromedo";
/// Fixed-point rate for 3%: `0.03 * 10^20`.
const FEE_3_PERCENT: u128 = 3_000_000_000_000_000_000;

fn coins(amount: u128, denom: &str) -> Vec<Coin> {
    vec![Coin { denom: denom.to_string(), amount }]
}

fn fresh_auction(owner: Option<&str>) -> AuctionState {
    let (state, _) = instantiate(
        InstantiateMsg {
            owner: owner.map(|o| o.to_string()),
            required_native_denom: USED_DENOM.to_string(),
            fee: FEE_3_PERCENT,
        },
        CONTRACT_ADDR.to_string(),
        OWNER.to_string(),
    );
    state
}

#[test]
fn instantiate_acknowledges_owner_and_sender() {
    let (state, resp) = instantiate(
        InstantiateMsg {
            owner: Some(OWNER.to_string()),
            required_native_denom: USED_DENOM.to_string(),
            fee: FEE_3_PERCENT,
        },
        CONTRACT_ADDR.to_string(),
        BIDDER1.to_string(),
    );
    assert_eq!(state.owner, OWNER);
    assert!(resp.messages.is_empty());
    let pairs: Vec<(&str, &str)> =
        resp.attributes.iter().map(|a| (a.key.as_str(), a.value.as_str())).collect();
    assert_eq!(
        pairs,
        vec![("action", "instantiate"), ("sender", BIDDER1), ("owner", OWNER)]
    );
}

#[test]
fn instantiate_defaults_owner_to_the_engine_address() {
    let state = fresh_auction(None);
    assert_eq!(state.owner, CONTRACT_ADDR);
}

#[test]
fn execute_dispatches_all_three_actions() {
    let mut state = fresh_auction(Some(OWNER));
    execute(&mut state, BIDDER1.to_string(), coins(1000, USED_DENOM), ExecuteMsg::Bid {})
        .unwrap();
    execute(&mut state, BIDDER2.to_string(), coins(1500, USED_DENOM), ExecuteMsg::Bid {})
        .unwrap();
    execute(&mut state, OWNER.to_string(), Vec::new(), ExecuteMsg::Close {}).unwrap();
    let resp = execute(
        &mut state,
        BIDDER1.to_string(),
        Vec::new(),
        ExecuteMsg::Retract { friend_rec: None },
    )
    .unwrap();
    assert_eq!(resp.messages.len(), 1);
    assert_eq!(resp.messages[0].to_address, BIDDER1);
    assert_eq!(resp.messages[0].amount, 970);
}

#[test]
fn queries_are_idempotent() {
    let mut state = fresh_auction(Some(OWNER));
    execute(&mut state, BIDDER1.to_string(), coins(1000, USED_DENOM), ExecuteMsg::Bid {})
        .unwrap();

    let msgs = [
        QueryMsg::BidderTotalBid { address: BIDDER1.to_string() },
        QueryMsg::HighestBidInfo {},
        QueryMsg::TotalNumberOfParticipants {},
    ];
    for m in msgs {
        let dup = match &m {
            QueryMsg::BidderTotalBid { address } => {
                QueryMsg::BidderTotalBid { address: address.clone() }
            },
            QueryMsg::HighestBidInfo {} => QueryMsg::HighestBidInfo {},
            QueryMsg::TotalNumberOfParticipants {} => QueryMsg::TotalNumberOfParticipants {},
        };
        let first = query(&state, m);
        let second = query(&state, dup);
        assert_eq!(first, second);
    }
}

#[test]
fn query_dispatch_answers_match_the_state() {
    let mut state = fresh_auction(Some(OWNER));
    execute(&mut state, BIDDER1.to_string(), coins(1000, USED_DENOM), ExecuteMsg::Bid {})
        .unwrap();

    let r = query(&state, QueryMsg::BidderTotalBid { address: BIDDER1.to_string() });
    assert_eq!(r, QueryAnswer::BidderTotalBid { amount: 1000 });
    let r = query(&state, QueryMsg::BidderTotalBid { address: "nobody".to_string() });
    assert_eq!(r, QueryAnswer::BidderTotalBid { amount: 0 });
    let r = query(&state, QueryMsg::TotalNumberOfParticipants {});
    assert_eq!(r, QueryAnswer::TotalNumberOfParticipants { count: 1 });
    match query(&state, QueryMsg::HighestBidInfo {}) {
        QueryAnswer::HighestBidInfo { info } => {
            assert_eq!(info.addr, Some(BIDDER1.to_string()));
            assert_eq!(info.bid_amount, Some(1000));
            assert!(!info.event_closed);
        },
        other => panic!("unexpected answer {:?}", other),
    }
}

#[test]
fn ledger_entries_list_every_participant_once() {
    let mut state = fresh_auction(Some(OWNER));
    execute(&mut state, BIDDER1.to_string(), coins(600, USED_DENOM), ExecuteMsg::Bid {}).unwrap();
    execute(&mut state, BIDDER2.to_string(), coins(700, USED_DENOM), ExecuteMsg::Bid {}).unwrap();
    execute(&mut state, BIDDER1.to_string(), coins(200, USED_DENOM), ExecuteMsg::Bid {}).unwrap();
    let mut entries = state.bids.entries();
    entries.sort();
    assert_eq!(
        entries,
        vec![(BIDDER1.to_string(), 800), (BIDDER2.to_string(), 700)]
    );
}

#[test]
fn highest_bid_info_is_empty_before_the_first_bid() {
    let state = fresh_auction(Some(OWNER));
    match query(&state, QueryMsg::HighestBidInfo {}) {
        QueryAnswer::HighestBidInfo { info } => {
            assert_eq!(info.addr, None);
            assert_eq!(info.bid_amount, None);
            assert!(!info.event_closed);
        },
        other => panic!("unexpected answer {:?}", other),
    }
}
