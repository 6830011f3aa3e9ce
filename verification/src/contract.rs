use vstd::prelude::*;

use crate::error::ContractError;
use crate::fees::{get_owner_fee_amount, lemma_fee_bounded, spec_fee, FEE_DECIMAL_PRECISION};
use crate::msg::{
    Attribute, BankSend, BidEventInfoResponse, Coin, ExecuteMsg, InstantiateMsg, QueryAnswer,
    QueryMsg, Response,
};
use crate::state::{AuctionState, BidLedger, Config};

verus! {

/// The decimal digit string of an amount, as `Display` renders it.
pub uninterp spec fn dec_str_of(n: u128) -> Seq<char>;

/// Relies on `ToString::to_string` for `u128`: the decimal digits of `n`,
/// a function of `n` alone.
#[verifier::external_body]
fn u128_to_string(n: u128) -> (r: String)
    ensures
        r@ == dec_str_of(n),
{
    n.to_string()
}

/// The amount attached to an action; meaningful only when the attached
/// funds are a single coin.
pub open spec fn spec_paid_amount(funds: Seq<Coin>) -> u128 {
    if funds.len() == 1 {
        funds[0].amount
    } else {
        0u128
    }
}

/// A valid attached payment: exactly one coin, in the accepted currency,
/// of non-zero amount.
pub open spec fn spec_valid_payment(funds: Seq<Coin>, denom: Seq<char>) -> bool {
    funds.len() == 1 && funds[0].denom@ == denom && funds[0].amount > 0
}

/// The participant's cumulative contribution so far; zero if they never
/// bid.
pub open spec fn spec_prior_bid(s: AuctionState, sender: Seq<char>) -> u128 {
    if s.bids@.contains_key(sender) {
        s.bids@[sender]
    } else {
        0u128
    }
}

/// Validates the attached payment and extracts its amount. This restates,
/// over the engine's own `Coin`, the check the original bid path performs:
/// a bid must attach exactly one non-zero coin of the accepted currency.
fn must_pay_amount(funds: &Vec<Coin>, denom: &String) -> (r: Option<u128>)
    ensures
        spec_valid_payment(funds@, denom@) ==> r == Some(spec_paid_amount(funds@)),
        !spec_valid_payment(funds@, denom@) ==> r is None,
{
    if funds.len() != 1 {
        return None;
    }
    let c = &funds[0];
    if c.amount == 0 {
        return None;
    }
    if c.denom == *denom {
        Some(c.amount)
    } else {
        None
    }
}

/// The stored leading bid amount, or zero before the first bid.
pub fn get_highest_bid(state: &AuctionState) -> (r: u128)
    ensures
        r == state.highest_amount(),
{
    match &state.highest {
        Some(p) => p.1,
        None => 0,
    }
}

/// What a successful bid's response looks like: one `fee` attribute always;
/// a payment instruction for the fee to the owner exactly when the fee is
/// non-zero, the zero-fee case being observably marked by the literal `"0"`.
pub open spec fn bid_response_ok(pre: AuctionState, resp: Response, fee: int) -> bool {
    &&& resp.attributes@.len() == 1
    &&& resp.attributes@[0].key@ == "fee"@
    &&& (fee == 0 ==> resp.messages@.len() == 0 && resp.attributes@[0].value@ == "0"@)
    &&& (fee != 0 ==> {
        &&& resp.messages@.len() == 1
        &&& resp.messages@[0].to_address@ == pre.owner@
        &&& resp.messages@[0].denom@ == pre.config.required_native_denom@
        &&& resp.messages@[0].amount == fee
        &&& resp.attributes@[0].value@ == dec_str_of(fee as u128)
    })
}

/// Complete postcondition of the bid action, relating the state before,
/// the state after, and the outcome.
pub open spec fn bid_post(
    pre: AuctionState,
    post: AuctionState,
    sender: String,
    funds: Seq<Coin>,
    r: Result<Response, ContractError>,
) -> bool {
    let denom = pre.config.required_native_denom@;
    let paid = spec_paid_amount(funds);
    let new_total = spec_prior_bid(pre, sender@) + paid;
    &&& (!pre.config.open_sale ==> r == Err::<Response, ContractError>(
        ContractError::BidEventClosed {},
    ) && post == pre)
    &&& (pre.config.open_sale && !spec_valid_payment(funds, denom) ==> r == Err::<
        Response,
        ContractError,
    >(ContractError::WrongToken {}) && post == pre)
    &&& (pre.config.open_sale && spec_valid_payment(funds, denom) && pre.highest_amount()
        >= new_total ==> r == Err::<Response, ContractError>(ContractError::BidAmountInsuf {})
        && post == pre)
    &&& (pre.config.open_sale && spec_valid_payment(funds, denom) && pre.highest_amount()
        < new_total ==> {
        &&& r is Ok
        &&& post.bids@ == pre.bids@.insert(sender@, new_total as u128)
        &&& post.highest_view() == Some((sender@, new_total as u128))
        &&& post.config == pre.config
        &&& post.owner == pre.owner
        &&& bid_response_ok(pre, r->Ok_0, spec_fee(paid, pre.config.fee))
    })
}

/// Places or raises a cumulative bid with the attached payment.
///
/// On success the sender's cumulative total strictly exceeds the previous
/// leading amount, the sender becomes the leader, and the protocol fee on
/// the increment just received (not on the cumulative total) is instructed
/// to the owner.
pub fn do_bid(state: &mut AuctionState, sender: String, funds: Vec<Coin>) -> (r: Result<
    Response,
    ContractError,
>)
    requires
        old(state).wf(),
        spec_prior_bid(*old(state), sender@) + spec_paid_amount(funds@) <= u128::MAX,
    ensures
        final(state).wf(),
        bid_post(*old(state), *final(state), sender, funds@, r),
{
    let ghost pre = *old(state);
    let ghost skey = sender@;
    if !state.config.open_sale {
        return Err(ContractError::BidEventClosed {});
    }
    let paid = match must_pay_amount(&funds, &state.config.required_native_denom) {
        Some(p) => p,
        None => {
            return Err(ContractError::WrongToken {});
        },
    };
    let highest_bid = get_highest_bid(state);
    let total_user_bid = state.bids.get(&sender);
    if highest_bid >= total_user_bid + paid {
        return Err(ContractError::BidAmountInsuf {});
    }
    let new_total = total_user_bid + paid;
    proof {
        lemma_fee_bounded(paid, state.config.fee);
    }
    let fee_amount = get_owner_fee_amount(paid, state.config.fee).unwrap();
    state.bids.record_bid(sender.clone(), new_total);
    state.highest = Some((sender, new_total));
    proof {
        assert forall|k: Seq<char>| state.bids@.contains_key(k) implies state.bids@[k]
            <= new_total by {
            if k != skey {
                assert(pre.bids@.contains_key(k));
                match pre.highest {
                    None => {
                        assert(false);
                    },
                    Some(p) => {
                        assert(pre.bids@[k] <= p.1);
                    },
                }
            }
        }
    }
    if fee_amount == 0 {
        let mut attributes: Vec<Attribute> = Vec::new();
        attributes.push(Attribute { key: "fee".to_owned(), value: "0".to_owned() });
        return Ok(Response { messages: Vec::new(), attributes });
    }
    let mut messages: Vec<BankSend> = Vec::new();
    messages.push(
        BankSend {
            to_address: state.owner.clone(),
            denom: state.config.required_native_denom.clone(),
            amount: fee_amount,
        },
    );
    let mut attributes: Vec<Attribute> = Vec::new();
    attributes.push(Attribute { key: "fee".to_owned(), value: u128_to_string(fee_amount) });
    Ok(Response { messages, attributes })
}

/// Complete postcondition of the close action.
pub open spec fn close_post(
    pre: AuctionState,
    post: AuctionState,
    sender: String,
    r: Result<Response, ContractError>,
) -> bool {
    &&& (sender@ != pre.owner@ ==> r == Err::<Response, ContractError>(
        ContractError::Unauthorized {},
    ) && post == pre)
    &&& (sender@ == pre.owner@ && !pre.config.open_sale ==> r == Err::<Response, ContractError>(
        ContractError::BidEventClosed {},
    ) && post == pre)
    &&& (sender@ == pre.owner@ && pre.config.open_sale && pre.highest is None ==> r is Err
        && r->Err_0 is Std && post == pre)
    &&& (pre.highest is Some && sender@ == pre.owner@ && pre.config.open_sale ==> {
        let p = pre.highest->Some_0;
        let fee = spec_fee(p.1, pre.config.fee);
        &&& r is Ok
        &&& post.config.open_sale == false
        &&& post.config.required_native_denom == pre.config.required_native_denom
        &&& post.config.fee == pre.config.fee
        &&& post.owner == pre.owner
        &&& post.bids == pre.bids
        &&& post.highest == pre.highest
        &&& r->Ok_0.messages@.len() == 1
        &&& r->Ok_0.messages@[0].to_address@ == pre.owner@
        &&& r->Ok_0.messages@[0].denom@ == pre.config.required_native_denom@
        &&& r->Ok_0.messages@[0].amount == p.1 - fee
        &&& r->Ok_0.attributes@.len() == 0
    })
}

/// Owner only, once only: closes the auction and instructs the leading
/// amount, minus one fee computed on that whole amount, to the owner.
///
/// The fee share already collected incrementally during bidding is not
/// credited back here: the close fee is charged on the full leading total
/// in addition to the per-bid fees, a double-charge characteristic kept
/// deliberately.
pub fn close_bid_event(state: &mut AuctionState, sender: String) -> (r: Result<
    Response,
    ContractError,
>)
    requires
        old(state).wf(),
    ensures
        final(state).wf(),
        close_post(*old(state), *final(state), sender, r),
{
    if !(sender == state.owner) {
        return Err(ContractError::Unauthorized {});
    }
    if !state.config.open_sale {
        return Err(ContractError::BidEventClosed {});
    }
    let am = match &state.highest {
        None => {
            return Err(ContractError::Std { msg: "no bid was ever placed".to_owned() });
        },
        Some(p) => p.1,
    };
    proof {
        lemma_fee_bounded(am, state.config.fee);
    }
    let fee_amount = get_owner_fee_amount(am, state.config.fee).unwrap();
    let amount_wo_fee = am - fee_amount;
    state.config.open_sale = false;
    let mut messages: Vec<BankSend> = Vec::new();
    messages.push(
        BankSend {
            to_address: state.owner.clone(),
            denom: state.config.required_native_denom.clone(),
            amount: amount_wo_fee,
        },
    );
    Ok(Response { messages, attributes: Vec::new() })
}

/// Where a retraction's payout goes: the alternate recipient if one was
/// supplied, else the retracting caller.
pub open spec fn spec_recipient(sender: String, friend_rec: Option<String>) -> Seq<char> {
    match friend_rec {
        Some(f) => f@,
        None => sender@,
    }
}

/// Complete postcondition of the retract action.
pub open spec fn retract_post(
    pre: AuctionState,
    post: AuctionState,
    sender: String,
    friend_rec: Option<String>,
    r: Result<Response, ContractError>,
) -> bool {
    &&& (pre.config.open_sale ==> r == Err::<Response, ContractError>(
        ContractError::BidEventClosed {},
    ) && post == pre)
    &&& (!pre.config.open_sale && pre.highest is None ==> r is Err && r->Err_0 is Std && post
        == pre)
    &&& (pre.highest matches Some(p) && !pre.config.open_sale && p.0@ == sender@ ==> r == Err::<
        Response,
        ContractError,
    >(ContractError::Unauthorized {}) && post == pre)
    &&& (pre.highest matches Some(p) && !pre.config.open_sale && p.0@ != sender@ ==> {
        &&& (!pre.bids@.contains_key(sender@) ==> r == Err::<Response, ContractError>(
            ContractError::NoFundsToRetract {},
        ) && post == pre)
        &&& (pre.bids@.contains_key(sender@) && pre.bids@[sender@] == 0 ==> r == Err::<
            Response,
            ContractError,
        >(ContractError::AlreadyRetracted {}) && post == pre)
        &&& (pre.bids@.contains_key(sender@) && pre.bids@[sender@] > 0 ==> {
            let w = pre.bids@[sender@];
            let fee = spec_fee(w, pre.config.fee);
            &&& r is Ok
            &&& post.bids@ == pre.bids@.insert(sender@, 0u128)
            &&& post.owner == pre.owner
            &&& post.config == pre.config
            &&& post.highest == pre.highest
            &&& r->Ok_0.messages@.len() == 1
            &&& r->Ok_0.messages@[0].to_address@ == spec_recipient(sender, friend_rec)
            &&& r->Ok_0.messages@[0].denom@ == pre.config.required_native_denom@
            &&& r->Ok_0.messages@[0].amount == w - fee
            &&& r->Ok_0.attributes@.len() == 0
        })
    })
}

/// After close, a participant other than the leader reclaims their funds,
/// minus the withdrawal fee, paid to themselves or to the alternate
/// recipient; each participant can do so at most once.
pub fn retract(state: &mut AuctionState, sender: String, friend_rec: Option<String>) -> (r: Result<
    Response,
    ContractError,
>)
    requires
        old(state).wf(),
    ensures
        final(state).wf(),
        retract_post(*old(state), *final(state), sender, friend_rec, r),
{
    let ghost pre = *old(state);
    let ghost skey = sender@;
    if state.config.open_sale {
        return Err(ContractError::BidEventClosed {});
    }
    let is_leader = match &state.highest {
        None => {
            return Err(ContractError::Std { msg: "no bid was ever placed".to_owned() });
        },
        Some(p) => p.0 == sender,
    };
    if is_leader {
        return Err(ContractError::Unauthorized {});
    }
    let receiver_addr = match friend_rec {
        Some(add) => add,
        None => sender.clone(),
    };
    let amount_to_send = match state.bids.take_for_retraction(&sender) {
        Ok(a) => a,
        Err(e) => {
            return Err(e);
        },
    };
    proof {
        lemma_fee_bounded(amount_to_send, state.config.fee);
        assert forall|k: Seq<char>| state.bids@.contains_key(k) implies state.bids@[k]
            <= pre.highest->Some_0.1 by {
            if k != skey {
                assert(pre.bids@.contains_key(k));
            }
        }
    }
    let paid_fee = get_owner_fee_amount(amount_to_send, state.config.fee).unwrap();
    let net = amount_to_send - paid_fee;
    let mut messages: Vec<BankSend> = Vec::new();
    messages.push(
        BankSend {
            to_address: receiver_addr,
            denom: state.config.required_native_denom.clone(),
            amount: net,
        },
    );
    Ok(Response { messages, attributes: Vec::new() })
}

/// Dispatches one externally invoked action to its handler.
pub fn execute(
    state: &mut AuctionState,
    sender: String,
    funds: Vec<Coin>,
    msg: ExecuteMsg,
) -> (r: Result<Response, ContractError>)
    requires
        old(state).wf(),
        msg is Bid ==> spec_prior_bid(*old(state), sender@) + spec_paid_amount(funds@)
            <= u128::MAX,
    ensures
        final(state).wf(),
        match msg {
            ExecuteMsg::Bid {} => bid_post(*old(state), *final(state), sender, funds@, r),
            ExecuteMsg::Close {} => close_post(*old(state), *final(state), sender, r),
            ExecuteMsg::Retract { friend_rec } => retract_post(
                *old(state),
                *final(state),
                sender,
                friend_rec,
                r,
            ),
        },
{
    match msg {
        ExecuteMsg::Bid {} => do_bid(state, sender, funds),
        ExecuteMsg::Close {} => close_bid_event(state, sender),
        ExecuteMsg::Retract { friend_rec } => retract(state, sender, friend_rec),
    }
}

/// Creates a fresh auction: open, with an empty ledger and no leader, owned
/// by the given owner or, absent one, by the engine's own deployed
/// identity.
///
/// Rates of one or more would let a later close or retraction underflow,
/// so the fee rate must be strictly below one; the hosting runtime rejects
/// anything else before reaching the engine.
pub fn instantiate(msg: InstantiateMsg, contract_address: String, sender: String) -> (r: (
    AuctionState,
    Response,
))
    requires
        msg.fee < FEE_DECIMAL_PRECISION,
    ensures
        r.0.wf(),
        r.0.owner@ == (match msg.owner {
            Some(o) => o@,
            None => contract_address@,
        }),
        r.0.config.required_native_denom@ == msg.required_native_denom@,
        r.0.config.fee == msg.fee,
        r.0.config.open_sale,
        r.0.highest is None,
        forall|k: Seq<char>| !r.0.bids@.contains_key(k),
        r.1.messages@.len() == 0,
        r.1.attributes@.len() == 3,
        r.1.attributes@[0].key@ == "action"@ && r.1.attributes@[0].value@ == "instantiate"@,
        r.1.attributes@[1].key@ == "sender"@ && r.1.attributes@[1].value@ == sender@,
        r.1.attributes@[2].key@ == "owner"@ && r.1.attributes@[2].value@ == r.0.owner@,
{
    let owner = match msg.owner {
        Some(o) => o,
        None => contract_address,
    };
    let config = Config {
        required_native_denom: msg.required_native_denom,
        fee: msg.fee,
        open_sale: true,
    };
    let mut attributes: Vec<Attribute> = Vec::new();
    attributes.push(Attribute { key: "action".to_owned(), value: "instantiate".to_owned() });
    attributes.push(Attribute { key: "sender".to_owned(), value: sender });
    attributes.push(Attribute { key: "owner".to_owned(), value: owner.clone() });
    let state = AuctionState { owner, config, bids: BidLedger::new(), highest: None };
    (state, Response { messages: Vec::new(), attributes })
}

/// The mathematical content of a query answer, with identities abstracted
/// to their character sequences.
pub enum QueryAnswerView {
    BidderTotalBid { amount: u128 },
    HighestBidInfo { addr: Option<Seq<char>>, bid_amount: Option<u128>, event_closed: bool },
    TotalNumberOfParticipants { count: int },
}

/// What a query answer denotes.
pub open spec fn answer_view(a: QueryAnswer) -> QueryAnswerView {
    match a {
        QueryAnswer::BidderTotalBid { amount } => QueryAnswerView::BidderTotalBid { amount },
        QueryAnswer::HighestBidInfo { info } => QueryAnswerView::HighestBidInfo {
            addr: match info.addr {
                None => None,
                Some(s) => Some(s@),
            },
            bid_amount: info.bid_amount,
            event_closed: info.event_closed,
        },
        QueryAnswer::TotalNumberOfParticipants { count } => {
            QueryAnswerView::TotalNumberOfParticipants { count: count as int }
        },
    }
}

/// The answer every query returns: a function of the queried state alone,
/// so that identical queries against an unchanged state give identical
/// answers, and a query can change nothing.
pub open spec fn spec_query(s: AuctionState, msg: QueryMsg) -> QueryAnswerView {
    match msg {
        QueryMsg::BidderTotalBid { address } => QueryAnswerView::BidderTotalBid {
            amount: spec_prior_bid(s, address@),
        },
        QueryMsg::HighestBidInfo {  } => QueryAnswerView::HighestBidInfo {
            addr: match s.highest {
                None => None,
                Some(p) => Some(p.0@),
            },
            bid_amount: match s.highest {
                None => None,
                Some(p) => Some(p.1),
            },
            event_closed: !s.config.open_sale,
        },
        QueryMsg::TotalNumberOfParticipants {  } => QueryAnswerView::TotalNumberOfParticipants {
            count: s.bids@.dom().len() as int,
        },
    }
}

/// A participant's cumulative contribution; zero for one that never bid,
/// including any identity the hosting runtime would reject, since such an
/// identity can never hold a ledger entry.
pub fn query_bidder_total_bid(state: &AuctionState, address: String) -> (r: u128)
    requires
        state.wf(),
    ensures
        r == spec_prior_bid(*state, address@),
{
    state.bids.get(&address)
}

/// The current leader, the leading amount (both absent before the first
/// bid), and whether the auction is closed.
pub fn query_bid_event_info(state: &AuctionState) -> (r: BidEventInfoResponse)
    ensures
        r.event_closed == !state.config.open_sale,
        state.highest is None ==> r.addr is None && r.bid_amount is None,
        state.highest matches Some(p) ==> (r.addr matches Some(a) && a@ == p.0@) && r.bid_amount
            == Some(p.1),
{
    match &state.highest {
        None => BidEventInfoResponse {
            addr: None,
            bid_amount: None,
            event_closed: !state.config.open_sale,
        },
        Some(p) => BidEventInfoResponse {
            addr: Some(p.0.clone()),
            bid_amount: Some(p.1),
            event_closed: !state.config.open_sale,
        },
    }
}

/// Count of distinct participants that ever placed a bid; retraction does
/// not lower it.
pub fn query_total_number_participants(state: &AuctionState) -> (r: usize)
    requires
        state.wf(),
    ensures
        r == state.bids@.dom().len(),
{
    state.bids.num_participants()
}

/// Dispatches one read-only query. The state is taken by shared reference,
/// so no query can mutate it, and the answer is pinned to `spec_query`, a
/// function of the state alone.
pub fn query(state: &AuctionState, msg: QueryMsg) -> (r: QueryAnswer)
    requires
        state.wf(),
    ensures
        answer_view(r) == spec_query(*state, msg),
{
    match msg {
        QueryMsg::BidderTotalBid { address } => QueryAnswer::BidderTotalBid {
            amount: query_bidder_total_bid(state, address),
        },
        QueryMsg::HighestBidInfo {  } => QueryAnswer::HighestBidInfo {
            info: query_bid_event_info(state),
        },
        QueryMsg::TotalNumberOfParticipants {  } => QueryAnswer::TotalNumberOfParticipants {
            count: query_total_number_participants(state),
        },
    }
}

/// Monotonic leader: a bid never lowers the leading amount — it strictly
/// raises it when accepted and changes nothing when rejected — and in
/// every well-formed state the leading amount is the maximum over all
/// ledger entries, held by the leader.
pub proof fn lemma_monotonic_leader(
    pre: AuctionState,
    post: AuctionState,
    sender: String,
    funds: Seq<Coin>,
    r: Result<Response, ContractError>,
)
    requires
        pre.wf(),
        post.wf(),
        spec_prior_bid(pre, sender@) + spec_paid_amount(funds) <= u128::MAX,
        bid_post(pre, post, sender, funds, r),
    ensures
        post.highest_amount() >= pre.highest_amount(),
        r is Ok ==> post.highest_amount() > pre.highest_amount(),
        r is Err ==> post == pre,
        post.highest matches Some(p) ==> post.bids@.contains_key(p.0@) && post.bids@[p.0@] == p.1
            && forall|k: Seq<char>| post.bids@.contains_key(k) ==> post.bids@[k] <= p.1,
{
    if pre.config.open_sale && spec_valid_payment(funds, pre.config.required_native_denom@)
        && pre.highest_amount() < spec_prior_bid(pre, sender@) + spec_paid_amount(funds) {
        assert(post.highest_view() is Some);
    }
}

/// No double retraction: after a successful retraction, a second attempt
/// by the same identity fails with `AlreadyRetracted` and emits no second
/// payout, whoever the named recipients are.
pub proof fn lemma_no_double_retraction(
    s0: AuctionState,
    s1: AuctionState,
    s2: AuctionState,
    sender: String,
    rec1: Option<String>,
    rec2: Option<String>,
    r1: Result<Response, ContractError>,
    r2: Result<Response, ContractError>,
)
    requires
        s0.wf(),
        retract_post(s0, s1, sender, rec1, r1),
        r1 is Ok,
        retract_post(s1, s2, sender, rec2, r2),
    ensures
        r2 == Err::<Response, ContractError>(ContractError::AlreadyRetracted {}),
        s2 == s1,
{
    assert(!s0.config.open_sale);
    assert(s0.highest is Some);
    assert(s1.bids@.contains_key(sender@) && s1.bids@[sender@] == 0);
}

/// The leader cannot retract: after close, the leader's retraction attempt
/// fails with `Unauthorized` and changes nothing, regardless of their
/// ledger balance.
pub proof fn lemma_leader_cannot_retract(
    pre: AuctionState,
    post: AuctionState,
    sender: String,
    friend_rec: Option<String>,
    r: Result<Response, ContractError>,
)
    requires
        !pre.config.open_sale,
        pre.highest matches Some(p) && p.0@ == sender@,
        retract_post(pre, post, sender, friend_rec, r),
    ensures
        r == Err::<Response, ContractError>(ContractError::Unauthorized {}),
        post == pre,
{
}

} // verus!
