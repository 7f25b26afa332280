//! The exchange-independent plan of one order triple (cancel all open
//! orders, place a bid, place an ask), the lookup of the accounts it needs,
//! and the validation of a configuration before any worker starts.
use vstd::prelude::*;
use crate::oracle::same_anchor;
use crate::worker::OrderTicket;

verus! {

/// How many orders one cancel or place instruction may touch at most.
pub const ORDER_LIMIT: u8 = 255;

/// A participant's open-orders account on one market.
#[derive(Clone, Copy, Debug)]
pub struct OpenOrdersEntry {
    pub market: [u8; 32],
    pub open_orders: [u8; 32],
}

/// The accounts of one participant that order placement needs.
#[derive(Clone, Debug)]
pub struct ParticipantAccounts {
    pub token_accounts: Vec<[u8; 32]>,
    pub open_orders: Vec<OpenOrdersEntry>,
}

#[derive(Clone, Copy, PartialEq, Eq, Structural, Debug)]
pub enum Side {
    Bid,
    Ask,
}

/// One limit order to place.
#[derive(Clone, Copy, PartialEq, Eq, Structural, Debug)]
pub struct OrderLeg {
    pub side: Side,
    pub price_lots: i64,
    pub max_base_lots: i64,
    pub max_quote_lots_including_fees: i64,
    pub client_order_id: u64,
}

/// The plan of one order triple: cancel every open order of `open_orders`,
/// then place `bid`, then `ask`.
#[derive(Clone, Copy, Debug)]
pub struct OrderTriple {
    pub open_orders: [u8; 32],
    pub bid: OrderLeg,
    pub ask: OrderLeg,
}

#[derive(Clone, Copy, PartialEq, Eq, Structural, Debug)]
pub enum PlanError {
    /// The participant has no open-orders account on the market.
    MissingOpenOrders,
    /// The reference price moved by the offset leaves the 64-bit range.
    PriceOutOfRange,
}

#[derive(Clone, Copy, PartialEq, Eq, Structural, Debug)]
pub enum ConfigError {
    /// Participant `participant` holds no token account.
    NoTokenAccount { participant: usize },
    /// Participant `participant` has no open-orders account on market
    /// `market`.
    MissingOpenOrders { participant: usize, market: usize },
}

/// Some entry of `entries` is for `market`.
pub open spec fn has_entry(entries: Seq<OpenOrdersEntry>, market: Seq<u8>) -> bool {
    exists|i: int| 0 <= i < entries.len() && #[trigger] entries[i].market@ == market
}

/// Entry `i` is the first one for `market`.
pub open spec fn first_entry(entries: Seq<OpenOrdersEntry>, market: Seq<u8>, i: int) -> bool {
    &&& 0 <= i < entries.len()
    &&& entries[i].market@ == market
    &&& forall|j: int| 0 <= j < i ==> #[trigger] entries[j].market@ != market
}

pub open spec fn in_i64(x: int) -> bool {
    i64::MIN <= x <= i64::MAX
}

/// The legs of a triple at `price` for `t`: a bid at `price + offset` for
/// `size` base lots, an ask at `price - offset` for `size` quote lots.
pub open spec fn legs_spec(price: i64, t: OrderTicket) -> (OrderLeg, OrderLeg) {
    (
        OrderLeg {
            side: Side::Bid,
            price_lots: (price + t.offset) as i64,
            max_base_lots: t.size as i64,
            max_quote_lots_including_fees: i64::MAX,
            client_order_id: t.client_order_id,
        },
        OrderLeg {
            side: Side::Ask,
            price_lots: (price - t.offset) as i64,
            max_base_lots: i64::MAX,
            max_quote_lots_including_fees: t.size as i64,
            client_order_id: t.client_order_id,
        },
    )
}

/// A participant is ready to trade on `markets`: it has a token account and
/// an open-orders account on every market.
pub open spec fn participant_ready(p: ParticipantAccounts, markets: Seq<[u8; 32]>) -> bool {
    &&& p.token_accounts@.len() > 0
    &&& forall|m: int| 0 <= m < markets.len() ==> has_entry(p.open_orders@, #[trigger] markets[m]@)
}

/// The open-orders account of the first entry for `market`, if any.
pub fn find_open_orders(entries: &Vec<OpenOrdersEntry>, market: &[u8; 32]) -> (r: Option<[u8; 32]>)
    ensures
        match r {
            Some(a) => exists|i: int| first_entry(entries@, market@, i) && a == entries@[i].open_orders,
            None => !has_entry(entries@, market@),
        },
{
    let mut i: usize = 0;
    while i < entries.len()
        invariant
            0 <= i <= entries@.len(),
            forall|j: int| 0 <= j < i ==> #[trigger] entries@[j].market@ != market@,
        decreases entries@.len() - i,
    {
        if same_anchor(&entries[i].market, market) {
            assert(first_entry(entries@, market@, i as int));
            return Some(entries[i].open_orders);
        }
        i = i + 1;
    }
    None
}

/// The plan of the order triple of ticket `t` on `market` around the
/// reference price `price`: fails when the participant has no open-orders
/// account there, or when a leg's price leaves the 64-bit range.
pub fn plan_order_triple(entries: &Vec<OpenOrdersEntry>, market: &[u8; 32], price: i64, t: OrderTicket) -> (r:
    Result<OrderTriple, PlanError>)
    requires
        t.size <= i64::MAX,
    ensures
        !has_entry(entries@, market@) ==> r == Err::<OrderTriple, PlanError>(PlanError::MissingOpenOrders),
        has_entry(entries@, market@) && !(in_i64(price + t.offset) && in_i64(price - t.offset)) ==> r == Err::<
            OrderTriple,
            PlanError,
        >(PlanError::PriceOutOfRange),
        has_entry(entries@, market@) && in_i64(price + t.offset) && in_i64(price - t.offset) ==> r is Ok,
        r matches Ok(p) ==> ({
            &&& (p.bid, p.ask) == legs_spec(price, t)
            &&& exists|i: int| first_entry(entries@, market@, i) && p.open_orders == entries@[i].open_orders
        }),
{
    let open_orders = match find_open_orders(entries, market) {
        Some(a) => a,
        None => return Err(PlanError::MissingOpenOrders),
    };
    let bid_price = match price.checked_add(t.offset) {
        Some(x) => x,
        None => return Err(PlanError::PriceOutOfRange),
    };
    let ask_price = match price.checked_sub(t.offset) {
        Some(x) => x,
        None => return Err(PlanError::PriceOutOfRange),
    };
    let size = t.size as i64;
    let bid = OrderLeg {
        side: Side::Bid,
        price_lots: bid_price,
        max_base_lots: size,
        max_quote_lots_including_fees: i64::MAX,
        client_order_id: t.client_order_id,
    };
    let ask = OrderLeg {
        side: Side::Ask,
        price_lots: ask_price,
        max_base_lots: i64::MAX,
        max_quote_lots_including_fees: size,
        client_order_id: t.client_order_id,
    };
    Ok(OrderTriple { open_orders, bid, ask })
}

/// Checks, before any worker starts, that every participant can trade on
/// every market: it holds a token account and an open-orders account on each
/// market. An error names the first participant at fault and, for a missing
/// open-orders account, the first market it lacks.
pub fn validate_universe(participants: &Vec<ParticipantAccounts>, markets: &Vec<[u8; 32]>) -> (r: Result<
    (),
    ConfigError,
>)
    ensures
        r is Ok <==> forall|p: int| 0 <= p < participants@.len() ==> participant_ready(#[trigger] participants@[p], markets@),
        r matches Err(ConfigError::NoTokenAccount { participant }) ==> {
            &&& participant < participants@.len()
            &&& participants@[participant as int].token_accounts@.len() == 0
            &&& forall|q: int| 0 <= q < participant ==> participant_ready(#[trigger] participants@[q], markets@)
        },
        r matches Err(ConfigError::MissingOpenOrders { participant, market }) ==> {
            &&& participant < participants@.len()
            &&& market < markets@.len()
            &&& forall|q: int| 0 <= q < participant ==> participant_ready(#[trigger] participants@[q], markets@)
            &&& participants@[participant as int].token_accounts@.len() > 0
            &&& forall|k: int| 0 <= k < market ==> has_entry(participants@[participant as int].open_orders@, #[trigger] markets@[k]@)
            &&& !has_entry(participants@[participant as int].open_orders@, markets@[market as int]@)
        },
{
    let mut p: usize = 0;
    while p < participants.len()
        invariant
            0 <= p <= participants@.len(),
            forall|q: int| 0 <= q < p ==> participant_ready(#[trigger] participants@[q], markets@),
        decreases participants@.len() - p,
    {
        if participants[p].token_accounts.len() == 0 {
            return Err(ConfigError::NoTokenAccount { participant: p });
        }
        let mut m: usize = 0;
        while m < markets.len()
            invariant
                0 <= p < participants@.len(),
                0 <= m <= markets@.len(),
                forall|q: int| 0 <= q < p ==> participant_ready(#[trigger] participants@[q], markets@),
                participants@[p as int].token_accounts@.len() > 0,
                forall|k: int| 0 <= k < m ==> has_entry(participants@[p as int].open_orders@, #[trigger] markets@[k]@),
            decreases markets@.len() - m,
        {
            if find_open_orders(&participants[p].open_orders, &markets[m]).is_none() {
                return Err(ConfigError::MissingOpenOrders { participant: p, market: m });
            }
            m = m + 1;
        }
        p = p + 1;
    }
    Ok(())
}

/// What travels with each generated transaction to the dispatcher.
#[derive(Clone, Copy, Debug)]
pub struct DispatchRecord {
    pub market: [u8; 32],
    pub participant: [u8; 32],
    pub signature: [u8; 64],
    /// The chain height read when the transaction was sent.
    pub sent_height: u64,
    /// Wall-clock send time, milliseconds since the Unix epoch.
    pub sent_at_ms: i64,
}

} // verus!
