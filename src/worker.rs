//! One worker's order synthesis: each cycle draws an (offset, size) pair from
//! the worker's private stream and tags it with the next client order
//! identifier.
use vstd::prelude::*;
use crate::sampler::{ParamStream, offset_of, size_of, seeded_word};

verus! {

/// The parameters of one order triple.
#[derive(Clone, Copy, PartialEq, Eq, Structural, Debug)]
pub struct OrderTicket {
    pub client_order_id: u64,
    pub offset: i64,
    pub size: u64,
}

/// The `k`-th ticket (counting from zero) of the worker seeded with `seed`.
pub open spec fn ticket_at(seed: u64, k: nat) -> OrderTicket {
    OrderTicket {
        client_order_id: (k + 1) as u64,
        offset: offset_of(seeded_word(seed, 2 * k)) as i64,
        size: size_of(seeded_word(seed, 2 * k + 1)) as u64,
    }
}

/// `tickets` are the tickets of the worker seeded with `seed`, from its
/// `start`-th on.
pub open spec fn tickets_from(tickets: Seq<OrderTicket>, seed: u64, start: nat) -> bool {
    forall|i: int| 0 <= i < tickets.len() ==> #[trigger] tickets[i] == ticket_at(seed, start + i as nat)
}

/// A worker's private state: its seed, its parameter stream and its client
/// order counter.
pub struct Worker {
    seed: u64,
    params: ParamStream,
    next_id: u64,
}

impl Worker {
    pub closed spec fn seed_spec(&self) -> u64 {
        self.seed
    }

    /// How many tickets the worker has issued.
    pub closed spec fn issued(&self) -> nat {
        (self.next_id - 1) as nat
    }

    pub closed spec fn wf(&self) -> bool {
        &&& self.next_id >= 1
        &&& self.params.seed() == self.seed
        &&& self.params.drawn() == 2 * self.issued()
    }

    /// A worker with seed `seed` that has issued nothing; its first client
    /// order identifier is 1.
    pub fn new(seed: u64) -> (w: Worker)
        ensures
            w.wf(),
            w.seed_spec() == seed,
            w.issued() == 0,
    {
        Worker { seed, params: ParamStream::new(seed), next_id: 1 }
    }

    /// The seed the worker was created with.
    pub fn seed(&self) -> (r: u64)
        ensures
            r == self.seed_spec(),
    {
        self.seed
    }

    /// The client order identifier of the next ticket.
    pub fn next_client_order_id(&self) -> (r: u64)
        requires
            self.wf(),
        ensures
            r == self.issued() + 1,
    {
        self.next_id
    }

    /// Issues the next ticket: the next two words of the stream give its
    /// offset and size, and the counter gives its identifier, then advances
    /// by one.
    pub fn next_order(&mut self) -> (t: OrderTicket)
        requires
            old(self).wf(),
            old(self).issued() + 1 < u64::MAX,
        ensures
            final(self).wf(),
            final(self).seed_spec() == old(self).seed_spec(),
            final(self).issued() == old(self).issued() + 1,
            t == ticket_at(old(self).seed_spec(), old(self).issued()),
    {
        let (offset, size) = self.params.next_params();
        let t = OrderTicket { client_order_id: self.next_id, offset, size };
        self.next_id = self.next_id + 1;
        t
    }

    /// Issues the next `n` tickets, in order.
    pub fn next_orders(&mut self, n: u64) -> (r: Vec<OrderTicket>)
        requires
            old(self).wf(),
            old(self).issued() + n < u64::MAX,
        ensures
            final(self).wf(),
            final(self).seed_spec() == old(self).seed_spec(),
            final(self).issued() == old(self).issued() + n,
            r@.len() == n,
            tickets_from(r@, old(self).seed_spec(), old(self).issued()),
    {
        let mut r: Vec<OrderTicket> = Vec::new();
        let mut i: u64 = 0;
        while i < n
            invariant
                self.wf(),
                i <= n,
                self.seed_spec() == old(self).seed_spec(),
                self.issued() == old(self).issued() + i,
                old(self).issued() + n < u64::MAX,
                r@.len() == i,
                tickets_from(r@, old(self).seed_spec(), old(self).issued()),
            decreases n - i,
        {
            let t = self.next_order();
            r.push(t);
            i = i + 1;
        }
        r
    }
}

/// The client order identifiers that a worker emits start at 1, grow by
/// exactly 1 from each ticket to the next, and never repeat.
pub proof fn lemma_client_ids_consecutive(tickets: Seq<OrderTicket>, seed: u64)
    requires
        tickets_from(tickets, seed, 0),
        tickets.len() < u64::MAX,
    ensures
        tickets.len() > 0 ==> tickets[0].client_order_id == 1,
        forall|i: int| 0 <= i < tickets.len() ==> #[trigger] tickets[i].client_order_id == i + 1,
        forall|i: int| 0 <= i < tickets.len() - 1 ==> #[trigger] tickets[i + 1].client_order_id
            == tickets[i].client_order_id + 1,
        forall|i: int, j: int|
            0 <= i < j < tickets.len() ==> #[trigger] tickets[i].client_order_id < #[trigger] tickets[j].client_order_id,
{
    assert forall|i: int| 0 <= i < tickets.len() implies #[trigger] tickets[i].client_order_id == i + 1 by {
        assert(tickets[i] == ticket_at(seed, i as nat));
    }
    assert forall|i: int| 0 <= i < tickets.len() - 1 implies #[trigger] tickets[i + 1].client_order_id
        == tickets[i].client_order_id + 1 by {
        assert(tickets[i] == ticket_at(seed, i as nat));
        assert(tickets[i + 1] == ticket_at(seed, (i + 1) as nat));
    }
    assert forall|i: int, j: int| 0 <= i < j < tickets.len() implies #[trigger] tickets[i].client_order_id
        < #[trigger] tickets[j].client_order_id by {
        assert(tickets[i] == ticket_at(seed, i as nat));
        assert(tickets[j] == ticket_at(seed, j as nat));
    }
}

/// For a fixed seed and a fixed number of draws, two workers produce the same
/// tickets, offsets and sizes included.
pub proof fn lemma_tickets_reproducible(a: Seq<OrderTicket>, b: Seq<OrderTicket>, seed: u64, start: nat)
    requires
        tickets_from(a, seed, start),
        tickets_from(b, seed, start),
        a.len() == b.len(),
    ensures
        a == b,
{
    assert forall|i: int| 0 <= i < a.len() implies a[i] == b[i] by {
        assert(a[i] == ticket_at(seed, start + i as nat));
        assert(b[i] == ticket_at(seed, start + i as nat));
    }
    assert(a =~= b);
}

} // verus!
