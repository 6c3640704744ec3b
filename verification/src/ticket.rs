//! The query-ticket store: binds a compiled-but-unexecuted query to a
//! single-use opaque ticket, redeems the ticket exactly once, and prunes
//! stale tickets by age.

use vstd::prelude::*;

verus! {

use crate::store::KeyedStore;
use crate::store::Stored;
use crate::store::expired;
use crate::tokens::is_token_text;
use crate::tokens::random_token;

/// A redeemed ticket record: when it was issued and the deferred query it
/// carried.
#[derive(Debug)]
pub struct TicketInfo<D> {
    pub start: u64,
    pub dataframe: D,
}

/// The store of outstanding tickets. `D` is the engine's deferred-query
/// handle; the broker carries it through opaquely.
pub struct QueryTicketStore<D> {
    store: KeyedStore<D>,
}

impl<D> View for QueryTicketStore<D> {
    type V = Map<Seq<char>, Stored<D>>;

    closed spec fn view(&self) -> Map<Seq<char>, Stored<D>> {
        self.store@
    }
}

impl<D> QueryTicketStore<D> {
    /// The store's contents always form a finite map, so counting what a
    /// prune removed is well defined.
    pub proof fn lemma_view_finite(&self)
        ensures
            self@.dom().finite(),
    {
        self.store.lemma_view_finite();
    }

    /// An empty store.
    pub fn new() -> (r: Self)
        ensures
            r@ == Map::<Seq<char>, Stored<D>>::empty(),
            r@.dom().finite(),
    {
        QueryTicketStore { store: KeyedStore::new() }
    }

    /// How many tickets are outstanding.
    pub fn len(&self) -> (r: usize)
        ensures
            r == self@.len(),
    {
        self.store.len()
    }

    /// Issues a fresh random ticket bound to the deferred query.
    pub fn issue(&mut self, dataframe: D, now: u64) -> (ticket: String)
        ensures
            is_token_text(ticket@),
            final(self)@ == old(self)@.insert(
                ticket@,
                (Stored { stamp: now, value: dataframe }),
            ),
            final(self)@.dom().finite(),
    {
        let ticket = random_token();
        let key = ticket.clone();
        self.store.insert(key, now, dataframe);
        ticket
    }

    /// Redeems a ticket: removes and returns the record if the ticket is
    /// outstanding, else returns nothing. Successful redemption consumes
    /// the ticket, so a repeated redemption finds nothing.
    pub fn redeem(&mut self, ticket: &String) -> (r: Option<TicketInfo<D>>)
        ensures
            final(self)@ == old(self)@.remove(ticket@),
            final(self)@.dom().finite(),
            !final(self)@.contains_key(ticket@),
            match r {
                Some(record) => old(self)@.contains_key(ticket@) && record.start == old(
                    self,
                )@[ticket@].stamp && record.dataframe == old(self)@[ticket@].value,
                None => !old(self)@.contains_key(ticket@),
            },
    {
        match self.store.remove(ticket) {
            Some((stamp, dataframe)) => Some(TicketInfo { start: stamp, dataframe }),
            None => None,
        }
    }

    /// Removes every ticket older than `ttl`, returning how many went.
    pub fn prune(&mut self, ttl: u64, now: u64) -> (removed: usize)
        ensures
            forall|k: Seq<char>| #[trigger] final(self)@.contains_key(k) <==> (old(
                self,
            )@.contains_key(k) && !expired(old(self)@[k].stamp, ttl, now)),
            forall|k: Seq<char>| #[trigger] final(self)@.contains_key(k) ==> final(self)@[k]
                == old(self)@[k],
            removed + final(self)@.len() == old(self)@.len(),
            final(self)@.dom().finite(),
    {
        self.store.prune(ttl, now)
    }
}

/// A ticket is consumed by its first redemption: once a ticket is removed
/// from the store, the store no longer knows it, so any later redemption
/// of the same ticket returns nothing.
pub proof fn lemma_single_consumption<D>(m: Map<Seq<char>, Stored<D>>, ticket: Seq<char>)
    ensures
        !m.remove(ticket).contains_key(ticket),
{
}

} // verus!
