//! The accept loop's decisions.
//!
//! The dispatcher owns the listening socket's bookkeeping: it gives every
//! accepted connection the next session identifier and has a session started
//! for it, and it outlives every failed accept. Whatever arrives, the answer
//! is to go on accepting: there is no answer that stops the listener.

use vstd::prelude::*;
use crate::relay::Session;
use crate::report::Notice;
use crate::session_id::issued;
use crate::session_id::SessionCounter;
use crate::session_id::FIRST_SESSION_ID;

verus! {

/// What an accept came to.
#[derive(Clone, Debug, PartialEq, Eq)]
pub enum Arrival {
    /// A connection was accepted. `peer` is its peer's address, where it
    /// could be had.
    Connection { peer: Option<String> },
    /// The accept failed.
    Failure { cause: String },
}

/// What the accept loop does with an arrival before it accepts again.
#[derive(Clone, Debug, PartialEq, Eq)]
pub enum Dispatch {
    /// Record the notice and start a task of its own for the session, without
    /// waiting for it.
    Spawn { session: Session, notice: Notice },
    /// Record the notice.
    Report { notice: Notice },
}

/// What follows an arrival at a dispatcher whose next identifier is `next`:
/// the next identifier after it, and what to do. A connection takes the
/// identifier and begins as an accepted session, with a notice of its start.
/// A failed accept takes no identifier and is reported.
pub open spec fn dispatch_step(next: u64, arrival: Arrival) -> (u64, Dispatch) {
    match arrival {
        Arrival::Connection { peer } => (
            issued(next, 1),
            Dispatch::Spawn {
                session: Session::spec_accepted(next, peer),
                notice: Notice::Started { session: next, client: peer },
            },
        ),
        Arrival::Failure { cause } => (next, Dispatch::Report { notice: Notice::AcceptFailed { cause } }),
    }
}

/// The number of connections among the arrivals.
pub open spec fn connections(arrivals: Seq<Arrival>) -> nat
    decreases arrivals.len(),
{
    if arrivals.len() == 0 {
        0
    } else {
        connections(arrivals.drop_last()) + if arrivals.last() is Connection {
            1nat
        } else {
            0nat
        }
    }
}

/// The next identifier of a dispatcher that started at `start`, after the
/// arrivals.
pub open spec fn next_after(start: u64, arrivals: Seq<Arrival>) -> u64
    decreases arrivals.len(),
{
    if arrivals.len() == 0 {
        start
    } else {
        dispatch_step(next_after(start, arrivals.drop_last()), arrivals.last()).0
    }
}

/// What a dispatcher that started at `start` does with the arrival at
/// `index`.
pub open spec fn dispatch_at(start: u64, arrivals: Seq<Arrival>, index: int) -> Dispatch {
    dispatch_step(next_after(start, arrivals.take(index)), arrivals[index]).1
}

/// The accept loop's state.
pub struct Dispatcher {
    counter: SessionCounter,
}

impl Dispatcher {
    /// The identifier that the next connection gets.
    pub closed spec fn view(&self) -> u64 {
        self.counter@
    }

    /// A dispatcher at the start of a process: the first connection gets
    /// `FIRST_SESSION_ID`.
    pub fn new() -> (dispatcher: Dispatcher)
        ensures
            dispatcher@ == FIRST_SESSION_ID,
    {
        Dispatcher { counter: SessionCounter::new() }
    }

    /// Decides what to do with an arrival.
    pub fn on_accept(&mut self, arrival: Arrival) -> (dispatch: Dispatch)
        ensures
            final(self)@ == dispatch_step(old(self)@, arrival).0,
            dispatch == dispatch_step(old(self)@, arrival).1,
    {
        match arrival {
            Arrival::Connection { peer } => {
                let id: u64 = self.counter.allocate();
                let client = match &peer {
                    Some(address) => Some(address.clone()),
                    None => None,
                };
                Dispatch::Spawn {
                    session: Session::accepted(id, peer),
                    notice: Notice::Started { session: id, client },
                }
            },
            Arrival::Failure { cause } => Dispatch::Report { notice: Notice::AcceptFailed { cause } },
        }
    }
}

/// The dispatcher's next identifier counts the connections: after any
/// arrivals it is the identifier that the counter issues after as many
/// allocations as connections were accepted. Failed accepts use none up.
pub proof fn lemma_next_counts_connections(start: u64, arrivals: Seq<Arrival>)
    ensures
        next_after(start, arrivals) == issued(start, connections(arrivals)),
    decreases arrivals.len(),
{
    if arrivals.len() > 0 {
        let earlier = arrivals.drop_last();
        lemma_next_counts_connections(start, earlier);
        if arrivals.last() is Connection {
            crate::session_id::lemma_issued_composes(start, connections(earlier), 1);
        }
    }
}

/// The connections among the first `upto` arrivals are among all of them.
pub proof fn lemma_connections_grow(arrivals: Seq<Arrival>, upto: int)
    requires
        0 <= upto <= arrivals.len(),
    ensures
        connections(arrivals.take(upto)) <= connections(arrivals),
        upto < arrivals.len() && arrivals[upto] is Connection ==> connections(
            arrivals.take(upto),
        ) < connections(arrivals),
    decreases arrivals.len() - upto,
{
    if upto < arrivals.len() {
        let longer = arrivals.take(upto + 1);
        assert(longer.drop_last() =~= arrivals.take(upto));
        assert(longer.last() == arrivals[upto]);
        lemma_connections_grow(arrivals, upto + 1);
    } else {
        assert(arrivals.take(upto) =~= arrivals);
    }
}

/// Every arrival is answered, and the answer to a connection is a session
/// under the identifier that the counter issues at that connection's place
/// among the connections: the first gets the first, the next the next.
pub proof fn lemma_each_connection_is_spawned(start: u64, arrivals: Seq<Arrival>, index: int)
    requires
        0 <= index < arrivals.len(),
    ensures
        match arrivals[index] {
            Arrival::Connection { peer } => {
                let id = issued(start, connections(arrivals.take(index)));
                dispatch_at(start, arrivals, index) == Dispatch::Spawn {
                    session: Session::spec_accepted(id, peer),
                    notice: Notice::Started { session: id, client: peer },
                }
            },
            Arrival::Failure { cause } => dispatch_at(start, arrivals, index) == Dispatch::Report {
                notice: Notice::AcceptFailed { cause },
            },
        },
{
    lemma_next_counts_connections(start, arrivals.take(index));
}

/// Of two connections that a dispatcher accepts, the later one gets the
/// greater identifier: identifiers are distinct and strictly increasing in
/// the order of acceptance, whatever failed accepts come in between, for as
/// long as the connections do not outnumber the 64-bit identifiers.
pub proof fn lemma_ids_follow_acceptance(
    start: u64,
    arrivals: Seq<Arrival>,
    first: int,
    second: int,
)
    requires
        0 <= first < second < arrivals.len(),
        arrivals[first] is Connection,
        arrivals[second] is Connection,
        start + connections(arrivals) <= u64::MAX + 1,
    ensures
        dispatch_at(start, arrivals, first) is Spawn,
        dispatch_at(start, arrivals, second) is Spawn,
        dispatch_at(start, arrivals, first)->session.id < dispatch_at(
            start,
            arrivals,
            second,
        )->session.id,
{
    lemma_each_connection_is_spawned(start, arrivals, first);
    lemma_each_connection_is_spawned(start, arrivals, second);
    let shorter = arrivals.take(second);
    assert(shorter.take(first) =~= arrivals.take(first));
    assert(shorter[first] == arrivals[first]);
    lemma_connections_grow(shorter, first);
    lemma_connections_grow(arrivals, second);
    crate::session_id::lemma_ids_strictly_increasing(
        start,
        connections(arrivals.take(first)),
        connections(shorter),
    );
}

} // verus!
