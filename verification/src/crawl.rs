//! The paginated crawl of the master directory as a state machine.
//!
//! The machine performs no exchange itself. For a state it names the query
//! to send; handed the reply and the address the reply came from, it gives
//! the endpoints of that page and the state that follows. The address type
//! `A` is the driver's: the machine only carries it from a reply to the next
//! request.

use crate::codec::{
    decode_master_response, encode_master_query, master_query, master_response, BatchView,
};
use crate::error::{DiscoveryError, ProtocolError, TransportError};
use crate::endpoint::Server;
use vstd::prelude::*;

verus! {

/// Where a crawl stands.
#[derive(Debug, PartialEq, Eq)]
pub enum QueryState<A> {
    /// No page was asked for yet: the first query carries the all-zero seed
    /// and goes to the directory's well-known address.
    New,
    /// A page came that does not end the list: the next query carries `seed`,
    /// the last endpoint of that page, and goes to `master`, the address that
    /// page came from.
    Loop { seed: Server, master: A },
    /// The page that ends the list came: nothing more is asked.
    Done,
}

/// What one reply of the directory amounts to.
#[derive(Debug, PartialEq, Eq)]
pub enum QueryResult<A> {
    /// The page does not end the list.
    Continue { seed: Server, master: A, data: Vec<Server> },
    /// The page ends the list.
    Finished { data: Vec<Server> },
}

/// A `QueryResult` with its endpoints as a sequence.
pub enum QueryResultView<A> {
    Continue { seed: Server, master: A, data: Seq<Server> },
    Finished { data: Seq<Server> },
}

impl<A> View for QueryResult<A> {
    type V = QueryResultView<A>;

    open spec fn view(&self) -> QueryResultView<A> {
        match *self {
            QueryResult::Continue { seed, master, data } => QueryResultView::Continue {
                seed,
                master,
                data: data@,
            },
            QueryResult::Finished { data } => QueryResultView::Finished { data: data@ },
        }
    }
}

impl<A> QueryState<A> {
    /// How far the crawl has come: 0 before the first page, 1 between pages,
    /// 2 at the end.
    pub open spec fn rank(self) -> nat {
        match self {
            QueryState::New => 0,
            QueryState::Loop { .. } => 1,
            QueryState::Done => 2,
        }
    }

    /// The seed of the page to ask for next, if there is one to ask for.
    pub open spec fn spec_seed(self) -> Option<Server> {
        match self {
            QueryState::New => Some(Server::spec_zero()),
            QueryState::Loop { seed, .. } => Some(seed),
            QueryState::Done => None,
        }
    }

    /// The seed of the page to ask for next, if there is one to ask for.
    pub fn seed(&self) -> (r: Option<Server>)
        ensures
            r == self.spec_seed(),
    {
        match self {
            QueryState::New => Some(Server::zero()),
            QueryState::Loop { seed, .. } => Some(*seed),
            QueryState::Done => None,
        }
    }

    /// The query to send next; none once the crawl is done.
    pub fn request(&self) -> (r: Option<Vec<u8>>)
        ensures
            match self.spec_seed() {
                Some(seed) => r is Some && r->Some_0@ == master_query(seed),
                None => r is None,
            },
    {
        match self.seed() {
            Some(seed) => Some(encode_master_query(&seed)),
            None => None,
        }
    }

    /// The address to send the next query to, where a reply has given one.
    /// The first query of a crawl has none yet.
    pub fn master(&self) -> (r: Option<&A>)
        ensures
            match *self {
                QueryState::Loop { master, .. } => r == Some(&master),
                _ => r is None,
            },
    {
        match self {
            QueryState::Loop { master, .. } => Some(master),
            _ => None,
        }
    }

    /// Whether the crawl is done.
    pub fn is_done(&self) -> (r: bool)
        ensures
            r == (*self is Done),
    {
        match self {
            QueryState::Done => true,
            _ => false,
        }
    }
}

/// What the reply `bytes`, come from `from`, amounts to.
pub open spec fn query_outcome<A>(from: A, bytes: Seq<u8>) -> Result<
    QueryResultView<A>,
    ProtocolError,
> {
    match master_response(bytes) {
        Err(e) => Err(e),
        Ok(batch) => match batch.next {
            Some(seed) => Ok(QueryResultView::Continue { seed, master: from, data: batch.servers }),
            None => Ok(QueryResultView::Finished { data: batch.servers }),
        },
    }
}

/// The step that a crawl in `state` takes on the reply `bytes`, come from
/// `from`: the endpoints of the page and the state that follows. A crawl
/// that is done takes no step; a reply that does not decode ends the crawl
/// with its error.
pub open spec fn crawl_step<A>(state: QueryState<A>, from: A, bytes: Seq<u8>) -> Result<
    Option<(Seq<Server>, QueryState<A>)>,
    ProtocolError,
> {
    if state is Done {
        Ok(None)
    } else {
        match query_outcome(from, bytes) {
            Err(e) => Err(e),
            Ok(QueryResultView::Continue { seed, master, data }) => Ok(
                Some((data, QueryState::Loop { seed, master })),
            ),
            Ok(QueryResultView::Finished { data }) => Ok(Some((data, QueryState::Done))),
        }
    }
}

/// A decoding result with the endpoints taken as a sequence.
pub open spec fn query_view<A>(r: Result<QueryResult<A>, ProtocolError>) -> Result<
    QueryResultView<A>,
    ProtocolError,
> {
    match r {
        Ok(result) => Ok(result@),
        Err(e) => Err(e),
    }
}

/// A step with the endpoints taken as a sequence.
pub open spec fn step_view<A>(
    r: Result<Option<(Vec<Server>, QueryState<A>)>, ProtocolError>,
) -> Result<Option<(Seq<Server>, QueryState<A>)>, ProtocolError> {
    match r {
        Ok(Some((data, state))) => Ok(Some((data@, state))),
        Ok(None) => Ok(None),
        Err(e) => Err(e),
    }
}

/// Decodes the reply `reply`, come from `master`.
pub fn query<A>(master: A, reply: &[u8]) -> (r: Result<QueryResult<A>, ProtocolError>)
    ensures
        query_view(r) == query_outcome(master, reply@),
{
    match decode_master_response(reply) {
        Err(e) => Err(e),
        Ok(batch) => match batch.next {
            Some(seed) => Ok(QueryResult::Continue { seed, master, data: batch.servers }),
            None => Ok(QueryResult::Finished { data: batch.servers }),
        },
    }
}

/// Takes the crawl one step on: from `state` and the reply to its request,
/// come from `master`, to the endpoints of the page and the next state.
pub fn query_machine<A>(state: QueryState<A>, master: A, reply: &[u8]) -> (r: Result<
    Option<(Vec<Server>, QueryState<A>)>,
    ProtocolError,
>)
    ensures
        step_view(r) == crawl_step(state, master, reply@),
{
    match state {
        QueryState::Done => Ok(None),
        _ => match query(master, reply) {
            Err(e) => Err(e),
            Ok(QueryResult::Continue { seed, master, data }) => Ok(
                Some((data, QueryState::Loop { seed, master })),
            ),
            Ok(QueryResult::Finished { data }) => Ok(Some((data, QueryState::Done))),
        },
    }
}

/// The step that a crawl in `state` takes on an exchange that may have
/// failed on the way: a crawl that is done takes none, a failed exchange
/// ends the crawl with that failure, and a reply is judged by `crawl_step`.
pub open spec fn crawl_exchange<A>(
    state: QueryState<A>,
    exchange: Result<(A, Seq<u8>), TransportError>,
) -> Result<Option<(Seq<Server>, QueryState<A>)>, DiscoveryError> {
    if state is Done {
        Ok(None)
    } else {
        match exchange {
            Err(e) => Err(DiscoveryError::Transport(e)),
            Ok((from, bytes)) => match crawl_step(state, from, bytes) {
                Err(e) => Err(DiscoveryError::Protocol(e)),
                Ok(step) => Ok(step),
            },
        }
    }
}

/// An exchange with the reply taken as a sequence of bytes.
pub open spec fn exchange_view<A>(exchange: Result<(A, &[u8]), TransportError>) -> Result<
    (A, Seq<u8>),
    TransportError,
> {
    match exchange {
        Ok((from, reply)) => Ok((from, reply@)),
        Err(e) => Err(e),
    }
}

/// A step with the endpoints taken as a sequence.
pub open spec fn exchange_step_view<A>(
    r: Result<Option<(Vec<Server>, QueryState<A>)>, DiscoveryError>,
) -> Result<Option<(Seq<Server>, QueryState<A>)>, DiscoveryError> {
    match r {
        Ok(Some((data, state))) => Ok(Some((data@, state))),
        Ok(None) => Ok(None),
        Err(e) => Err(e),
    }
}

/// Takes the crawl one step on, from `state` and the exchange that its
/// request led to: the reply with the address it came from, or the failure.
pub fn step<A>(state: QueryState<A>, exchange: Result<(A, &[u8]), TransportError>) -> (r: Result<
    Option<(Vec<Server>, QueryState<A>)>,
    DiscoveryError,
>)
    ensures
        exchange_step_view(r) == crawl_exchange(state, exchange_view(exchange)),
{
    if state.is_done() {
        return Ok(None);
    }
    match exchange {
        Err(e) => Err(DiscoveryError::Transport(e)),
        Ok((from, reply)) => match query_machine(state, from, reply) {
            Err(e) => Err(DiscoveryError::Protocol(e)),
            Ok(next) => Ok(next),
        },
    }
}

/// A crawl only moves forward: a step never leads back to an earlier state
/// nor to the first one, the state after a page that names a next seed asks
/// for exactly that seed at the address the page came from, and a crawl that
/// is done gives no further page.
pub proof fn lemma_crawl_moves_forward<A>(state: QueryState<A>, from: A, bytes: Seq<u8>)
    ensures
        state is Done ==> crawl_step(state, from, bytes) == Ok::<
            Option<(Seq<Server>, QueryState<A>)>,
            ProtocolError,
        >(None),
        match crawl_step(state, from, bytes) {
            Ok(Some((data, next))) => {
                &&& !(state is Done)
                &&& next.rank() >= 1
                &&& next.rank() >= state.rank()
                &&& master_response(bytes) is Ok
                &&& data == master_response(bytes)->Ok_0.servers
                &&& next.spec_seed() == master_response(bytes)->Ok_0.next
                &&& next is Loop ==> next->master == from
            },
            Ok(None) => state is Done,
            Err(e) => !(state is Done) && master_response(bytes) == Err::<BatchView, ProtocolError>(e),
        },
{
}

} // verus!
