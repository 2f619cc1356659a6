//! One probe of one server: what its single exchange amounts to.

use crate::error::{DiscoveryError, TransportError};
use crate::info::{decode_info_response, encode_info_query, info_query, info_response};
use crate::info::{ServerInfo, ServerInfoView};
use vstd::prelude::*;

verus! {

/// How the probe of one endpoint ended.
#[derive(Clone, Debug, PartialEq, Eq)]
pub enum ProbeOutcome {
    /// The server answered with a reply that decodes.
    Success(ServerInfo),
    /// No reply came, or one that does not decode.
    Failed(DiscoveryError),
}

/// A `ProbeOutcome` with the record taken by its view.
pub enum ProbeOutcomeView {
    Success(ServerInfoView),
    Failed(DiscoveryError),
}

impl View for ProbeOutcome {
    type V = ProbeOutcomeView;

    open spec fn view(&self) -> ProbeOutcomeView {
        match *self {
            ProbeOutcome::Success(info) => ProbeOutcomeView::Success(info@),
            ProbeOutcome::Failed(reason) => ProbeOutcomeView::Failed(reason),
        }
    }
}

/// What the exchange of a probe amounts to: a failure on the way fails the
/// probe with that failure, a reply that does not decode fails it with the
/// decoding error, and a reply that decodes is the probe's success.
pub open spec fn probe_outcome(exchange: Result<Seq<u8>, TransportError>) -> ProbeOutcomeView {
    match exchange {
        Err(e) => ProbeOutcomeView::Failed(DiscoveryError::Transport(e)),
        Ok(bytes) => match info_response(bytes) {
            Err(e) => ProbeOutcomeView::Failed(DiscoveryError::Protocol(e)),
            Ok(info) => ProbeOutcomeView::Success(info),
        },
    }
}

/// An exchange with the reply taken as a sequence of bytes.
pub open spec fn exchange_view(exchange: Result<&[u8], TransportError>) -> Result<
    Seq<u8>,
    TransportError,
> {
    match exchange {
        Ok(reply) => Ok(reply@),
        Err(e) => Err(e),
    }
}

/// The datagram that a probe sends.
pub fn probe_request() -> (r: Vec<u8>)
    ensures
        r@ == info_query(),
{
    encode_info_query()
}

/// Judges the one exchange of a probe.
pub fn probe(exchange: Result<&[u8], TransportError>) -> (r: ProbeOutcome)
    ensures
        r@ == probe_outcome(exchange_view(exchange)),
{
    match exchange {
        Err(e) => ProbeOutcome::Failed(DiscoveryError::Transport(e)),
        Ok(reply) => match decode_info_response(reply) {
            Err(e) => ProbeOutcome::Failed(DiscoveryError::Protocol(e)),
            Ok(info) => ProbeOutcome::Success(info),
        },
    }
}

} // verus!
