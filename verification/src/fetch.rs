//! The decision at the heart of one request: what to reply, given what the
//! upstream read came back with.

use vstd::prelude::*;

use crate::grid::{cell_count, cell_multiset, flatten, row_major, rows};
use crate::shuffle::{is_permutation, shuffle};

verus! {

/// Status of a reply that carries the shuffled cells.
pub const STATUS_OK: u16 = 200;

/// Status of a reply to a request whose upstream read failed.
pub const STATUS_BAD_GATEWAY: u16 = 502;

/// What one read of the configured range came back with.
#[derive(Debug, PartialEq, Eq)]
pub enum Upstream<T> {
    /// The read failed: network, authentication, range or provider error.
    Failed,
    /// The read succeeded. The grid is absent when the range holds no value.
    Values(Option<Vec<Vec<T>>>),
}

/// What is sent back for one request.
#[derive(Debug, PartialEq, Eq)]
pub enum Reply<T> {
    /// The cells of the range in a random order, to be sent as one array.
    Cells(Vec<T>),
    /// The upstream read failed; nothing of the range can be sent.
    UpstreamFailed,
}

/// The rows that a successful read delivered. An absent grid has no rows.
pub open spec fn delivered<T>(values: Option<Vec<Vec<T>>>) -> Seq<Seq<T>> {
    match values {
        Some(grid) => rows(grid@),
        None => Seq::empty(),
    }
}

impl<T> Reply<T> {
    /// The HTTP status that goes with this reply.
    pub open spec fn spec_status(&self) -> u16 {
        match self {
            Reply::Cells(_) => STATUS_OK,
            Reply::UpstreamFailed => STATUS_BAD_GATEWAY,
        }
    }

    /// The HTTP status that goes with this reply: success for a reply with
    /// cells, a server error for a failed upstream read.
    #[verifier::when_used_as_spec(spec_status)]
    pub fn status(&self) -> (code: u16)
        ensures
            code == self.spec_status(),
            self is Cells ==> code == 200,
            self is UpstreamFailed ==> 500 <= code <= 599,
    {
        match self {
            Reply::Cells(_) => STATUS_OK,
            Reply::UpstreamFailed => STATUS_BAD_GATEWAY,
        }
    }
}

/// Decides the reply to one request from the outcome of its upstream read.
///
/// A failed read gives `UpstreamFailed`, with a server-error status, and
/// nothing else does. A successful read gives the delivered cells, flattened
/// row by row and then shuffled: whatever order is drawn, the reply holds
/// exactly the cells of the grid, each as often as the grid holds it. An
/// absent or empty grid gives a reply with no cells, which is a success too.
pub fn respond<T>(upstream: Upstream<T>) -> (reply: Reply<T>)
    ensures
        match upstream {
            Upstream::Failed => reply is UpstreamFailed,
            Upstream::Values(values) => {
                &&& reply matches Reply::Cells(cells)
                &&& is_permutation(cells@, row_major(delivered(values)))
                &&& cells@.to_multiset() == cell_multiset(delivered(values))
                &&& cells@.len() == cell_count(delivered(values))
            },
        },
        upstream is Failed ==> 500 <= reply.status() <= 599,
        upstream is Values ==> reply.status() == 200,
{
    match upstream {
        Upstream::Failed => Reply::UpstreamFailed,
        Upstream::Values(values) => {
            let grid = match values {
                Some(grid) => grid,
                None => Vec::new(),
            };
            assert(rows(grid@) =~= delivered(values));
            Reply::Cells(shuffle(flatten(grid)))
        },
    }
}

} // verus!
