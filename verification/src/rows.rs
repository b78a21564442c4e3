//! The rows of the peer table: one per tracked peer, in the registry's order.

use crate::address::IpAddress;
use crate::peer::Peer;
use crate::units::{bytes_text, gen_bytes_str};
use vstd::prelude::*;

verus! {

/// What one line of the table shows of a peer.
#[derive(Debug, PartialEq, Eq)]
pub struct DisplayRow {
    /// The endpoint, as `address:port`.
    pub peer: String,
    /// The name that the resolver gave for the address.
    pub name: String,
    /// The total received.
    pub received: String,
    /// The total sent.
    pub sent: String,
}

/// The four cells of a row as text.
pub struct RowText {
    pub peer: Seq<char>,
    pub name: Seq<char>,
    pub received: Seq<char>,
    pub sent: Seq<char>,
}

impl View for DisplayRow {
    type V = RowText;

    open spec fn view(&self) -> RowText {
        RowText {
            peer: self.peer@,
            name: self.name@,
            received: self.received@,
            sent: self.sent@,
        }
    }
}

impl DisplayRow {
    /// The cells of the row from left to right: endpoint, name, received, sent.
    pub fn into_cells(self) -> (cells: Vec<String>)
        ensures
            cells@ == seq![self.peer, self.name, self.received, self.sent],
    {
        let mut cells: Vec<String> = Vec::new();
        cells.push(self.peer);
        cells.push(self.name);
        cells.push(self.received);
        cells.push(self.sent);
        cells
    }
}

/// The row of a peer whose address resolved to `name`.
pub open spec fn row_of(peer: Peer, name: Seq<char>) -> RowText {
    RowText {
        peer: peer.endpoint(),
        name,
        received: bytes_text(peer.total_received as nat),
        sent: bytes_text(peer.total_sent as nat),
    }
}

/// The rows as text, in order.
pub open spec fn rows_text(rows: Seq<DisplayRow>) -> Seq<RowText> {
    Seq::new(rows.len(), |i: int| rows[i]@)
}

/// Whether `rows` are the rows of `peers` under the given resolver: as many rows as
/// peers, in the same order, each holding a name that the resolver returns for its
/// peer's address.
pub open spec fn are_rows_of<R: Fn(IpAddress) -> String>(
    rows: Seq<DisplayRow>,
    peers: Seq<Peer>,
    resolver: R,
) -> bool {
    &&& rows.len() == peers.len()
    &&& forall|i: int|
        0 <= i < peers.len() ==> {
            &&& call_ensures(resolver, (peers[i].address,), (#[trigger] rows[i]).name)
            &&& rows[i]@ == row_of(peers[i], rows[i].name@)
        }
}

/// Builds the row of one peer from the name that its address resolved to.
pub fn gen_row(peer: &Peer, name: String) -> (row: DisplayRow)
    ensures
        row.name == name,
        row@ == row_of(*peer, name@),
{
    DisplayRow {
        peer: peer.endpoint_text(),
        name,
        received: gen_bytes_str(peer.total_received),
        sent: gen_bytes_str(peer.total_sent),
    }
}

/// Builds the rows of the table: one per peer, in the order given, with the name that
/// the resolver returns for each address.
pub fn gen_rows<R: Fn(IpAddress) -> String>(items: &Vec<Peer>, resolver: &R) -> (rows: Vec<
    DisplayRow,
>)
    requires
        forall|i: int|
            0 <= i < items@.len() ==> call_requires(*resolver, (#[trigger] items@[i].address,)),
    ensures
        rows@.len() == items@.len(),
        are_rows_of(rows@, items@, *resolver),
{
    let mut rows: Vec<DisplayRow> = Vec::new();
    let mut i: usize = 0;
    while i < items.len()
        invariant
            i <= items.len(),
            forall|k: int|
                0 <= k < items@.len() ==> call_requires(*resolver, (#[trigger] items@[k].address,)),
            are_rows_of(rows@, items@.take(i as int), *resolver),
        decreases items.len() - i,
    {
        let name = resolver(items[i].address);
        let row = gen_row(&items[i], name);
        rows.push(row);
        i += 1;
    }
    rows
}

/// Without peers there are no rows, whatever the resolver is.
pub proof fn lemma_no_peers_no_rows<R: Fn(IpAddress) -> String>(rows: Seq<DisplayRow>, resolver: R)
    requires
        are_rows_of(rows, Seq::<Peer>::empty(), resolver),
    ensures
        rows == Seq::<DisplayRow>::empty(),
{
}

/// The rows stand in the order of the peers: the row at each place shows the
/// endpoint and the totals of the peer at that place.
pub proof fn lemma_rows_keep_order<R: Fn(IpAddress) -> String>(
    rows: Seq<DisplayRow>,
    peers: Seq<Peer>,
    resolver: R,
    i: int,
)
    requires
        are_rows_of(rows, peers, resolver),
        0 <= i < peers.len(),
    ensures
        rows.len() == peers.len(),
        rows[i].peer@ == peers[i].endpoint(),
        rows[i].received@ == bytes_text(peers[i].total_received as nat),
        rows[i].sent@ == bytes_text(peers[i].total_sent as nat),
        call_ensures(resolver, (peers[i].address,), rows[i].name),
{
}

} // verus!
