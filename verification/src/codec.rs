//! The wire format of the master directory: the page query and the decoding
//! of one page of six-byte endpoint records.

use crate::bytes::{cstr_end, has_prefix, lemma_cstr_end_at, starts_with};
use crate::error::ProtocolError;
use crate::endpoint::{bytes_to_addr, lemma_record_round_trip, lemma_text_has_no_zero, Server};
use vstd::prelude::*;
use vstd::slice::slice_subrange;

verus! {

/// The six bytes that every directory page begins with.
pub open spec fn master_header() -> Seq<u8> {
    seq![0xFFu8, 0xFFu8, 0xFFu8, 0xFFu8, 0x66u8, 0x0Au8]
}

/// The filter `\appid\629760` in ASCII.
pub open spec fn app_filter() -> Seq<u8> {
    seq![92u8, 97u8, 112u8, 112u8, 105u8, 100u8, 92u8, 54u8, 50u8, 57u8, 55u8, 54u8, 48u8]
}

/// The query for the page that follows `seed`: `31 FF`, the seed as text,
/// a zero byte, the filter, a zero byte.
pub open spec fn master_query(seed: Server) -> Seq<u8> {
    seq![0x31u8, 0xFFu8] + seed.text() + seq![0u8] + app_filter() + seq![0u8]
}

/// The endpoints that `body` holds as consecutive six-byte records. Bytes
/// behind the last whole record are not read.
pub open spec fn records(body: Seq<u8>) -> Seq<Server> {
    Seq::new(
        (body.len() / 6) as nat,
        |i: int| Server::of_record(body.subrange(6 * i, 6 * i + 6)),
    )
}

/// One decoded page of the directory.
#[derive(Clone, Debug, PartialEq, Eq)]
pub struct Batch {
    /// The endpoints that the page lists, in the page's order.
    pub servers: Vec<Server>,
    /// The seed of the next page; `None` when this page ends the list.
    pub next: Option<Server>,
}

/// What a `Batch` holds, as plain values.
pub struct BatchView {
    pub servers: Seq<Server>,
    pub next: Option<Server>,
}

impl View for Batch {
    type V = BatchView;

    open spec fn view(&self) -> BatchView {
        BatchView { servers: self.servers@, next: self.next }
    }
}

impl Batch {
    /// Whether this page ends the list.
    pub fn is_terminal(&self) -> (r: bool)
        ensures
            r == (self@.next is None),
    {
        self.next.is_none()
    }
}

/// What a directory page decodes to.
///
/// A page without the header is refused as `InvalidHeader`. Behind the header
/// stand one or more whole records, else the page is a `MalformedRecord`: a
/// page without any record has no last record, which is what either ends the
/// list or seeds the next page. A last record of all zeros ends the list and
/// is not itself an endpoint; any other last record is an endpoint and the
/// next seed.
pub open spec fn master_response(bytes: Seq<u8>) -> Result<BatchView, ProtocolError> {
    if !starts_with(bytes, master_header()) {
        Err(ProtocolError::InvalidHeader)
    } else if bytes.len() == 6 || (bytes.len() - 6) % 6 != 0 {
        Err(ProtocolError::MalformedRecord)
    } else {
        let all = records(bytes.skip(6));
        if all.last() == Server::spec_zero() {
            Ok(BatchView { servers: all.drop_last(), next: None })
        } else {
            Ok(BatchView { servers: all, next: Some(all.last()) })
        }
    }
}

/// A decoding result with the batch taken by its view.
pub open spec fn batch_result(r: Result<Batch, ProtocolError>) -> Result<BatchView, ProtocolError> {
    match r {
        Ok(batch) => Ok(batch@),
        Err(e) => Err(e),
    }
}

/// The bytes of a page's records: those of each endpoint of `list`, in order.
pub open spec fn page_body(list: Seq<Server>) -> Seq<u8>
    decreases list.len(),
{
    if list.len() == 0 {
        Seq::<u8>::empty()
    } else {
        page_body(list.drop_last()) + list.last().record()
    }
}

/// A page body holds six bytes for each endpoint and reads back as the list
/// it was made of.
pub proof fn lemma_page_body(list: Seq<Server>)
    ensures
        page_body(list).len() == 6 * list.len(),
        records(page_body(list)) == list,
    decreases list.len(),
{
    if list.len() > 0 {
        let front = list.drop_last();
        let body = page_body(list);
        lemma_page_body(front);
        lemma_record_round_trip(list.last());
        assert(records(body).len() == list.len());
        assert forall|i: int| 0 <= i < list.len() implies records(body)[i] == list[i] by {
            if i < front.len() {
                assert(body.subrange(6 * i, 6 * i + 6) =~= page_body(front).subrange(
                    6 * i,
                    6 * i + 6,
                ));
                assert(records(page_body(front))[i] == front[i]);
            } else {
                assert(body.subrange(6 * i, 6 * i + 6) =~= list.last().record());
            }
        }
        assert(records(body) =~= list);
    } else {
        assert(records(page_body(list)) =~= list);
    }
}

/// A page whose last record is not all zeros decodes to every one of its
/// endpoints, in order, and names the last of them as the next seed.
pub proof fn lemma_open_page(list: Seq<Server>)
    requires
        list.len() > 0,
        list.last() != Server::spec_zero(),
    ensures
        master_response(master_header() + page_body(list)) == Ok::<BatchView, ProtocolError>(
            BatchView { servers: list, next: Some(list.last()) },
        ),
{
    let bytes = master_header() + page_body(list);
    lemma_page_body(list);
    assert(bytes.subrange(0, 6) =~= master_header());
    assert(bytes.skip(6) =~= page_body(list));
}

/// A page whose last record is all zeros ends the list, and decodes to the
/// endpoints before that record.
pub proof fn lemma_closing_page(list: Seq<Server>)
    ensures
        master_response(master_header() + page_body(list.push(Server::spec_zero()))) == Ok::<
            BatchView,
            ProtocolError,
        >(BatchView { servers: list, next: None }),
{
    let whole = list.push(Server::spec_zero());
    let bytes = master_header() + page_body(whole);
    lemma_page_body(whole);
    assert(bytes.subrange(0, 6) =~= master_header());
    assert(bytes.skip(6) =~= page_body(whole));
    assert(whole.drop_last() =~= list);
}

/// A datagram of fewer than six bytes, or whose first six bytes are not the
/// header, is refused as `InvalidHeader`.
pub proof fn lemma_header_is_required(bytes: Seq<u8>)
    requires
        bytes.len() < 6 || bytes.subrange(0, 6) != master_header(),
    ensures
        master_response(bytes) == Err::<BatchView, ProtocolError>(ProtocolError::InvalidHeader),
{
}

/// A page with the header whose remaining length is no multiple of six is
/// refused as `MalformedRecord`.
pub proof fn lemma_partial_record_is_malformed(bytes: Seq<u8>)
    requires
        starts_with(bytes, master_header()),
        (bytes.len() - 6) % 6 != 0,
    ensures
        master_response(bytes) == Err::<BatchView, ProtocolError>(ProtocolError::MalformedRecord),
{
}

/// In a query the seed's text stands behind the first two bytes and runs up
/// to the first zero byte behind them.
pub proof fn lemma_query_embeds_text(seed: Server)
    ensures
        cstr_end(master_query(seed), 2) == 2 + seed.text().len(),
        master_query(seed).subrange(2, cstr_end(master_query(seed), 2)) == seed.text(),
{
    let query = master_query(seed);
    let end: int = 2 + seed.text().len() as int;
    lemma_text_has_no_zero(seed);
    assert(query[end] == 0);
    assert forall|j: int| 2 <= j < end implies query[j] != 0 by {
        assert(query[j] == seed.text()[j - 2]);
    }
    lemma_cstr_end_at(query, 2, end);
    assert(query.subrange(2, end) =~= seed.text());
}

/// The query that asks the directory for the page after `seed`.
pub fn encode_master_query(seed: &Server) -> (r: Vec<u8>)
    ensures
        r@ == master_query(*seed),
{
    let filter: [u8; 13] = [92, 97, 112, 112, 105, 100, 92, 54, 50, 57, 55, 54, 48];
    let mut out: Vec<u8> = Vec::new();
    out.push(0x31);
    out.push(0xFF);
    seed.write_text(&mut out);
    out.push(0);
    out.extend_from_slice(filter.as_slice());
    out.push(0);
    assert(filter@ =~= app_filter());
    assert(out@ =~= master_query(*seed));
    out
}

/// Decodes one page of the directory.
pub fn decode_master_response(buf: &[u8]) -> (r: Result<Batch, ProtocolError>)
    ensures
        batch_result(r) == master_response(buf@),
{
    let header: [u8; 6] = [0xFF, 0xFF, 0xFF, 0xFF, 0x66, 0x0A];
    assert(header@ =~= master_header());
    if !has_prefix(buf, header.as_slice()) {
        return Err(ProtocolError::InvalidHeader);
    }
    let body_len: usize = buf.len() - 6;
    if body_len == 0 || body_len % 6 != 0 {
        return Err(ProtocolError::MalformedRecord);
    }
    let count: usize = body_len / 6;
    let ghost body = buf@.skip(6);
    let mut servers: Vec<Server> = Vec::new();
    let mut i: usize = 0;
    while i < count
        invariant
            i <= count,
            count * 6 == body_len,
            body_len + 6 == buf@.len(),
            buf@.len() <= usize::MAX,
            body == buf@.skip(6),
            servers@.len() == i,
            forall|j: int| 0 <= j < i ==> servers@[j] == records(body)[j],
        decreases count - i,
    {
        let start: usize = 6 + 6 * i;
        let record = slice_subrange(buf, start, start + 6);
        assert(record@ =~= body.subrange(6 * i, 6 * i + 6));
        servers.push(bytes_to_addr(record));
        i += 1;
    }
    assert(servers@ =~= records(body));
    let last: Server = servers[count - 1];
    if last.is_zero() {
        servers.pop();
        Ok(Batch { servers, next: None })
    } else {
        Ok(Batch { servers, next: Some(last) })
    }
}

} // verus!
