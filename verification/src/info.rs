//! The wire format of the per-server info exchange: the fixed query and the
//! decoding of a reply into a `ServerInfo`.

use crate::bytes::{
    byte_tag, cstr_end, has_prefix, lemma_cstr_end, lemma_cstr_end_at, starts_with, take_byte,
    take_cstr, take_short,
};
use crate::error::ProtocolError;
use vstd::prelude::*;
use vstd::slice::{slice_subrange, slice_to_vec};
use vstd::utf8::{decode_first_scalar, decode_utf8, pop_first_scalar, valid_first_scalar, valid_utf8};

verus! {

/// The five bytes that every info reply begins with.
pub open spec fn info_header() -> Seq<u8> {
    seq![0xFFu8, 0xFFu8, 0xFFu8, 0xFFu8, 0x49u8]
}

/// The info query: `FF FF FF FF 54`, the ASCII text `Source Engine Query`,
/// a zero byte.
pub open spec fn info_query() -> Seq<u8> {
    seq![
        0xFFu8, 0xFFu8, 0xFFu8, 0xFFu8, 0x54u8,
        83u8, 111u8, 117u8, 114u8, 99u8, 101u8, 32u8,
        69u8, 110u8, 103u8, 105u8, 110u8, 101u8, 32u8,
        81u8, 117u8, 101u8, 114u8, 121u8, 0u8,
    ]
}

/// The text that `String::from_utf8_lossy` makes of `bytes`.
pub uninterp spec fn lossy_text(bytes: Seq<u8>) -> Seq<char>;

/// The text that bytes are read as: of valid UTF-8 the characters it
/// encodes, of anything else the lenient reading, in which each invalid
/// sequence gives way to U+FFFD.
pub open spec fn text_of(bytes: Seq<u8>) -> Seq<char> {
    if valid_utf8(bytes) {
        decode_utf8(bytes)
    } else {
        lossy_text(bytes)
    }
}

/// The characters of ASCII bytes, one for each byte.
pub open spec fn ascii_text(bytes: Seq<u8>) -> Seq<char> {
    Seq::new(bytes.len(), |i: int| bytes[i] as char)
}

/// True when every byte of `bytes` is below 128.
pub open spec fn is_ascii(bytes: Seq<u8>) -> bool {
    forall|i: int| 0 <= i < bytes.len() ==> #[trigger] bytes[i] <= 0x7f
}

/// ASCII bytes are read as the characters they are.
pub proof fn lemma_ascii_text(bytes: Seq<u8>)
    requires
        is_ascii(bytes),
    ensures
        valid_utf8(bytes),
        text_of(bytes) == ascii_text(bytes),
    decreases bytes.len(),
{
    if bytes.len() == 0 {
        assert(decode_utf8(bytes) =~= ascii_text(bytes));
    } else {
        let first: u8 = bytes[0];
        let rest = bytes.subrange(1, bytes.len() as int);
        assert(first <= 0x7f);
        assert((first & 0x7f) == first) by (bit_vector)
            requires
                first <= 0x7f,
        ;
        assert(decode_first_scalar(bytes) == first as u32);
        assert(valid_first_scalar(bytes));
        assert(pop_first_scalar(bytes) == rest);
        assert(is_ascii(rest)) by {
            assert forall|i: int| 0 <= i < rest.len() implies #[trigger] rest[i] <= 0x7f by {
                assert(rest[i] == bytes[i + 1]);
            }
        }
        lemma_ascii_text(rest);
        assert(valid_utf8(bytes));
        assert(decode_utf8(bytes) =~= seq![first as u32 as char] + decode_utf8(rest));
        assert(decode_utf8(bytes) =~= ascii_text(bytes));
    }
}

/// Calls `String::from_utf8_lossy`: the bytes as text, each invalid sequence
/// replaced by U+FFFD. Of bytes that are valid UTF-8 the text is the one they
/// encode; of any others the contract only gives the text a name.
#[verifier::external_body]
fn lossy_string(bytes: &[u8]) -> (r: String)
    ensures
        r@ == lossy_text(bytes@),
        valid_utf8(bytes@) ==> r@ == decode_utf8(bytes@),
{
    String::from_utf8_lossy(bytes).into_owned()
}

/// The fields of an info reply as they stand in the datagram, the four texts
/// still as bytes.
#[derive(Clone, Debug, PartialEq, Eq)]
pub struct RawInfo {
    pub name: Vec<u8>,
    pub map: Vec<u8>,
    pub folder: Vec<u8>,
    pub game: Vec<u8>,
    pub app_id: u16,
    pub players: u8,
    pub max_players: u8,
    pub bots: u8,
    pub server_type: u8,
    pub environment: u8,
    pub visibility: u8,
    pub vac: u8,
}

/// What a `RawInfo` holds, as plain values.
pub struct RawInfoView {
    pub name: Seq<u8>,
    pub map: Seq<u8>,
    pub folder: Seq<u8>,
    pub game: Seq<u8>,
    pub app_id: u16,
    pub players: u8,
    pub max_players: u8,
    pub bots: u8,
    pub server_type: u8,
    pub environment: u8,
    pub visibility: u8,
    pub vac: u8,
}

impl View for RawInfo {
    type V = RawInfoView;

    open spec fn view(&self) -> RawInfoView {
        RawInfoView {
            name: self.name@,
            map: self.map@,
            folder: self.folder@,
            game: self.game@,
            app_id: self.app_id,
            players: self.players,
            max_players: self.max_players,
            bots: self.bots,
            server_type: self.server_type,
            environment: self.environment,
            visibility: self.visibility,
            vac: self.vac,
        }
    }
}

/// What one server says of itself.
#[derive(Clone, Debug, PartialEq, Eq)]
pub struct ServerInfo {
    pub name: String,
    pub map: String,
    pub folder: String,
    pub game: String,
    pub app_id: u16,
    pub players: u8,
    pub max_players: u8,
    pub bots: u8,
    pub server_type: u8,
    pub environment: u8,
    pub visibility: u8,
    pub vac: u8,
}

/// What a `ServerInfo` holds, as plain values.
pub struct ServerInfoView {
    pub name: Seq<char>,
    pub map: Seq<char>,
    pub folder: Seq<char>,
    pub game: Seq<char>,
    pub app_id: u16,
    pub players: u8,
    pub max_players: u8,
    pub bots: u8,
    pub server_type: u8,
    pub environment: u8,
    pub visibility: u8,
    pub vac: u8,
}

impl View for ServerInfo {
    type V = ServerInfoView;

    open spec fn view(&self) -> ServerInfoView {
        ServerInfoView {
            name: self.name@,
            map: self.map@,
            folder: self.folder@,
            game: self.game@,
            app_id: self.app_id,
            players: self.players,
            max_players: self.max_players,
            bots: self.bots,
            server_type: self.server_type,
            environment: self.environment,
            visibility: self.visibility,
            vac: self.vac,
        }
    }
}

/// The fields of an info reply.
///
/// Behind the five header bytes stand one version byte, four texts that each
/// end at the next zero byte, the app id in two bytes with the high byte
/// first, and seven single bytes. A reply without the header is refused as
/// `InvalidHeader`; one that ends before the last of these bytes, a text
/// without its zero byte included, is a `MalformedRecord`. Bytes behind the
/// last field are not read.
pub open spec fn info_fields(b: Seq<u8>) -> Result<RawInfoView, ProtocolError> {
    let name_end = cstr_end(b, 6);
    let map_end = cstr_end(b, name_end + 1);
    let folder_end = cstr_end(b, map_end + 1);
    let game_end = cstr_end(b, folder_end + 1);
    if !starts_with(b, info_header()) {
        Err(ProtocolError::InvalidHeader)
    } else if game_end + 10 > b.len() {
        Err(ProtocolError::MalformedRecord)
    } else {
        Ok(
            RawInfoView {
                name: b.subrange(6, name_end),
                map: b.subrange(name_end + 1, map_end),
                folder: b.subrange(map_end + 1, folder_end),
                game: b.subrange(folder_end + 1, game_end),
                app_id: (b[game_end + 1] as int * 256 + b[game_end + 2] as int) as u16,
                players: b[game_end + 3],
                max_players: b[game_end + 4],
                bots: b[game_end + 5],
                server_type: b[game_end + 6],
                environment: b[game_end + 7],
                visibility: b[game_end + 8],
                vac: b[game_end + 9],
            },
        )
    }
}

/// The record that raw fields become: each text read as `text_of` says, the
/// numbers as they are.
pub open spec fn info_of(raw: RawInfoView) -> ServerInfoView {
    ServerInfoView {
        name: text_of(raw.name),
        map: text_of(raw.map),
        folder: text_of(raw.folder),
        game: text_of(raw.game),
        app_id: raw.app_id,
        players: raw.players,
        max_players: raw.max_players,
        bots: raw.bots,
        server_type: raw.server_type,
        environment: raw.environment,
        visibility: raw.visibility,
        vac: raw.vac,
    }
}

/// What an info reply decodes to.
pub open spec fn info_response(b: Seq<u8>) -> Result<ServerInfoView, ProtocolError> {
    match info_fields(b) {
        Ok(raw) => Ok(info_of(raw)),
        Err(e) => Err(e),
    }
}

/// A parsing result with the fields taken by their view.
pub open spec fn raw_result(r: Result<RawInfo, ProtocolError>) -> Result<
    RawInfoView,
    ProtocolError,
> {
    match r {
        Ok(raw) => Ok(raw@),
        Err(e) => Err(e),
    }
}

/// A decoding result with the record taken by its view.
pub open spec fn info_result(r: Result<ServerInfo, ProtocolError>) -> Result<
    ServerInfoView,
    ProtocolError,
> {
    match r {
        Ok(info) => Ok(info@),
        Err(e) => Err(e),
    }
}

/// True when no byte of `s` is zero.
pub open spec fn no_zero(s: Seq<u8>) -> bool {
    forall|i: int| 0 <= i < s.len() ==> #[trigger] s[i] != 0
}

/// The nine bytes of the numbers of `raw`: the app id with its high byte
/// first, then the seven single bytes.
pub open spec fn info_numbers(raw: RawInfoView) -> Seq<u8> {
    seq![
        (raw.app_id / 256) as u8,
        (raw.app_id % 256) as u8,
        raw.players,
        raw.max_players,
        raw.bots,
        raw.server_type,
        raw.environment,
        raw.visibility,
        raw.vac,
    ]
}

/// The reply that carries the fields `raw` under the version byte `version`.
pub open spec fn info_reply(version: u8, raw: RawInfoView) -> Seq<u8> {
    info_header() + seq![version] + raw.name + seq![0u8] + raw.map + seq![0u8] + raw.folder
        + seq![0u8] + raw.game + seq![0u8] + info_numbers(raw)
}

/// A reply made of fields whose texts hold no zero byte decodes to those
/// fields, whatever the version byte and whatever follows the last field.
pub proof fn lemma_info_round_trip(version: u8, raw: RawInfoView, rest: Seq<u8>)
    requires
        no_zero(raw.name),
        no_zero(raw.map),
        no_zero(raw.folder),
        no_zero(raw.game),
    ensures
        info_fields(info_reply(version, raw) + rest) == Ok::<RawInfoView, ProtocolError>(raw),
        info_response(info_reply(version, raw) + rest) == Ok::<ServerInfoView, ProtocolError>(
            info_of(raw),
        ),
{
    let b = info_reply(version, raw) + rest;
    let e1: int = 6 + raw.name.len() as int;
    let e2: int = e1 + 1 + raw.map.len() as int;
    let e3: int = e2 + 1 + raw.folder.len() as int;
    let e4: int = e3 + 1 + raw.game.len() as int;
    assert(b.len() == e4 + 10 + rest.len());
    assert(b.subrange(0, 5) =~= info_header());
    assert(b[e1] == 0 && b[e2] == 0 && b[e3] == 0 && b[e4] == 0);
    assert forall|j: int| 6 <= j < e1 implies b[j] != 0 by {
        assert(b[j] == raw.name[j - 6]);
    }
    assert forall|j: int| e1 + 1 <= j < e2 implies b[j] != 0 by {
        assert(b[j] == raw.map[j - e1 - 1]);
    }
    assert forall|j: int| e2 + 1 <= j < e3 implies b[j] != 0 by {
        assert(b[j] == raw.folder[j - e2 - 1]);
    }
    assert forall|j: int| e3 + 1 <= j < e4 implies b[j] != 0 by {
        assert(b[j] == raw.game[j - e3 - 1]);
    }
    lemma_cstr_end_at(b, 6, e1);
    lemma_cstr_end_at(b, e1 + 1, e2);
    lemma_cstr_end_at(b, e2 + 1, e3);
    lemma_cstr_end_at(b, e3 + 1, e4);
    assert(b.subrange(6, e1) =~= raw.name);
    assert(b.subrange(e1 + 1, e2) =~= raw.map);
    assert(b.subrange(e2 + 1, e3) =~= raw.folder);
    assert(b.subrange(e3 + 1, e4) =~= raw.game);
    assert(b[e4 + 1] == (raw.app_id / 256) as u8);
    assert(b[e4 + 2] == (raw.app_id % 256) as u8);
    assert(b[e4 + 3] == raw.players);
    assert(b[e4 + 4] == raw.max_players);
    assert(b[e4 + 5] == raw.bots);
    assert(b[e4 + 6] == raw.server_type);
    assert(b[e4 + 7] == raw.environment);
    assert(b[e4 + 8] == raw.visibility);
    assert(b[e4 + 9] == raw.vac);
}

/// Whether one of the four texts of `b` begins at `start`.
pub open spec fn is_text_start(b: Seq<u8>, start: int) -> bool {
    let name_end = cstr_end(b, 6);
    let map_end = cstr_end(b, name_end + 1);
    let folder_end = cstr_end(b, map_end + 1);
    start == 6 || start == name_end + 1 || start == map_end + 1 || start == folder_end + 1
}

/// A reply with the header in which one of the four texts has no zero byte
/// behind it is refused as `MalformedRecord`.
pub proof fn lemma_unterminated_text_is_malformed(b: Seq<u8>, start: int)
    requires
        starts_with(b, info_header()),
        is_text_start(b, start),
        forall|j: int| 0 <= j && start <= j < b.len() ==> b[j] != 0,
    ensures
        info_response(b) == Err::<ServerInfoView, ProtocolError>(ProtocolError::MalformedRecord),
{
    let name_end = cstr_end(b, 6);
    let map_end = cstr_end(b, name_end + 1);
    let folder_end = cstr_end(b, map_end + 1);
    if b.len() >= 6 {
        lemma_cstr_end(b, 6);
    }
    if name_end < b.len() {
        lemma_cstr_end(b, name_end + 1);
        if map_end < b.len() {
            lemma_cstr_end(b, map_end + 1);
            if folder_end < b.len() {
                lemma_cstr_end(b, folder_end + 1);
            }
        }
    }
}

/// The query that asks a server for its info.
pub fn encode_info_query() -> (r: Vec<u8>)
    ensures
        r@ == info_query(),
{
    let query: [u8; 25] = [
        0xFF, 0xFF, 0xFF, 0xFF, 0x54,
        83, 111, 117, 114, 99, 101, 32,
        69, 110, 103, 105, 110, 101, 32,
        81, 117, 101, 114, 121, 0,
    ];
    let out: Vec<u8> = slice_to_vec(query.as_slice());
    assert(out@ =~= info_query());
    out
}

impl ServerInfo {
    /// The record with the four given texts and the numbers of `raw`.
    pub fn with_texts(
        raw: &RawInfo,
        name: String,
        map: String,
        folder: String,
        game: String,
    ) -> (r: ServerInfo)
        ensures
            r@ == (ServerInfoView {
                name: name@,
                map: map@,
                folder: folder@,
                game: game@,
                app_id: raw.app_id,
                players: raw.players,
                max_players: raw.max_players,
                bots: raw.bots,
                server_type: raw.server_type,
                environment: raw.environment,
                visibility: raw.visibility,
                vac: raw.vac,
            }),
    {
        ServerInfo {
            name,
            map,
            folder,
            game,
            app_id: raw.app_id,
            players: raw.players,
            max_players: raw.max_players,
            bots: raw.bots,
            server_type: raw.server_type,
            environment: raw.environment,
            visibility: raw.visibility,
            vac: raw.vac,
        }
    }

    /// The record that `raw` becomes: its four texts read as `text_of` says,
    /// its numbers as they are.
    pub fn from_raw(raw: &RawInfo) -> (r: ServerInfo)
        ensures
            r@ == info_of(raw@),
    {
        let name: String = lossy_string(raw.name.as_slice());
        let map: String = lossy_string(raw.map.as_slice());
        let folder: String = lossy_string(raw.folder.as_slice());
        let game: String = lossy_string(raw.game.as_slice());
        ServerInfo::with_texts(raw, name, map, folder, game)
    }
}

/// Splits an info reply into its fields.
pub fn parse_fields(buf: &[u8]) -> (r: Result<RawInfo, ProtocolError>)
    ensures
        raw_result(r) == info_fields(buf@),
{
    let total: usize = buf.len();
    let marker: [u8; 4] = [0xFF, 0xFF, 0xFF, 0xFF];
    let marked: bool = has_prefix(buf, marker.as_slice());
    let tagged: bool = byte_tag(buf, 4, 0x49);
    proof {
        if marked && tagged {
            assert(buf@.subrange(0, 5) =~= info_header());
        } else if buf@.len() >= 5 {
            let head = buf@.subrange(0, 5);
            assert(head == info_header() ==> buf@.subrange(0, 4) =~= marker@ && head[4] == 0x49);
        }
    }
    if !marked || !tagged {
        return Err(ProtocolError::InvalidHeader);
    }
    if take_byte(buf, 5).is_none() {
        return Err(ProtocolError::MalformedRecord);
    }
    let name_end: usize = match take_cstr(buf, 6) {
        Some(end) => end,
        None => { return Err(ProtocolError::MalformedRecord); },
    };
    let map_end: usize = match take_cstr(buf, name_end + 1) {
        Some(end) => end,
        None => { return Err(ProtocolError::MalformedRecord); },
    };
    let folder_end: usize = match take_cstr(buf, map_end + 1) {
        Some(end) => end,
        None => { return Err(ProtocolError::MalformedRecord); },
    };
    let game_end: usize = match take_cstr(buf, folder_end + 1) {
        Some(end) => end,
        None => { return Err(ProtocolError::MalformedRecord); },
    };
    proof {
        lemma_cstr_end(buf@, 6);
        lemma_cstr_end(buf@, name_end + 1);
        lemma_cstr_end(buf@, map_end + 1);
        lemma_cstr_end(buf@, folder_end + 1);
    }
    let app_id: u16 = match take_short(buf, game_end + 1) {
        Some(value) => value,
        None => { return Err(ProtocolError::MalformedRecord); },
    };
    if total - game_end < 10 {
        return Err(ProtocolError::MalformedRecord);
    }
    Ok(
        RawInfo {
            name: slice_to_vec(slice_subrange(buf, 6, name_end)),
            map: slice_to_vec(slice_subrange(buf, name_end + 1, map_end)),
            folder: slice_to_vec(slice_subrange(buf, map_end + 1, folder_end)),
            game: slice_to_vec(slice_subrange(buf, folder_end + 1, game_end)),
            app_id,
            players: buf[game_end + 3],
            max_players: buf[game_end + 4],
            bots: buf[game_end + 5],
            server_type: buf[game_end + 6],
            environment: buf[game_end + 7],
            visibility: buf[game_end + 8],
            vac: buf[game_end + 9],
        },
    )
}

/// Decodes an info reply.
pub fn decode_info_response(buf: &[u8]) -> (r: Result<ServerInfo, ProtocolError>)
    ensures
        info_result(r) == info_response(buf@),
{
    match parse_fields(buf) {
        Ok(raw) => Ok(ServerInfo::from_raw(&raw)),
        Err(e) => Err(e),
    }
}

} // verus!
