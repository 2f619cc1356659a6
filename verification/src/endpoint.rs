//! Server endpoints: an IPv4 address with a port, read from six wire bytes
//! and rendered as the ASCII text `a.b.c.d:port`.

use vstd::prelude::*;

verus! {

/// ASCII full stop, between the octets of an address.
pub const DOT: u8 = 46;

/// ASCII colon, between address and port.
pub const COLON: u8 = 58;

/// ASCII zero, the first of the ten digits.
pub const DIGIT_ZERO: u8 = 48;

/// The endpoint of one game server: four address octets and a port.
#[derive(Clone, Copy, Debug, PartialEq, Eq, Structural)]
pub struct Server {
    pub a: u8,
    pub b: u8,
    pub c: u8,
    pub d: u8,
    pub port: u16,
}

/// The decimal digits of `n` as ASCII bytes, most significant first, without
/// leading zeros; `0` is the single digit `0`.
pub open spec fn decimal(n: nat) -> Seq<u8>
    decreases n,
{
    if n < 10 {
        seq![(48 + n) as u8]
    } else {
        decimal(n / 10).push((48 + n % 10) as u8)
    }
}

/// True when every byte of `s` is an ASCII digit.
pub open spec fn all_digits(s: Seq<u8>) -> bool {
    forall|i: int| 0 <= i < s.len() ==> 48 <= #[trigger] s[i] <= 57
}

/// A decimal rendering is never empty and holds digits only.
pub proof fn lemma_decimal_digits(n: nat)
    ensures
        decimal(n).len() >= 1,
        all_digits(decimal(n)),
    decreases n,
{
    if n >= 10 {
        lemma_decimal_digits(n / 10);
    }
}

impl Server {
    /// The endpoint that six wire bytes stand for: the octets in order, then
    /// the port with its high byte first. Bytes past the sixth are not read.
    pub open spec fn of_record(bytes: Seq<u8>) -> Server
        recommends
            bytes.len() >= 6,
    {
        Server {
            a: bytes[0],
            b: bytes[1],
            c: bytes[2],
            d: bytes[3],
            port: (bytes[4] as int * 256 + bytes[5] as int) as u16,
        }
    }

    /// The six wire bytes of this endpoint.
    pub open spec fn record(self) -> Seq<u8> {
        seq![
            self.a,
            self.b,
            self.c,
            self.d,
            (self.port / 256) as u8,
            (self.port % 256) as u8,
        ]
    }

    /// The all-zero endpoint `0.0.0.0:0`.
    pub open spec fn spec_zero() -> Server {
        Server { a: 0, b: 0, c: 0, d: 0, port: 0 }
    }

    /// The text `a.b.c.d:port` in ASCII.
    pub open spec fn text(self) -> Seq<u8> {
        decimal(self.a as nat) + seq![DOT] + decimal(self.b as nat) + seq![DOT] + decimal(
            self.c as nat,
        ) + seq![DOT] + decimal(self.d as nat) + seq![COLON] + decimal(self.port as nat)
    }

    /// The all-zero endpoint: the seed of a crawl's first page and the record
    /// that ends the directory's list.
    pub fn zero() -> (r: Server)
        ensures
            r == Server::spec_zero(),
    {
        Server { a: 0, b: 0, c: 0, d: 0, port: 0 }
    }

    /// Whether this is the all-zero endpoint.
    pub fn is_zero(&self) -> (r: bool)
        ensures
            r == (*self == Server::spec_zero()),
    {
        self.a == 0 && self.b == 0 && self.c == 0 && self.d == 0 && self.port == 0
    }

    /// Appends the text `a.b.c.d:port` to `out`.
    pub fn write_text(&self, out: &mut Vec<u8>)
        ensures
            final(out)@ == old(out)@ + self.text(),
    {
        push_decimal(out, self.a as u16);
        out.push(DOT);
        push_decimal(out, self.b as u16);
        out.push(DOT);
        push_decimal(out, self.c as u16);
        out.push(DOT);
        push_decimal(out, self.d as u16);
        out.push(COLON);
        push_decimal(out, self.port);
        assert(out@ =~= old(out)@ + self.text());
    }

    /// The text `a.b.c.d:port` as ASCII bytes.
    pub fn to_text(&self) -> (r: Vec<u8>)
        ensures
            r@ == self.text(),
    {
        let mut out: Vec<u8> = Vec::new();
        self.write_text(&mut out);
        assert(out@ =~= self.text());
        out
    }
}

impl From<(u8, u8, u8, u8, u8, u8)> for Server {
    /// The endpoint that six wire bytes stand for.
    fn from(bytes: (u8, u8, u8, u8, u8, u8)) -> (r: Server) {
        let high: u16 = bytes.4 as u16;
        let low: u16 = bytes.5 as u16;
        Server { a: bytes.0, b: bytes.1, c: bytes.2, d: bytes.3, port: high * 256 + low }
    }
}

impl vstd::std_specs::convert::FromSpecImpl<(u8, u8, u8, u8, u8, u8)> for Server {
    open spec fn obeys_from_spec() -> bool {
        true
    }

    open spec fn from_spec(bytes: (u8, u8, u8, u8, u8, u8)) -> Server {
        Server::of_record(seq![bytes.0, bytes.1, bytes.2, bytes.3, bytes.4, bytes.5])
    }
}

/// Reading the six wire bytes of an endpoint gives the endpoint back, and
/// only the all-zero endpoint has six zero bytes.
pub proof fn lemma_record_round_trip(server: Server)
    ensures
        server.record().len() == 6,
        Server::of_record(server.record()) == server,
        server.record() == seq![0u8, 0u8, 0u8, 0u8, 0u8, 0u8] <==> server == Server::spec_zero(),
{
    let r = server.record();
    let z = seq![0u8, 0u8, 0u8, 0u8, 0u8, 0u8];
    if server == Server::spec_zero() {
        assert(r =~= z);
    }
    if r == z {
        assert(r[0] == z[0] && r[1] == z[1] && r[2] == z[2] && r[3] == z[3] && r[4] == z[4]
            && r[5] == z[5]);
    }
}

/// The text of an endpoint holds no zero byte.
pub proof fn lemma_text_has_no_zero(server: Server)
    ensures
        server.text().len() >= 9,
        forall|i: int| 0 <= i < server.text().len() ==> server.text()[i] != 0,
{
    lemma_decimal_digits(server.a as nat);
    lemma_decimal_digits(server.b as nat);
    lemma_decimal_digits(server.c as nat);
    lemma_decimal_digits(server.d as nat);
    lemma_decimal_digits(server.port as nat);
}

/// Appends the decimal digits of `n` to `out`.
pub fn push_decimal(out: &mut Vec<u8>, n: u16)
    ensures
        final(out)@ == old(out)@ + decimal(n as nat),
    decreases n,
{
    if n >= 10 {
        push_decimal(out, n / 10);
    }
    let digit: u8 = (n % 10) as u8;
    out.push(DIGIT_ZERO + digit);
    assert(out@ =~= old(out)@ + decimal(n as nat));
}

/// Reads an endpoint from the first six bytes of `buf`.
pub fn bytes_to_addr(buf: &[u8]) -> (r: Server)
    requires
        buf@.len() >= 6,
    ensures
        r == Server::of_record(buf@),
{
    Server::from((buf[0], buf[1], buf[2], buf[3], buf[4], buf[5]))
}

} // verus!
