//! Socket addresses, named addresses, and their textual (authority) form.

use crate::dns::{is_name, Name};
use crate::text::{
    all_visible, decimal_text, hex_text, lemma_all_visible_concat, lemma_decimal_text_visible,
    lemma_hex_text_visible, push_char, push_decimal, push_hex,
};
use vstd::prelude::*;
use vstd::string::*;

verus! {

/// An IPv4 address: four octets, most significant first.
#[derive(Clone, Copy, Debug, PartialEq, Eq, Hash)]
pub struct Ipv4Addr {
    pub octets: [u8; 4],
}

/// An IPv6 address: eight 16-bit segments, most significant first.
#[derive(Clone, Copy, Debug, PartialEq, Eq, Hash)]
pub struct Ipv6Addr {
    pub segments: [u16; 8],
}

/// An IP address of either family.
#[derive(Clone, Copy, Debug, PartialEq, Eq, Hash)]
pub enum IpAddr {
    V4(Ipv4Addr),
    V6(Ipv6Addr),
}

/// An IP address with a port.
#[derive(Clone, Copy, Debug, PartialEq, Eq, Hash)]
pub struct SocketAddr {
    pub ip: IpAddr,
    pub port: u16,
}

/// A name with a port.
#[derive(Debug, PartialEq, Eq, Hash)]
pub struct NameAddr {
    pub name: Name,
    pub port: u16,
}

/// The address of a destination: by name, or by socket address.
#[derive(Debug, PartialEq, Eq, Hash)]
pub enum Addr {
    Name(NameAddr),
    Socket(SocketAddr),
}

/// Dotted-quad text of four octets.
pub open spec fn ipv4_text(o: Seq<u8>) -> Seq<char>
    recommends
        o.len() == 4,
{
    decimal_text(o[0] as nat) + seq!['.'] + decimal_text(o[1] as nat) + seq!['.'] + decimal_text(
        o[2] as nat,
    ) + seq!['.'] + decimal_text(o[3] as nat)
}

impl Ipv4Addr {
    /// The address from its four octets.
    pub fn new(a: u8, b: u8, c: u8, d: u8) -> (ip: Ipv4Addr)
        ensures
            ip.octets@ == seq![a, b, c, d],
    {
        let ip = Ipv4Addr { octets: [a, b, c, d] };
        assert(ip.octets@ =~= seq![a, b, c, d]);
        ip
    }

    /// The address in dotted-quad form.
    pub open spec fn text(&self) -> Seq<char> {
        ipv4_text(self.octets@)
    }

    /// Appends the dotted-quad form to `out`.
    pub fn push_text(&self, out: &mut String)
        ensures
            final(out)@ == old(out)@ + self.text(),
    {
        push_decimal(out, self.octets[0] as u16);
        push_char(out, '.');
        push_decimal(out, self.octets[1] as u16);
        push_char(out, '.');
        push_decimal(out, self.octets[2] as u16);
        push_char(out, '.');
        push_decimal(out, self.octets[3] as u16);
        assert(out@ =~= old(out)@ + self.text());
    }
}

/// The number of consecutive zero segments of `s` that start at index `i`.
pub open spec fn zero_run(s: Seq<u16>, i: int) -> nat
    decreases s.len() - i,
{
    if 0 <= i < s.len() && s[i] == 0 {
        1 + zero_run(s, i + 1)
    } else {
        0
    }
}

/// The start of the longest run of zero segments among those that start
/// before index `n`; of several longest runs, the first.
pub open spec fn longest_zero_run(s: Seq<u16>, n: nat) -> int
    decreases n,
{
    if n == 0 {
        0
    } else {
        let before = longest_zero_run(s, (n - 1) as nat);
        if zero_run(s, n - 1) > zero_run(s, before) {
            n - 1
        } else {
            before
        }
    }
}

/// The segments `s[from..to]` in hexadecimal, joined by `:`.
pub open spec fn segments_text(s: Seq<u16>, from: int, to: int) -> Seq<char>
    decreases to - from,
{
    if from >= to {
        Seq::empty()
    } else if from + 1 == to {
        hex_text(s[from] as nat)
    } else {
        segments_text(s, from, to - 1) + seq![':'] + hex_text(s[to - 1] as nat)
    }
}

/// Whether the segments hold an IPv4 address mapped into IPv6 (`::ffff:a.b.c.d`).
pub open spec fn is_v4_mapped(s: Seq<u16>) -> bool {
    s[0] == 0 && s[1] == 0 && s[2] == 0 && s[3] == 0 && s[4] == 0 && s[5] == 0xffff
}

/// The four octets held in the last two segments.
pub open spec fn mapped_octets(s: Seq<u16>) -> Seq<u8> {
    seq![(s[6] / 256) as u8, (s[6] % 256) as u8, (s[7] / 256) as u8, (s[7] % 256) as u8]
}

/// The canonical text of eight segments: a mapped IPv4 address in mixed
/// notation; otherwise hexadecimal segments, with the first longest run of two
/// or more zero segments written as `::`.
pub open spec fn ipv6_text(s: Seq<u16>) -> Seq<char>
    recommends
        s.len() == 8,
{
    if is_v4_mapped(s) {
        seq![':', ':', 'f', 'f', 'f', 'f', ':'] + ipv4_text(mapped_octets(s))
    } else {
        let start = longest_zero_run(s, 8);
        let len = zero_run(s, start);
        if len > 1 {
            segments_text(s, 0, start) + seq![':', ':'] + segments_text(s, start + len, 8)
        } else {
            segments_text(s, 0, 8)
        }
    }
}

/// A run of zeros that starts inside the sequence ends inside it.
pub proof fn lemma_zero_run_bounds(s: Seq<u16>, i: int)
    requires
        0 <= i <= s.len(),
    ensures
        i + zero_run(s, i) <= s.len(),
        forall|k: int| i <= k < i + zero_run(s, i) ==> #[trigger] s[k] == 0,
        i + zero_run(s, i) < s.len() ==> s[i + zero_run(s, i)] != 0,
    decreases s.len() - i,
{
    if i < s.len() && s[i] == 0 {
        lemma_zero_run_bounds(s, i + 1);
    }
}

/// `longest_zero_run(s, n)` starts a run that no run starting before `n`
/// exceeds, and that every run starting before it falls short of.
pub proof fn lemma_longest_zero_run(s: Seq<u16>, n: nat)
    ensures
        0 <= longest_zero_run(s, n),
        n > 0 ==> longest_zero_run(s, n) < n,
        forall|j: int|
            0 <= j < n ==> #[trigger] zero_run(s, j) <= zero_run(s, longest_zero_run(s, n)),
        forall|j: int|
            0 <= j < longest_zero_run(s, n) ==> #[trigger] zero_run(s, j) < zero_run(
                s,
                longest_zero_run(s, n),
            ),
    decreases n,
{
    if n > 0 {
        lemma_longest_zero_run(s, (n - 1) as nat);
    }
}

impl Ipv6Addr {
    /// The address from its eight segments.
    pub fn new(segments: [u16; 8]) -> (ip: Ipv6Addr)
        ensures
            ip.segments == segments,
    {
        Ipv6Addr { segments }
    }

    /// The address in canonical text form.
    pub open spec fn text(&self) -> Seq<char> {
        ipv6_text(self.segments@)
    }

    /// The length of the run of zero segments that starts at `i`.
    fn zero_run_at(&self, i: usize) -> (n: usize)
        requires
            i <= 8,
        ensures
            n == zero_run(self.segments@, i as int),
            i + n <= 8,
    {
        let mut j: usize = i;
        proof {
            lemma_zero_run_bounds(self.segments@, i as int);
        }
        while j < 8 && self.segments[j] == 0
            invariant
                i <= j <= 8,
                zero_run(self.segments@, i as int) == (j - i) + zero_run(self.segments@, j as int),
            decreases 8 - j,
        {
            j = j + 1;
        }
        j - i
    }

    /// The start and length of the first longest run of zero segments: no
    /// run is longer, and every run that starts before it is shorter.
    fn longest_zero_run(&self) -> (span: (usize, usize))
        ensures
            span.0 == longest_zero_run(self.segments@, 8),
            span.1 == zero_run(self.segments@, span.0 as int),
            span.0 + span.1 <= 8,
            forall|j: int| 0 <= j < 8 ==> #[trigger] zero_run(self.segments@, j) <= span.1,
            forall|j: int| 0 <= j < span.0 ==> #[trigger] zero_run(self.segments@, j) < span.1,
    {
        proof {
            lemma_longest_zero_run(self.segments@, 8);
        }
        let mut start: usize = 0;
        let mut len: usize = self.zero_run_at(0);
        let mut i: usize = 1;
        assert(longest_zero_run(self.segments@, 1) == 0) by {
            assert(longest_zero_run(self.segments@, 0) == 0);
        }
        while i < 8
            invariant
                1 <= i <= 8,
                start == longest_zero_run(self.segments@, i as nat),
                len == zero_run(self.segments@, start as int),
                start < i,
                start + len <= 8,
            decreases 8 - i,
        {
            let here = self.zero_run_at(i);
            if here > len {
                start = i;
                len = here;
            }
            i = i + 1;
        }
        (start, len)
    }

    /// Appends the segments `from..to`, joined by `:`, to `out`.
    fn push_segments(&self, out: &mut String, from: usize, to: usize)
        requires
            from <= to <= 8,
        ensures
            final(out)@ == old(out)@ + segments_text(self.segments@, from as int, to as int),
    {
        let mut i: usize = from;
        assert(out@ =~= old(out)@ + segments_text(self.segments@, from as int, from as int));
        while i < to
            invariant
                from <= i <= to <= 8,
                out@ == old(out)@ + segments_text(self.segments@, from as int, i as int),
            decreases to - i,
        {
            let ghost before = out@;
            if i > from {
                push_char(out, ':');
            }
            push_hex(out, self.segments[i]);
            proof {
                let s = self.segments@;
                let seg = hex_text(s[i as int] as nat);
                if i > from {
                    assert(out@ == before.push(':') + seg);
                    assert(out@ =~= old(out)@ + (segments_text(s, from as int, i as int) + seq![':']
                        + seg));
                } else {
                    assert(segments_text(s, from as int, i as int) =~= Seq::<char>::empty());
                    assert(out@ =~= old(out)@ + seg);
                }
            }
            i = i + 1;
        }
    }

    /// Appends the canonical text form to `out`.
    pub fn push_text(&self, out: &mut String)
        ensures
            final(out)@ == old(out)@ + self.text(),
    {
        let s = &self.segments;
        if s[0] == 0 && s[1] == 0 && s[2] == 0 && s[3] == 0 && s[4] == 0 && s[5] == 0xffff {
            let v4 = Ipv4Addr::new(
                (s[6] / 256) as u8,
                (s[6] % 256) as u8,
                (s[7] / 256) as u8,
                (s[7] % 256) as u8,
            );
            push_char(out, ':');
            push_char(out, ':');
            push_char(out, 'f');
            push_char(out, 'f');
            push_char(out, 'f');
            push_char(out, 'f');
            push_char(out, ':');
            v4.push_text(out);
            assert(v4.octets@ == mapped_octets(self.segments@));
            assert(out@ =~= old(out)@ + self.text());
        } else {
            let (start, len) = self.longest_zero_run();
            if len > 1 {
                self.push_segments(out, 0, start);
                push_char(out, ':');
                push_char(out, ':');
                self.push_segments(out, start + len, 8);
                assert(out@ =~= old(out)@ + self.text());
            } else {
                self.push_segments(out, 0, 8);
            }
        }
    }
}

impl IpAddr {
    /// The address as text, in the form of its family.
    pub open spec fn text(&self) -> Seq<char> {
        match self {
            IpAddr::V4(ip) => ip.text(),
            IpAddr::V6(ip) => ip.text(),
        }
    }
}

impl SocketAddr {
    /// The socket address of `ip` and `port`.
    pub fn new(ip: IpAddr, port: u16) -> (addr: SocketAddr)
        ensures
            addr == (SocketAddr { ip, port }),
    {
        SocketAddr { ip, port }
    }

    /// The port.
    pub fn port(&self) -> (port: u16)
        ensures
            port == self.port,
    {
        self.port
    }

    /// The address as text: `a.b.c.d:port`, or `[v6]:port`.
    pub open spec fn text(&self) -> Seq<char> {
        match self.ip {
            IpAddr::V4(ip) => ip.text() + seq![':'] + decimal_text(self.port as nat),
            IpAddr::V6(ip) => seq!['['] + ip.text() + seq![']', ':'] + decimal_text(
                self.port as nat,
            ),
        }
    }

    /// Appends the text form to `out`.
    pub fn push_text(&self, out: &mut String)
        ensures
            final(out)@ == old(out)@ + self.text(),
    {
        match &self.ip {
            IpAddr::V4(ip) => {
                ip.push_text(out);
                push_char(out, ':');
                push_decimal(out, self.port);
            },
            IpAddr::V6(ip) => {
                push_char(out, '[');
                ip.push_text(out);
                push_char(out, ']');
                push_char(out, ':');
                push_decimal(out, self.port);
            },
        }
        assert(out@ =~= old(out)@ + self.text());
    }

    /// The address as text.
    pub fn to_string(&self) -> (s: String)
        ensures
            s@ == self.text(),
    {
        let mut out = String::new();
        self.push_text(&mut out);
        assert(out@ =~= self.text());
        out
    }
}

impl NameAddr {
    /// The named address of `name` and `port`.
    pub fn new(name: Name, port: u16) -> (addr: NameAddr)
        ensures
            addr.name == name,
            addr.port == port,
    {
        NameAddr { name, port }
    }

    /// The address as text: `name:port`.
    pub open spec fn text(&self) -> Seq<char> {
        self.name@ + seq![':'] + decimal_text(self.port as nat)
    }

    /// Appends the text form to `out`.
    pub fn push_text(&self, out: &mut String)
        ensures
            final(out)@ == old(out)@ + self.text(),
            self.name.wf(),
    {
        out.append(self.name.as_str());
        push_char(out, ':');
        push_decimal(out, self.port);
        assert(out@ =~= old(out)@ + self.text());
    }
}

impl Clone for NameAddr {
    fn clone(&self) -> (r: Self)
        ensures
            r == *self,
    {
        NameAddr { name: self.name.clone(), port: self.port }
    }
}

impl Addr {
    /// Whether the address is well-formed: a name, where it has one, is a
    /// well-formed name. Every address that exists at run time is.
    pub open spec fn wf(&self) -> bool {
        match self {
            Addr::Name(n) => n.name.wf(),
            Addr::Socket(_) => true,
        }
    }

    /// The port.
    pub fn port(&self) -> (port: u16)
        ensures
            port == match self {
                Addr::Name(n) => n.port,
                Addr::Socket(a) => a.port,
            },
    {
        match self {
            Addr::Name(n) => n.port,
            Addr::Socket(a) => a.port,
        }
    }

    /// The address in authority form: `name:port` or the socket address's text.
    pub open spec fn text(&self) -> Seq<char> {
        match self {
            Addr::Name(n) => n.text(),
            Addr::Socket(a) => a.text(),
        }
    }

    /// The address in authority form.
    pub fn to_string(&self) -> (s: String)
        ensures
            s@ == self.text(),
            self.wf(),
    {
        let mut out = String::new();
        match self {
            Addr::Name(n) => n.push_text(&mut out),
            Addr::Socket(a) => a.push_text(&mut out),
        }
        assert(out@ =~= self.text());
        out
    }
}

impl Clone for Addr {
    fn clone(&self) -> (r: Self)
        ensures
            r == *self,
    {
        match self {
            Addr::Name(n) => Addr::Name(n.clone()),
            Addr::Socket(a) => Addr::Socket(*a),
        }
    }
}

/// Dotted-quad text is made of visible characters.
pub proof fn lemma_ipv4_text_visible(o: Seq<u8>)
    ensures
        all_visible(ipv4_text(o)),
{
    lemma_decimal_text_visible(o[0] as nat);
    lemma_decimal_text_visible(o[1] as nat);
    lemma_decimal_text_visible(o[2] as nat);
    lemma_decimal_text_visible(o[3] as nat);
    let dot = seq!['.'];
    let a = decimal_text(o[0] as nat) + dot;
    lemma_all_visible_concat(decimal_text(o[0] as nat), dot);
    lemma_all_visible_concat(a, decimal_text(o[1] as nat));
    let b = a + decimal_text(o[1] as nat) + dot;
    lemma_all_visible_concat(a + decimal_text(o[1] as nat), dot);
    lemma_all_visible_concat(b, decimal_text(o[2] as nat));
    let c = b + decimal_text(o[2] as nat) + dot;
    lemma_all_visible_concat(b + decimal_text(o[2] as nat), dot);
    lemma_all_visible_concat(c, decimal_text(o[3] as nat));
}

/// Joined hexadecimal segments are made of visible characters.
pub proof fn lemma_segments_text_visible(s: Seq<u16>, from: int, to: int)
    ensures
        all_visible(segments_text(s, from, to)),
    decreases to - from,
{
    if from >= to {
    } else if from + 1 == to {
        lemma_hex_text_visible(s[from] as nat);
    } else {
        lemma_segments_text_visible(s, from, to - 1);
        lemma_hex_text_visible(s[to - 1] as nat);
        lemma_all_visible_concat(segments_text(s, from, to - 1), seq![':']);
        lemma_all_visible_concat(
            segments_text(s, from, to - 1) + seq![':'],
            hex_text(s[to - 1] as nat),
        );
    }
}

/// IPv6 text is made of visible characters.
pub proof fn lemma_ipv6_text_visible(s: Seq<u16>)
    ensures
        all_visible(ipv6_text(s)),
{
    if is_v4_mapped(s) {
        lemma_ipv4_text_visible(mapped_octets(s));
        lemma_all_visible_concat(
            seq![':', ':', 'f', 'f', 'f', 'f', ':'],
            ipv4_text(mapped_octets(s)),
        );
    } else {
        let start = longest_zero_run(s, 8);
        let len = zero_run(s, start);
        lemma_segments_text_visible(s, 0, start);
        lemma_segments_text_visible(s, start + len, 8);
        lemma_segments_text_visible(s, 0, 8);
        lemma_all_visible_concat(segments_text(s, 0, start), seq![':', ':']);
        lemma_all_visible_concat(
            segments_text(s, 0, start) + seq![':', ':'],
            segments_text(s, start + len, 8),
        );
    }
}

/// The text of a socket address is made of visible characters.
pub proof fn lemma_socket_text_visible(a: SocketAddr)
    ensures
        all_visible(a.text()),
{
    lemma_decimal_text_visible(a.port as nat);
    match a.ip {
        IpAddr::V4(ip) => {
            lemma_ipv4_text_visible(ip.octets@);
            lemma_all_visible_concat(ip.text(), seq![':']);
            lemma_all_visible_concat(ip.text() + seq![':'], decimal_text(a.port as nat));
        },
        IpAddr::V6(ip) => {
            lemma_ipv6_text_visible(ip.segments@);
            lemma_all_visible_concat(seq!['['], ip.text());
            lemma_all_visible_concat(seq!['['] + ip.text(), seq![']', ':']);
            lemma_all_visible_concat(
                seq!['['] + ip.text() + seq![']', ':'],
                decimal_text(a.port as nat),
            );
        },
    }
}

/// The text of a well-formed address is made of visible characters.
pub proof fn lemma_addr_text_visible(a: Addr)
    requires
        a.wf(),
    ensures
        all_visible(a.text()),
{
    match a {
        Addr::Name(n) => {
            lemma_decimal_text_visible(n.port as nat);
            assert(all_visible(n.name@)) by {
                assert(is_name(n.name@));
            }
            lemma_all_visible_concat(n.name@, seq![':']);
            lemma_all_visible_concat(n.name@ + seq![':'], decimal_text(n.port as nat));
        },
        Addr::Socket(sa) => {
            lemma_socket_text_visible(sa);
        },
    }
}

} // verus!
