//! Internet socket addresses and the texts they are written as.

use crate::text::{number_text, push_number};
use vstd::prelude::*;

verus! {

/// An Internet address. The most significant byte is the one that is written first.
#[derive(Clone, Copy, Debug, PartialEq, Eq, Structural)]
pub enum IpAddr {
    V4(u32),
    V6(u128),
}

/// An Internet address with a port, and for the sixth version with a flow label and a scope.
#[allow(inconsistent_fields)]
#[derive(Clone, Copy, Debug, PartialEq, Eq, Structural)]
pub enum SocketAddr {
    V4 { ip: u32, port: u16 },
    V6 { ip: u128, port: u16, flowinfo: u32, scope_id: u32 },
}

/// The four bytes of an address of the fourth version in decimal, with dots between them.
pub open spec fn ipv4_text(ip: u32) -> Seq<char> {
    number_text((ip / 0x100_0000) as nat, 10) + "."@ + number_text(
        (ip / 0x1_0000 % 0x100) as nat,
        10,
    ) + "."@ + number_text((ip / 0x100 % 0x100) as nat, 10) + "."@ + number_text(
        (ip % 0x100) as nat,
        10,
    )
}

/// The eight groups of sixteen bits of an address of the sixth version.
pub open spec fn groups(ip: u128) -> Seq<u16> {
    seq![
        (ip / 0x1_0000_0000_0000_0000_0000_0000_0000) as u16,
        (ip / 0x1_0000_0000_0000_0000_0000_0000 % 0x1_0000) as u16,
        (ip / 0x1_0000_0000_0000_0000_0000 % 0x1_0000) as u16,
        (ip / 0x1_0000_0000_0000_0000 % 0x1_0000) as u16,
        (ip / 0x1_0000_0000_0000 % 0x1_0000) as u16,
        (ip / 0x1_0000_0000 % 0x1_0000) as u16,
        (ip / 0x1_0000 % 0x1_0000) as u16,
        (ip % 0x1_0000) as u16,
    ]
}

/// Groups in hexadecimal, with colons between them.
pub open spec fn joined(groups: Seq<u16>) -> Seq<char>
    decreases groups.len(),
{
    if groups.len() == 0 {
        Seq::<char>::empty()
    } else if groups.len() == 1 {
        number_text(groups[0] as nat, 16)
    } else {
        joined(groups.drop_last()) + ":"@ + number_text(groups.last() as nat, 16)
    }
}

/// Whether `len` groups from index `start` on are all zero.
pub open spec fn zero_run(groups: Seq<u16>, start: int, len: int) -> bool {
    &&& 0 <= start
    &&& 0 <= len
    &&& start + len <= groups.len()
    &&& forall|i: int| start <= i < start + len ==> groups[i] == 0
}

/// Whether a run of zero groups is the longest there is and, among those of its length, the first.
pub open spec fn longest_zero_run(groups: Seq<u16>, start: int, len: int) -> bool {
    &&& zero_run(groups, start, len)
    &&& forall|s: int, l: int|
        #![trigger zero_run(groups, s, l)]
        zero_run(groups, s, l) && l > 0 ==> l < len || (l == len && start <= s)
}

/// Whether an address of the sixth version stands for one of the fourth.
pub open spec fn is_mapped(ip: u128) -> bool {
    ip / 0x1_0000_0000 == 0xffff
}

/// The groups in hexadecimal with colons between them, where the first of the longest runs of at
/// least two zero groups is written as two colons. An address that stands for one of the fourth
/// version ends in the latter's text.
pub open spec fn ipv6_text(ip: u128) -> Seq<char> {
    if is_mapped(ip) {
        "::ffff:"@ + ipv4_text((ip % 0x1_0000_0000) as u32)
    } else if exists|s: int| zero_run(groups(ip), s, 2) {
        let (start, len) = choose|s: int, l: int| longest_zero_run(groups(ip), s, l);
        joined(groups(ip).take(start)) + "::"@ + joined(groups(ip).skip(start + len))
    } else {
        joined(groups(ip))
    }
}

/// The text of an Internet address.
pub open spec fn ip_text(ip: IpAddr) -> Seq<char> {
    match ip {
        IpAddr::V4(v4) => ipv4_text(v4),
        IpAddr::V6(v6) => ipv6_text(v6),
    }
}

/// Appends the text of an address of the fourth version.
fn push_ipv4(out: &mut String, ip: u32)
    ensures
        final(out)@ == old(out)@ + ipv4_text(ip),
{
    push_number(out, ip / 0x100_0000, 10);
    out.append(".");
    push_number(out, ip / 0x1_0000 % 0x100, 10);
    out.append(".");
    push_number(out, ip / 0x100 % 0x100, 10);
    out.append(".");
    push_number(out, ip % 0x100, 10);
    assert(out@ =~= old(out)@ + ipv4_text(ip));
}

/// The groups of an address of the sixth version.
fn split_groups(ip: u128) -> (v: Vec<u16>)
    ensures
        v@ == groups(ip),
{
    let mut v: Vec<u16> = Vec::new();
    v.push((ip / 0x1_0000_0000_0000_0000_0000_0000_0000) as u16);
    v.push((ip / 0x1_0000_0000_0000_0000_0000_0000 % 0x1_0000) as u16);
    v.push((ip / 0x1_0000_0000_0000_0000_0000 % 0x1_0000) as u16);
    v.push((ip / 0x1_0000_0000_0000_0000 % 0x1_0000) as u16);
    v.push((ip / 0x1_0000_0000_0000 % 0x1_0000) as u16);
    v.push((ip / 0x1_0000_0000 % 0x1_0000) as u16);
    v.push((ip / 0x1_0000 % 0x1_0000) as u16);
    v.push((ip % 0x1_0000) as u16);
    assert(v@ =~= groups(ip));
    v
}

/// Appends the groups from `from` up to, not including, `to`, with colons between them.
fn push_joined(out: &mut String, groups: &Vec<u16>, from: usize, to: usize)
    requires
        from <= to <= groups@.len(),
    ensures
        final(out)@ == old(out)@ + joined(groups@.subrange(from as int, to as int)),
{
    let ghost out0 = out@;
    let mut i: usize = from;
    assert(out@ =~= out0 + joined(groups@.subrange(from as int, from as int)));
    while i < to
        invariant
            from <= i <= to <= groups@.len(),
            out@ == out0 + joined(groups@.subrange(from as int, i as int)),
        decreases to - i,
    {
        let ghost done = groups@.subrange(from as int, i as int);
        let ghost more = groups@.subrange(from as int, i + 1);
        assert(more.drop_last() =~= done);
        if i > from {
            out.append(":");
        }
        push_number(out, groups[i] as u32, 16);
        assert(out@ =~= out0 + joined(more));
        i += 1;
    }
}

/// The first of the longest runs of zero groups, as its start and its length.
fn find_zero_run(groups: &Vec<u16>) -> (run: (usize, usize))
    ensures
        longest_zero_run(groups@, run.0 as int, run.1 as int),
{
    let mut start: usize = 0;
    let mut len: usize = 0;
    let mut current: usize = 0;
    let mut i: usize = 0;
    while i < groups.len()
        invariant
            i <= groups@.len(),
            start + len <= i,
            zero_run(groups@, start as int, len as int),
            current <= i,
            zero_run(groups@, i - current, current as int),
            current < i ==> groups@[i - current - 1] != 0,
            forall|s: int, l: int|
                #![trigger zero_run(groups@, s, l)]
                zero_run(groups@, s, l) && l > 0 && s + l <= i ==> l < len || (l == len && start
                    <= s),
        decreases groups@.len() - i,
    {
        let ghost (len0, current0) = (len as int, current as int);
        if groups[i] == 0 {
            current += 1;
            if current > len {
                len = current;
                start = i + 1 - current;
            }
        } else {
            current = 0;
        }
        proof {
            assert forall|s: int, l: int|
                #![trigger zero_run(groups@, s, l)]
                zero_run(groups@, s, l) && l > 0 && s + l <= i + 1 implies l < len || (l == len
                && start <= s) by {
                if s + l == i + 1 {
                    assert(groups@[s + l - 1] == 0);
                    if l > current {
                        assert(s <= i - current0 - 1 < s + l);
                        assert(groups@[i - current0 - 1] == 0);
                    }
                }
            }
        }
        i += 1;
    }
    (start, len)
}

/// Appends the text of an address of the sixth version.
fn push_ipv6(out: &mut String, ip: u128)
    ensures
        final(out)@ == old(out)@ + ipv6_text(ip),
{
    if ip / 0x1_0000_0000 == 0xffff {
        out.append("::ffff:");
        push_ipv4(out, (ip % 0x1_0000_0000) as u32);
    } else {
        let v = split_groups(ip);
        let (start, len) = find_zero_run(&v);
        if len > 1 {
            push_joined(out, &v, 0, start);
            out.append("::");
            push_joined(out, &v, start + len, v.len());
            proof {
                assert(zero_run(v@, start as int, 2));
                let (s, l) = choose|s: int, l: int| longest_zero_run(groups(ip), s, l);
                assert(longest_zero_run(groups(ip), start as int, len as int));
                assert(longest_zero_run(groups(ip), s, l));
                assert(zero_run(v@, s, l) && zero_run(v@, start as int, len as int));
                assert(s == start && l == len);
                assert(v@.subrange(0, start as int) =~= v@.take(start as int));
                assert(v@.subrange(start + len, v@.len() as int) =~= v@.skip(start + len));
            }
        } else {
            push_joined(out, &v, 0, v.len());
            proof {
                assert forall|s: int| !zero_run(groups(ip), s, 2) by {
                    assert(zero_run(v@, s, 2) ==> 2 < len || 2 == len);
                }
                assert(v@.subrange(0, v@.len() as int) =~= v@);
            }
        }
    }
    assert(out@ =~= old(out)@ + ipv6_text(ip));
}

impl IpAddr {
    /// The text of the address.
    pub fn to_text(&self) -> (s: String)
        ensures
            s@ == ip_text(*self),
    {
        let mut s = String::new();
        match self {
            IpAddr::V4(v4) => push_ipv4(&mut s, *v4),
            IpAddr::V6(v6) => push_ipv6(&mut s, *v6),
        }
        assert(s@ =~= ip_text(*self));
        s
    }
}

/// The text of a socket address: the port follows the address after a colon, and an address of the
/// sixth version stands in brackets, with its scope behind a percent sign where that is not zero.
pub open spec fn socket_addr_text(addr: SocketAddr) -> Seq<char> {
    match addr {
        SocketAddr::V4 { ip, port } => ipv4_text(ip) + ":"@ + number_text(port as nat, 10),
        SocketAddr::V6 { ip, port, scope_id, .. } => "["@ + ipv6_text(ip) + (if scope_id == 0 {
            Seq::<char>::empty()
        } else {
            "%"@ + number_text(scope_id as nat, 10)
        }) + "]:"@ + number_text(port as nat, 10),
    }
}

impl SocketAddr {
    /// The Internet address.
    pub open spec fn spec_ip(self) -> IpAddr {
        match self {
            SocketAddr::V4 { ip, .. } => IpAddr::V4(ip),
            SocketAddr::V6 { ip, .. } => IpAddr::V6(ip),
        }
    }

    /// The port.
    pub open spec fn spec_port(self) -> u16 {
        match self {
            SocketAddr::V4 { port, .. } => port,
            SocketAddr::V6 { port, .. } => port,
        }
    }

    /// The Internet address.
    pub fn ip(&self) -> (ip: IpAddr)
        ensures
            ip == self.spec_ip(),
    {
        match *self {
            SocketAddr::V4 { ip, .. } => IpAddr::V4(ip),
            SocketAddr::V6 { ip, .. } => IpAddr::V6(ip),
        }
    }

    /// The port.
    pub fn port(&self) -> (port: u16)
        ensures
            port == self.spec_port(),
    {
        match *self {
            SocketAddr::V4 { port, .. } => port,
            SocketAddr::V6 { port, .. } => port,
        }
    }

    /// The text of the address with its port.
    pub fn to_text(&self) -> (s: String)
        ensures
            s@ == socket_addr_text(*self),
    {
        let mut s = String::new();
        match *self {
            SocketAddr::V4 { ip, port } => {
                push_ipv4(&mut s, ip);
                s.append(":");
                push_number(&mut s, port as u32, 10);
            },
            SocketAddr::V6 { ip, port, scope_id, .. } => {
                s.append("[");
                push_ipv6(&mut s, ip);
                if scope_id != 0 {
                    s.append("%");
                    push_number(&mut s, scope_id, 10);
                }
                s.append("]:");
                push_number(&mut s, port as u32, 10);
            },
        }
        assert(s@ =~= socket_addr_text(*self));
        s
    }
}

} // verus!
