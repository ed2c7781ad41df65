//! What the texts of addresses and numbers lead back to.

use crate::addr::{
    groups, ip_text, ipv4_text, ipv6_text, is_mapped, joined, longest_zero_run, socket_addr_text,
    zero_run, IpAddr, SocketAddr,
};
use crate::text::{digit_text, number_text, signed_text};
use vstd::prelude::*;

verus! {

/// The value of a digit.
pub open spec fn digit_value(c: char) -> nat {
    if c as int <= '9' as int {
        (c as int - '0' as int) as nat
    } else {
        (c as int - 'a' as int + 10) as nat
    }
}

/// The number that digits of a base stand for.
pub open spec fn number_of(text: Seq<char>, base: nat) -> nat
    decreases text.len(),
{
    if text.len() == 0 {
        0
    } else {
        number_of(text.drop_last(), base) * base + digit_value(text.last())
    }
}

/// Whether a character stands at a place in a text, and nowhere behind it.
pub open spec fn last_at(text: Seq<char>, sep: char, p: int) -> bool {
    0 <= p < text.len() && text[p] == sep && !text.skip(p + 1).contains(sep)
}

/// The last place of a character in a text.
pub open spec fn last_place(text: Seq<char>, sep: char) -> int {
    choose|p: int| last_at(text, sep, p)
}

/// The parts of a text between which a character stands.
pub open spec fn parts(text: Seq<char>, sep: char) -> Seq<Seq<char>>
    decreases text.len(),
{
    let p = last_place(text, sep);
    if last_at(text, sep, p) {
        parts(text.take(p), sep).push(text.skip(p + 1))
    } else {
        seq![text]
    }
}

/// The address of the fourth version that four decimal numbers with dots between them stand for.
pub open spec fn ipv4_of(text: Seq<char>) -> u32 {
    let p = parts(text, '.');
    (number_of(p[0], 10) * 0x100_0000 + number_of(p[1], 10) * 0x1_0000 + number_of(p[2], 10) * 0x100
        + number_of(p[3], 10)) as u32
}

/// The groups that hexadecimal numbers with colons between them stand for.
pub open spec fn plain_groups_of(text: Seq<char>) -> Seq<u16> {
    if text.len() == 0 {
        Seq::empty()
    } else {
        parts(text, ':').map_values(|part: Seq<char>| number_of(part, 16) as u16)
    }
}

/// Whether two colons stand at a place in a text.
pub open spec fn colons_at(text: Seq<char>, p: int) -> bool {
    0 <= p && p + 1 < text.len() && text[p] == ':' && text[p + 1] == ':'
}

/// So many zero groups.
pub open spec fn zeros(n: int) -> Seq<u16> {
    Seq::new(n as nat, |i: int| 0u16)
}

/// The `total` groups that a text stands for, in which two colons stand for as many zero groups as
/// are missing.
pub open spec fn groups_of(text: Seq<char>, total: int) -> Seq<u16> {
    if exists|p: int| colons_at(text, p) {
        let p = choose|p: int| colons_at(text, p);
        let left = plain_groups_of(text.take(p));
        let right = plain_groups_of(text.skip(p + 2));
        left + zeros(total - left.len() - right.len()) + right
    } else {
        plain_groups_of(text)
    }
}

/// The number that groups of sixteen bits make up.
pub open spec fn groups_value(groups: Seq<u16>) -> nat
    decreases groups.len(),
{
    if groups.len() == 0 {
        0
    } else {
        groups_value(groups.drop_last()) * 0x1_0000 + groups.last() as nat
    }
}

/// The address that a text stands for. Without a colon it is one of the fourth version. With one it
/// is one of the sixth, of eight groups, or of six and behind them an address of the fourth version.
pub open spec fn ip_of(text: Seq<char>) -> IpAddr {
    if !text.contains(':') {
        IpAddr::V4(ipv4_of(text))
    } else if text.contains('.') {
        let p = last_place(text, ':');
        IpAddr::V6(
            (groups_value(groups_of(text.take(p), 6)) * 0x1_0000_0000 + ipv4_of(
                text.skip(p + 1),
            )) as u128,
        )
    } else {
        IpAddr::V6(groups_value(groups_of(text, 8)) as u128)
    }
}

/// Whether a character is a decimal digit.
pub open spec fn is_decimal(c: char) -> bool {
    '0' as int <= c as int <= '9' as int
}

/// Whether a character is a digit of the base, which is ten or sixteen.
pub open spec fn is_digit(c: char, base: nat) -> bool {
    is_decimal(c) || (base == 16 && 'a' as int <= c as int <= 'f' as int)
}

/// Whether a text holds nothing but digits of the base.
pub open spec fn all_digits(text: Seq<char>, base: nat) -> bool {
    forall|i: int| 0 <= i < text.len() ==> is_digit(#[trigger] text[i], base)
}

/// Whether a text holds nothing but hexadecimal digits, dots and colons.
pub open spec fn is_plain_ip(text: Seq<char>) -> bool {
    forall|i: int|
        0 <= i < text.len() ==> is_digit(#[trigger] text[i], 16) || text[i] == '.' || text[i] == ':'
}

proof fn lemma_digit(d: nat)
    requires
        d < 16,
    ensures
        digit_text(d).len() == 1,
        digit_value(digit_text(d)[0]) == d,
        is_digit(digit_text(d)[0], 16),
        d < 10 ==> is_digit(digit_text(d)[0], 10),
{
    reveal_strlit("0");
    reveal_strlit("1");
    reveal_strlit("2");
    reveal_strlit("3");
    reveal_strlit("4");
    reveal_strlit("5");
    reveal_strlit("6");
    reveal_strlit("7");
    reveal_strlit("8");
    reveal_strlit("9");
    reveal_strlit("a");
    reveal_strlit("b");
    reveal_strlit("c");
    reveal_strlit("d");
    reveal_strlit("e");
    reveal_strlit("f");
}

proof fn lemma_number(n: nat, base: nat)
    requires
        base == 10 || base == 16,
    ensures
        number_text(n, base).len() > 0,
        all_digits(number_text(n, base), base),
        number_of(number_text(n, base), base) == n,
    decreases n,
{
    let text = number_text(n, base);
    if n < base {
        lemma_digit(n);
        reveal_with_fuel(number_of, 2);
    } else {
        lemma_number(n / base, base);
        lemma_digit(n % base);
        assert(text.drop_last() =~= number_text(n / base, base));
    }
}

/// The parts of a text that ends in a character and a part without it.
proof fn lemma_parts(head: Seq<char>, sep: char, last: Seq<char>)
    requires
        !last.contains(sep),
    ensures
        last_place(head + seq![sep] + last, sep) == head.len(),
        parts(head + seq![sep] + last, sep) == parts(head, sep).push(last),
{
    let text = head + seq![sep] + last;
    let at = head.len() as int;
    assert(text.skip(at + 1) =~= last);
    assert(last_at(text, sep, at));
    let p = last_place(text, sep);
    assert(last_at(text, sep, p));
    if p < at {
        assert(text.skip(p + 1)[at - p - 1] == sep);
    }
    assert(text.take(at) =~= head);
}

/// The parts of a text without the character.
proof fn lemma_one_part(text: Seq<char>, sep: char)
    requires
        !text.contains(sep),
    ensures
        parts(text, sep) == seq![text],
{
}

/// Digits hold neither dots nor colons.
proof fn lemma_digits(text: Seq<char>, base: nat)
    requires
        all_digits(text, base),
    ensures
        !text.contains('.'),
        !text.contains(':'),
        is_plain_ip(text),
{
}

/// What a text holds that is made of two.
proof fn lemma_join(x: Seq<char>, y: Seq<char>)
    ensures
        is_plain_ip(x) && is_plain_ip(y) ==> is_plain_ip(x + y),
        (x + y).contains('.') <==> x.contains('.') || y.contains('.'),
        (x + y).contains(':') <==> x.contains(':') || y.contains(':'),
{
    let text = x + y;
    assert forall|c: char| #[trigger] text.contains(c) <==> x.contains(c) || y.contains(c) by {
        if x.contains(c) {
            assert(text[x.index_of(c)] == c);
        }
        if y.contains(c) {
            assert(text[x.len() + y.index_of(c)] == c);
        }
        if text.contains(c) {
            let i = text.index_of(c);
            if i >= x.len() {
                assert(y[i - x.len()] == c);
            }
        }
    }
}

/// What four numbers with dots between them look like.
proof fn lemma_dotted(a: Seq<char>, b: Seq<char>, c: Seq<char>, d: Seq<char>)
    requires
        all_digits(a, 10),
        all_digits(b, 10),
        all_digits(c, 10),
        all_digits(d, 10),
    ensures
        ({
            let text = a + "."@ + b + "."@ + c + "."@ + d;
            &&& is_plain_ip(text)
            &&& !text.contains(':')
            &&& text.contains('.')
            &&& parts(text, '.') == seq![a, b, c, d]
        }),
{
    reveal_strlit(".");
    let dot = seq!['.'];
    assert("."@ =~= dot);
    lemma_digits(a, 10);
    lemma_digits(b, 10);
    lemma_digits(c, 10);
    lemma_digits(d, 10);
    lemma_one_part(a, '.');
    lemma_parts(a, '.', b);
    lemma_parts(a + dot + b, '.', c);
    lemma_parts(a + dot + b + dot + c, '.', d);
    assert(parts(a + dot + b + dot + c + dot + d, '.') =~= seq![a, b, c, d]);
    lemma_join(a, dot);
    lemma_join(a + dot, b);
    lemma_join(a + dot + b, dot);
    lemma_join(a + dot + b + dot, c);
    lemma_join(a + dot + b + dot + c, dot);
    lemma_join(a + dot + b + dot + c + dot, d);
}

/// The four bytes of an address make up the address.
proof fn lemma_bytes(ip: u32)
    ensures
        (ip / 0x100_0000) * 0x100_0000 + (ip / 0x1_0000 % 0x100) * 0x1_0000 + (ip / 0x100 % 0x100)
            * 0x100 + ip % 0x100 == ip,
{
    let whole = ip as int;
    assert(whole / 0x1_0000 == whole / 0x100 / 0x100);
    assert(whole / 0x100_0000 == whole / 0x1_0000 / 0x100);
}

/// The text of an address of the fourth version leads back to it.
proof fn lemma_ipv4(ip: u32)
    ensures
        is_plain_ip(ipv4_text(ip)),
        !ipv4_text(ip).contains(':'),
        ipv4_text(ip).contains('.'),
        ipv4_of(ipv4_text(ip)) == ip,
{
    let n0 = (ip / 0x100_0000) as nat;
    let n1 = (ip / 0x1_0000 % 0x100) as nat;
    let n2 = (ip / 0x100 % 0x100) as nat;
    let n3 = (ip % 0x100) as nat;
    lemma_number(n0, 10);
    lemma_number(n1, 10);
    lemma_number(n2, 10);
    lemma_number(n3, 10);
    lemma_dotted(
        number_text(n0, 10),
        number_text(n1, 10),
        number_text(n2, 10),
        number_text(n3, 10),
    );
    lemma_bytes(ip);
}

/// What groups with colons between them look like, and lead back to.
proof fn lemma_joined(g: Seq<u16>)
    ensures
        is_plain_ip(joined(g)),
        !joined(g).contains('.'),
        g.len() > 0 ==> joined(g).len() > 0 && joined(g)[0] != ':' && joined(g).last() != ':',
        g.len() > 1 ==> joined(g).contains(':'),
        forall|p: int| !colons_at(joined(g), p),
        g.len() > 0 ==> parts(joined(g), ':') == g.map_values(|n: u16| number_text(n as nat, 16)),
        plain_groups_of(joined(g)) == g,
    decreases g.len(),
{
    reveal_strlit(":");
    let colon = seq![':'];
    assert(":"@ =~= colon);
    let texts = g.map_values(|n: u16| number_text(n as nat, 16));
    let text = joined(g);
    if g.len() == 1 {
        lemma_number(g[0] as nat, 16);
        lemma_digits(text, 16);
        lemma_one_part(text, ':');
    } else if g.len() > 1 {
        let head = joined(g.drop_last());
        let last = number_text(g.last() as nat, 16);
        lemma_joined(g.drop_last());
        lemma_number(g.last() as nat, 16);
        lemma_digits(last, 16);
        lemma_parts(head, ':', last);
        assert forall|p: int| !colons_at(text, p) by {
            if colons_at(text, p) {
                if p + 1 < head.len() {
                    assert(colons_at(head, p));
                }
            }
        }
    }
    if g.len() > 0 {
        let values = texts.map_values(|part: Seq<char>| number_of(part, 16) as u16);
        assert forall|i: int| 0 <= i < g.len() implies values[i] == g[i] by {
            lemma_number(g[i] as nat, 16);
        }
    }
}

/// What groups with two colons among them lead back to.
proof fn lemma_with_colons(left: Seq<u16>, right: Seq<u16>, total: int)
    ensures
        is_plain_ip(joined(left) + "::"@ + joined(right)),
        !(joined(left) + "::"@ + joined(right)).contains('.'),
        (joined(left) + "::"@ + joined(right)).contains(':'),
        groups_of(joined(left) + "::"@ + joined(right), total) == left + zeros(
            total - left.len() - right.len(),
        ) + right,
{
    reveal_strlit("::");
    lemma_joined(left);
    lemma_joined(right);
    let (l, r) = (joined(left), joined(right));
    let text = l + "::"@ + r;
    let at = l.len() as int;
    assert(colons_at(text, at));
    let p = choose|p: int| colons_at(text, p);
    if p + 1 < at {
        assert(colons_at(l, p));
    }
    if p > at + 1 {
        assert(colons_at(r, p - at - 2));
    }
    assert(text.take(at) =~= l);
    assert(text.skip(at + 2) =~= r);
}

/// One more group of an address makes up as much of it as stands behind a smaller divisor.
proof fn lemma_next_group(ip: u128, k: int, by: int)
    requires
        1 <= k <= 7,
        by > 0,
        groups_value(groups(ip).take(k)) == ip as int / (by * 0x1_0000),
        groups(ip)[k] == ip as int / by % 0x1_0000,
    ensures
        groups_value(groups(ip).take(k + 1)) == ip as int / by,
{
    let g = groups(ip).take(k + 1);
    assert(g.drop_last() =~= groups(ip).take(k));
    vstd::arithmetic::div_mod::lemma_div_denominator(ip as int, by, 0x1_0000);
}

/// The groups of an address make up the address.
proof fn lemma_groups_value(ip: u128)
    ensures
        groups_value(groups(ip)) == ip,
{
    reveal_with_fuel(groups_value, 2);
    lemma_next_group(ip, 1, 0x1_0000_0000_0000_0000_0000_0000);
    lemma_next_group(ip, 2, 0x1_0000_0000_0000_0000_0000);
    lemma_next_group(ip, 3, 0x1_0000_0000_0000_0000);
    lemma_next_group(ip, 4, 0x1_0000_0000_0000);
    lemma_next_group(ip, 5, 0x1_0000_0000);
    lemma_next_group(ip, 6, 0x1_0000);
    lemma_next_group(ip, 7, 1);
}

/// Where there is a run of zero groups, one is the first of the longest.
proof fn lemma_longest_zero_run(g: Seq<u16>, start: int, len: int)
    requires
        zero_run(g, start, len),
        len > 0,
    ensures
        exists|s: int, l: int| longest_zero_run(g, s, l),
    decreases g.len() - len, start,
{
    if !longest_zero_run(g, start, len) {
        let (s, l) = choose|s: int, l: int| #[trigger]
            zero_run(g, s, l) && l > 0 && !(l < len || (l == len && start <= s));
        lemma_longest_zero_run(g, s, l);
    }
}

/// The text of an address of the sixth version that stands for one of the fourth leads back to it.
proof fn lemma_mapped(ip: u128)
    requires
        is_mapped(ip),
    ensures
        is_plain_ip(ipv6_text(ip)),
        ip_of(ipv6_text(ip)) == IpAddr::V6(ip),
{
    reveal_strlit("::ffff:");
    reveal_strlit("::");
    reveal_strlit("f");
    let last = (ip % 0x1_0000_0000) as u32;
    let v4 = ipv4_text(last);
    lemma_ipv4(last);
    let group = seq![0xffffu16];
    reveal_with_fuel(number_text, 5);
    lemma_with_colons(Seq::empty(), group, 6);
    let head = joined(Seq::empty()) + "::"@ + joined(group);
    let colon = seq![':'];
    let text = ipv6_text(ip);
    assert(text =~= head + colon + v4);
    lemma_parts(head, ':', v4);
    assert(text.take(head.len() as int) =~= head);
    assert(text.skip(head.len() as int + 1) =~= v4);
    lemma_join(head, colon);
    lemma_join(head + colon, v4);
    let six = Seq::<u16>::empty() + zeros(5) + group;
    assert(groups_value(six) == 0xffff) by {
        reveal_with_fuel(groups_value, 7);
    }
}

/// The text of an address of the sixth version leads back to it.
proof fn lemma_ipv6(ip: u128)
    ensures
        is_plain_ip(ipv6_text(ip)),
        ip_of(ipv6_text(ip)) == IpAddr::V6(ip),
{
    let g = groups(ip);
    lemma_groups_value(ip);
    if is_mapped(ip) {
        lemma_mapped(ip);
    } else if exists|s: int| zero_run(g, s, 2) {
        let any = choose|s: int| zero_run(g, s, 2);
        lemma_longest_zero_run(g, any, 2);
        let (start, len) = choose|s: int, l: int| longest_zero_run(g, s, l);
        let left = g.take(start);
        let right = g.skip(start + len);
        lemma_with_colons(left, right, 8);
        assert(left + zeros(len) + right =~= g);
    } else {
        lemma_joined(g);
    }
}

/// The text of an address and that of its port lead back to the address and to the port.
pub proof fn law_raw_texts_lead_back(addr: SocketAddr)
    ensures
        ip_of(ip_text(addr.spec_ip())) == addr.spec_ip(),
        number_of(number_text(addr.spec_port() as nat, 10), 10) == addr.spec_port(),
{
    lemma_number(addr.spec_port() as nat, 10);
    match addr.spec_ip() {
        IpAddr::V4(ip) => lemma_ipv4(ip),
        IpAddr::V6(ip) => lemma_ipv6(ip),
    }
}

/// Addresses with the same text are the same, and ports with the same text are the same.
pub proof fn law_raw_texts_tell_apart(a: SocketAddr, b: SocketAddr)
    ensures
        ip_text(a.spec_ip()) == ip_text(b.spec_ip()) ==> a.spec_ip() == b.spec_ip(),
        number_text(a.spec_port() as nat, 10) == number_text(b.spec_port() as nat, 10)
            ==> a.spec_port() == b.spec_port(),
{
    law_raw_texts_lead_back(a);
    law_raw_texts_lead_back(b);
}

/// The text of an address holds nothing but hexadecimal digits, dots and colons, and that of its
/// port is made of decimal digits. Neither holds a zero character, so that each can be handed to the
/// operating system with a zero behind it, and neither holds brackets.
pub proof fn law_raw_texts_are_plain(addr: SocketAddr)
    ensures
        is_plain_ip(ip_text(addr.spec_ip())),
        number_text(addr.spec_port() as nat, 10).len() > 0,
        all_digits(number_text(addr.spec_port() as nat, 10), 10),
        forall|c: char|
            c == '\0' || c == '[' || c == ']' ==> !(#[trigger] ip_text(addr.spec_ip()).contains(c))
                && !number_text(addr.spec_port() as nat, 10).contains(c),
{
    lemma_number(addr.spec_port() as nat, 10);
    match addr.spec_ip() {
        IpAddr::V4(ip) => lemma_ipv4(ip),
        IpAddr::V6(ip) => lemma_ipv6(ip),
    }
}

/// Whether digits start with no zero that could be left out.
pub open spec fn is_short(text: Seq<char>) -> bool {
    text.len() > 0 && (text.len() > 1 ==> text[0] != '0')
}

/// A number leads back to itself, and is written in digits of its base without leading zeros.
pub proof fn law_numbers_are_short(n: nat, base: nat)
    requires
        base == 10 || base == 16,
    ensures
        number_of(number_text(n, base), base) == n,
        all_digits(number_text(n, base), base),
        is_short(number_text(n, base)),
        n > 0 ==> number_text(n, base)[0] != '0',
    decreases n,
{
    lemma_number(n, base);
    if n < base {
        lemma_digit(n);
    } else {
        law_numbers_are_short(n / base, base);
        assert(n / base > 0) by (nonlinear_arith)
            requires
                n >= base,
                base > 0,
        ;
    }
}

/// A number below zero is written with a sign before its size, and any other without one.
pub proof fn law_signs_are_written(n: int)
    ensures
        n < 0 ==> signed_text(n).len() > 1 && signed_text(n)[0] == '-' && number_of(
            signed_text(n).skip(1),
            10,
        ) == -n && is_short(signed_text(n).skip(1)) && all_digits(signed_text(n).skip(1), 10),
        n >= 0 ==> number_of(signed_text(n), 10) == n && is_short(signed_text(n)) && all_digits(
            signed_text(n),
            10,
        ),
{
    reveal_strlit("-");
    let size = (if n < 0 {
        -n
    } else {
        n
    }) as nat;
    law_numbers_are_short(size, 10);
    if n < 0 {
        assert(signed_text(n).skip(1) =~= number_text(size, 10));
    }
}

/// An address of the fourth version is written as four numbers without leading zeros.
pub proof fn law_ipv4_text_is_short(ip: u32)
    ensures
        parts(ip_text(IpAddr::V4(ip)), '.').len() == 4,
        forall|i: int| 0 <= i < 4 ==> is_short(#[trigger] parts(ip_text(IpAddr::V4(ip)), '.')[i]),
        !ip_text(IpAddr::V4(ip)).contains(':'),
{
    let n0 = (ip / 0x100_0000) as nat;
    let n1 = (ip / 0x1_0000 % 0x100) as nat;
    let n2 = (ip / 0x100 % 0x100) as nat;
    let n3 = (ip % 0x100) as nat;
    law_numbers_are_short(n0, 10);
    law_numbers_are_short(n1, 10);
    law_numbers_are_short(n2, 10);
    law_numbers_are_short(n3, 10);
    lemma_dotted(
        number_text(n0, 10),
        number_text(n1, 10),
        number_text(n2, 10),
        number_text(n3, 10),
    );
}

/// Whether the groups of a text without two colons are written without leading zeros.
pub open spec fn short_groups(text: Seq<char>) -> bool {
    forall|i: int| 0 <= i < parts(text, ':').len() ==> is_short(#[trigger] parts(text, ':')[i])
}

proof fn lemma_short_groups(g: Seq<u16>)
    requires
        g.len() > 0,
    ensures
        short_groups(joined(g)),
{
    lemma_joined(g);
    assert forall|i: int| 0 <= i < parts(joined(g), ':').len() implies is_short(
        #[trigger] parts(joined(g), ':')[i],
    ) by {
        law_numbers_are_short(g[i] as nat, 16);
    }
}

/// Whether `len` groups from index `start` on are there and are all zero.
pub open spec fn zeros_at(g: Seq<u16>, start: int, len: int) -> bool {
    0 <= start && 0 < len && start + len <= g.len() && g.subrange(start, start + len) == zeros(len)
}

/// Whether a text without an address of the fourth version is the shortest for eight groups: two
/// colons stand in it if and only if two groups in a row are zero, and then for the longest run of
/// these and, among the longest, for the first. No group has leading zeros.
pub open spec fn is_shortest(text: Seq<char>, g: Seq<u16>) -> bool {
    &&& (exists|p: int| colons_at(text, p)) <==> exists|s: int| #[trigger] zeros_at(g, s, 2)
    &&& !(exists|p: int| colons_at(text, p)) ==> short_groups(text)
    &&& forall|p: int| #[trigger] colons_at(text, p) ==> colons_well_placed(text, g, p)
}

/// Whether the two colons at a place stand for the first of the longest runs of zero groups.
pub open spec fn colons_well_placed(text: Seq<char>, g: Seq<u16>, p: int) -> bool {
    let left = plain_groups_of(text.take(p)).len();
    let right = plain_groups_of(text.skip(p + 2)).len();
    &&& left + right <= 6
    &&& left > 0 ==> short_groups(text.take(p))
    &&& right > 0 ==> short_groups(text.skip(p + 2))
    &&& forall|s: int, l: int| #[trigger]
        zeros_at(g, s, l) ==> l < 8 - left - right || (l == 8 - left - right && left <= s)
}

proof fn lemma_shortest_with_colons(g: Seq<u16>, start: int, len: int)
    requires
        g.len() == 8,
        longest_zero_run(g, start, len),
        len >= 2,
    ensures
        is_shortest(joined(g.take(start)) + "::"@ + joined(g.skip(start + len)), g),
{
    let left = g.take(start);
    let right = g.skip(start + len);
    let text = joined(left) + "::"@ + joined(right);
    let at = joined(left).len() as int;
    lemma_place_of_colons(left, right);
    assert(colons_at(text, at));
    assert(text.take(at) =~= joined(left));
    assert(text.skip(at + 2) =~= joined(right)) by {
        reveal_strlit("::");
    }
    lemma_joined(left);
    lemma_joined(right);
    if left.len() > 0 {
        lemma_short_groups(left);
    }
    if right.len() > 0 {
        lemma_short_groups(right);
    }
    assert(g.subrange(start, start + 2) =~= zeros(2));
    assert(zeros_at(g, start, 2));
    assert forall|s: int, l: int| #[trigger] zeros_at(g, s, l) implies l < len || (l == len && start
        <= s) by {
        lemma_zeros_at(g, s, l);
    }
}

proof fn lemma_shortest_without_colons(g: Seq<u16>)
    requires
        g.len() == 8,
        forall|s: int| !zero_run(g, s, 2),
    ensures
        is_shortest(joined(g), g),
{
    lemma_joined(g);
    lemma_short_groups(g);
    assert forall|s: int| !(#[trigger] zeros_at(g, s, 2)) by {
        if zeros_at(g, s, 2) {
            lemma_zeros_at(g, s, 2);
        }
    }
}

/// An address of the sixth version ends in one of the fourth if and only if it stands for one. Any
/// other is written as its eight groups, in the shortest way.
pub proof fn law_ipv6_text_is_shortest(ip: u128)
    ensures
        ({
            let text = ip_text(IpAddr::V6(ip));
            let g = groups_of(text, 8);
            &&& text.contains('.') <==> ip / 0x1_0000_0000 == 0xffff
            &&& ip / 0x1_0000_0000 != 0xffff ==> g.len() == 8 && groups_value(g) == ip
                && is_shortest(text, g)
        }),
{
    let g = groups(ip);
    lemma_groups_value(ip);
    if is_mapped(ip) {
        let last = (ip % 0x1_0000_0000) as u32;
        lemma_ipv4(last);
        lemma_join("::ffff:"@, ipv4_text(last));
    } else if exists|s: int| zero_run(g, s, 2) {
        let any = choose|s: int| zero_run(g, s, 2);
        lemma_longest_zero_run(g, any, 2);
        let (start, len) = choose|s: int, l: int| longest_zero_run(g, s, l);
        lemma_with_colons(g.take(start), g.skip(start + len), 8);
        assert(g.take(start) + zeros(len) + g.skip(start + len) =~= g);
        lemma_shortest_with_colons(g, start, len);
    } else {
        lemma_joined(g);
        lemma_shortest_without_colons(g);
    }
}

proof fn lemma_zeros_at(g: Seq<u16>, start: int, len: int)
    requires
        zeros_at(g, start, len),
    ensures
        zero_run(g, start, len),
{
    assert forall|i: int| start <= i < start + len implies g[i] == 0 by {
        assert(g.subrange(start, start + len)[i - start] == 0);
    }
}

/// Two colons among groups stand at one place alone.
proof fn lemma_place_of_colons(left: Seq<u16>, right: Seq<u16>)
    ensures
        forall|p: int| #[trigger]
            colons_at(joined(left) + "::"@ + joined(right), p) <==> p == joined(left).len(),
{
    reveal_strlit("::");
    lemma_joined(left);
    lemma_joined(right);
    let (l, r) = (joined(left), joined(right));
    let text = l + "::"@ + r;
    let at = l.len() as int;
    assert forall|p: int| #[trigger] colons_at(text, p) <==> p == at by {
        if colons_at(text, p) {
            if p + 1 < at {
                assert(colons_at(l, p));
            }
            if p > at + 1 {
                assert(colons_at(r, p - at - 2));
            }
        }
    }
}

/// The text of a socket address is that of its address and, behind a colon, that of its port. An
/// address of the sixth version stands in brackets, and within them, behind a percent sign, a scope
/// other than zero.
pub proof fn law_socket_texts_hold_address_and_port(
    ip4: u32,
    ip6: u128,
    port: u16,
    flowinfo: u32,
    scope_id: u32,
)
    ensures
        ({
            let port_chars = number_text(port as nat, 10);
            let v4 = SocketAddr::V4 { ip: ip4, port };
            let v6 = SocketAddr::V6 { ip: ip6, port, flowinfo, scope_id };
            &&& v4.spec_ip() == IpAddr::V4(ip4)
            &&& v4.spec_port() == port
            &&& v6.spec_ip() == IpAddr::V6(ip6)
            &&& v6.spec_port() == port
            &&& socket_addr_text(v4) == ip_text(IpAddr::V4(ip4)) + seq![':'] + port_chars
            &&& scope_id == 0 ==> socket_addr_text(v6) == seq!['['] + ip_text(IpAddr::V6(ip6))
                + seq![']', ':'] + port_chars
            &&& scope_id != 0 ==> socket_addr_text(v6) == seq!['['] + ip_text(IpAddr::V6(ip6))
                + seq!['%'] + number_text(scope_id as nat, 10) + seq![']', ':'] + port_chars
        }),
{
    reveal_strlit(":");
    reveal_strlit("[");
    reveal_strlit("%");
    reveal_strlit("]:");
    let v6 = SocketAddr::V6 { ip: ip6, port, flowinfo, scope_id };
    let port_chars = number_text(port as nat, 10);
    if scope_id == 0 {
        assert(socket_addr_text(v6) =~= seq!['['] + ip_text(IpAddr::V6(ip6)) + seq![']', ':']
            + port_chars);
    } else {
        assert(socket_addr_text(v6) =~= seq!['['] + ip_text(IpAddr::V6(ip6)) + seq!['%']
            + number_text(scope_id as nat, 10) + seq![']', ':'] + port_chars);
    }
}

} // verus!
