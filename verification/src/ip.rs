//! The library's own address type for management addresses: the raw network
//! octets of an IPv4 or IPv6 address, with their canonical textual renderings.

use vstd::prelude::*;
use vstd::string::StringExecFns;

use crate::render::spec_dec;
use crate::render;

verus! {

broadcast use vstd::array::group_array_axioms;

/// A management address: the four octets of an IPv4 address, or the sixteen
/// octets of an IPv6 address, in network order.
#[derive(Debug, Clone, Copy, PartialEq, Eq)]
pub enum IpAddress {
    V4([u8; 4]),
    V6([u8; 16]),
}

impl IpAddress {
    /// The address octets in network order: four or sixteen of them.
    pub open spec fn spec_octets(self) -> Seq<u8> {
        match self {
            IpAddress::V4(a) => a@,
            IpAddress::V6(a) => a@,
        }
    }

    /// True of an IPv4 address.
    pub open spec fn spec_is_v4(self) -> bool {
        self is V4
    }

    /// True of an IPv4 address.
    pub fn is_ipv4(&self) -> (r: bool)
        ensures
            r == self.spec_is_v4(),
    {
        match self {
            IpAddress::V4(_) => true,
            IpAddress::V6(_) => false,
        }
    }

    /// True of an IPv6 address.
    pub fn is_ipv6(&self) -> (r: bool)
        ensures
            r == !self.spec_is_v4(),
    {
        match self {
            IpAddress::V4(_) => false,
            IpAddress::V6(_) => true,
        }
    }

    /// The canonical textual form: dotted decimal for IPv4; for IPv6 the
    /// lowercase hexadecimal groups with the leftmost longest run of two or
    /// more zero groups compressed to a double colon.
    pub open spec fn spec_render(self) -> Seq<char> {
        match self {
            IpAddress::V4(a) => spec_render_v4(a@),
            IpAddress::V6(a) => spec_render_v6(a@),
        }
    }

    /// Renders the address in its canonical textual form.
    pub fn render(&self) -> (s: String)
        ensures
            s@ == self.spec_render(),
    {
        match self {
            IpAddress::V4(a) => render_v4(a),
            IpAddress::V6(a) => render_v6(a),
        }
    }
}

/// The dotted-decimal form of four address octets.
pub open spec fn spec_render_v4(a: Seq<u8>) -> Seq<char>
    recommends
        a.len() == 4,
{
    spec_dec(a[0] as nat) + "."@ + spec_dec(a[1] as nat) + "."@ + spec_dec(a[2] as nat) + "."@
        + spec_dec(a[3] as nat)
}

/// The lowercase hexadecimal digit character for a value below sixteen.
pub open spec fn spec_hex_digit_lower(d: nat) -> char
    recommends
        d < 16,
{
    if d < 10 {
        render::spec_dec_digit(d)
    } else if d == 10 {
        'a'
    } else if d == 11 {
        'b'
    } else if d == 12 {
        'c'
    } else if d == 13 {
        'd'
    } else if d == 14 {
        'e'
    } else {
        'f'
    }
}

/// A 16-bit group as lowercase hexadecimal without leading zeroes.
pub open spec fn spec_hex_u16_lower(v: u16) -> Seq<char> {
    if v < 16 {
        seq![spec_hex_digit_lower(v as nat)]
    } else if v < 256 {
        seq![spec_hex_digit_lower((v / 16) as nat), spec_hex_digit_lower((v % 16) as nat)]
    } else if v < 4096 {
        seq![
            spec_hex_digit_lower((v / 256) as nat),
            spec_hex_digit_lower(((v / 16) % 16) as nat),
            spec_hex_digit_lower((v % 16) as nat),
        ]
    } else {
        seq![
            spec_hex_digit_lower((v / 4096) as nat),
            spec_hex_digit_lower(((v / 256) % 16) as nat),
            spec_hex_digit_lower(((v / 16) % 16) as nat),
            spec_hex_digit_lower((v % 16) as nat),
        ]
    }
}

/// The eight 16-bit groups of sixteen address octets, big-endian.
pub open spec fn spec_groups(a: Seq<u8>) -> Seq<u16>
    recommends
        a.len() == 16,
{
    Seq::new(8, |i: int| (a[2 * i] * 256 + a[2 * i + 1]) as u16)
}

/// How many zero groups stand in a row from the given index on.
pub open spec fn spec_zero_run_len(g: Seq<u16>, i: int) -> int
    recommends
        0 <= i <= g.len(),
    decreases g.len() - i,
    when 0 <= i <= g.len()
{
    if i < g.len() && g[i] == 0 {
        1 + spec_zero_run_len(g, i + 1)
    } else {
        0
    }
}

/// The start and length of the leftmost longest run of zero groups beginning
/// at the given index or later.
pub open spec fn spec_best_zero_run(g: Seq<u16>, i: int) -> (int, int)
    recommends
        0 <= i <= g.len(),
    decreases g.len() - i,
    when 0 <= i <= g.len()
{
    if i >= g.len() {
        (g.len() as int, 0)
    } else {
        let cur = spec_zero_run_len(g, i);
        let rest = spec_best_zero_run(g, i + 1);
        if cur >= rest.1 {
            (i, cur)
        } else {
            rest
        }
    }
}

/// The groups from `from` (inclusive) to `to` (exclusive), each in lowercase
/// hexadecimal, joined with colons.
pub open spec fn spec_join_groups(g: Seq<u16>, from: int, to: int) -> Seq<char>
    recommends
        0 <= from <= to <= g.len(),
    decreases to - from,
    when from <= to
{
    if from >= to {
        seq![]
    } else if from == to - 1 {
        spec_hex_u16_lower(g[from])
    } else {
        spec_hex_u16_lower(g[from]) + ":"@ + spec_join_groups(g, from + 1, to)
    }
}

/// The canonical textual form of sixteen address octets: the eight groups in
/// lowercase hexadecimal, with the leftmost longest run of at least two zero
/// groups compressed to a double colon.
pub open spec fn spec_render_v6(a: Seq<u8>) -> Seq<char>
    recommends
        a.len() == 16,
{
    let g = spec_groups(a);
    let run = spec_best_zero_run(g, 0);
    if run.1 >= 2 {
        spec_join_groups(g, 0, run.0) + "::"@ + spec_join_groups(g, run.0 + run.1, 8)
    } else {
        spec_join_groups(g, 0, 8)
    }
}

/// Renders four address octets in dotted decimal.
fn render_v4(a: &[u8; 4]) -> (s: String)
    ensures
        s@ == spec_render_v4(a@),
{
    let mut s = String::new();
    render::append_dec_u32(&mut s, a[0] as u32);
    s.append(".");
    render::append_dec_u32(&mut s, a[1] as u32);
    s.append(".");
    render::append_dec_u32(&mut s, a[2] as u32);
    s.append(".");
    render::append_dec_u32(&mut s, a[3] as u32);
    proof {
        assert(s@ =~= spec_render_v4(a@));
    }
    s
}

/// Appends one lowercase hexadecimal digit character.
fn append_hex_digit_lower(out: &mut String, d: u8)
    requires
        d < 16,
    ensures
        final(out)@ == old(out)@ + seq![spec_hex_digit_lower(d as nat)],
{
    if d < 10 {
        render::append_dec_u32(out, d as u32);
    } else {
        proof {
            reveal_strlit("a");
            reveal_strlit("b");
            reveal_strlit("c");
            reveal_strlit("d");
            reveal_strlit("e");
            reveal_strlit("f");
        }
        if d == 10 {
            out.append("a");
        } else if d == 11 {
            out.append("b");
        } else if d == 12 {
            out.append("c");
        } else if d == 13 {
            out.append("d");
        } else if d == 14 {
            out.append("e");
        } else {
            out.append("f");
        }
    }
    proof {
        assert(out@ =~= old(out)@ + seq![spec_hex_digit_lower(d as nat)]);
    }
}

/// Appends a 16-bit group as lowercase hexadecimal without leading zeroes.
fn append_hex_u16_lower(out: &mut String, v: u16)
    ensures
        final(out)@ == old(out)@ + spec_hex_u16_lower(v),
{
    if v >= 4096 {
        append_hex_digit_lower(out, (v / 4096) as u8);
    }
    if v >= 256 {
        append_hex_digit_lower(out, ((v / 256) % 16) as u8);
    }
    if v >= 16 {
        append_hex_digit_lower(out, ((v / 16) % 16) as u8);
    }
    append_hex_digit_lower(out, (v % 16) as u8);
    proof {
        if v < 16 {
        } else if v < 256 {
            assert(v / 16 == (v / 16) % 16) by (nonlinear_arith)
                requires
                    16 <= v < 256,
            ;
        } else if v < 4096 {
            assert(v / 256 == (v / 256) % 16) by (nonlinear_arith)
                requires
                    256 <= v < 4096,
            ;
        }
        assert(out@ =~= old(out)@ + spec_hex_u16_lower(v));
    }
}

/// The number of zero groups standing in a row from the given index on.
fn zero_run_len(g: &Vec<u16>, i: usize) -> (n: usize)
    requires
        g@.len() == 8,
        i <= 8,
    ensures
        n == spec_zero_run_len(g@, i as int),
        n <= 8 - i,
    decreases 8 - i,
{
    if i < 8 && g[i] == 0 {
        1 + zero_run_len(g, i + 1)
    } else {
        0
    }
}

/// The start and length of the leftmost longest run of zero groups beginning
/// at the given index or later.
fn best_zero_run(g: &Vec<u16>, i: usize) -> (r: (usize, usize))
    requires
        g@.len() == 8,
        i <= 8,
    ensures
        (r.0 as int, r.1 as int) == spec_best_zero_run(g@, i as int),
        i <= r.0 <= 8,
        r.1 <= 8 - r.0,
    decreases 8 - i,
{
    if i >= 8 {
        (8, 0)
    } else {
        let cur = zero_run_len(g, i);
        let rest = best_zero_run(g, i + 1);
        if cur >= rest.1 {
            (i, cur)
        } else {
            rest
        }
    }
}

/// Appends the groups from `from` (inclusive) to `to` (exclusive), each in
/// lowercase hexadecimal, joined with colons.
fn append_groups(out: &mut String, g: &Vec<u16>, from: usize, to: usize)
    requires
        g@.len() == 8,
        from <= to <= 8,
    ensures
        final(out)@ == old(out)@ + spec_join_groups(g@, from as int, to as int),
    decreases to - from,
{
    if from < to {
        append_hex_u16_lower(out, g[from]);
        if from + 1 < to {
            out.append(":");
            append_groups(out, g, from + 1, to);
        }
    }
    proof {
        assert(out@ =~= old(out)@ + spec_join_groups(g@, from as int, to as int));
    }
}

/// Renders sixteen address octets in the canonical IPv6 textual form.
fn render_v6(a: &[u8; 16]) -> (s: String)
    ensures
        s@ == spec_render_v6(a@),
{
    let mut groups: Vec<u16> = Vec::new();
    let mut i: usize = 0;
    while i < 8
        invariant
            i <= 8,
            groups@.len() == i,
            forall|j: int| 0 <= j < i ==> groups@[j] == spec_groups(a@)[j],
        decreases 8 - i,
    {
        groups.push((a[2 * i] as u16) * 256 + (a[2 * i + 1] as u16));
        i = i + 1;
    }
    proof {
        assert(groups@ =~= spec_groups(a@));
    }
    let run = best_zero_run(&groups, 0);
    let mut s = String::new();
    if run.1 >= 2 {
        append_groups(&mut s, &groups, 0, run.0);
        s.append("::");
        append_groups(&mut s, &groups, run.0 + run.1, 8);
    } else {
        append_groups(&mut s, &groups, 0, 8);
    }
    proof {
        assert(s@ =~= spec_render_v6(a@));
    }
    s
}

} // verus!
