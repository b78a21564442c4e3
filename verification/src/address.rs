//! Network addresses of peers and their text.

use crate::text::{decimal, hexadecimal, push_numeral};
use vstd::prelude::*;

verus! {

/// The address of a remote endpoint: the four octets of an IPv4 address or the eight
/// groups of an IPv6 address, first one first.
#[derive(Clone, Copy, Debug, PartialEq, Eq, Hash, Structural)]
pub enum IpAddress {
    V4(u8, u8, u8, u8),
    V6(u16, u16, u16, u16, u16, u16, u16, u16),
}

/// Four octets in dotted decimal notation.
pub open spec fn dotted_quad(o: Seq<u8>) -> Seq<char>
    recommends
        o.len() == 4,
{
    decimal(o[0] as nat) + "."@ + decimal(o[1] as nat) + "."@ + decimal(o[2] as nat) + "."@
        + decimal(o[3] as nat)
}

/// Groups in hexadecimal with a colon between one and the next.
pub open spec fn colon_joined(g: Seq<u16>) -> Seq<char>
    decreases g.len(),
{
    if g.len() == 0 {
        Seq::empty()
    } else if g.len() == 1 {
        hexadecimal(g[0] as nat)
    } else {
        colon_joined(g.drop_last()) + ":"@ + hexadecimal(g.last() as nat)
    }
}

/// Whether the `len` groups from `start` on all lie before `end` and are all zero.
pub open spec fn is_zero_run(g: Seq<u16>, start: int, len: int, end: int) -> bool {
    &&& 0 <= start
    &&& 0 <= len
    &&& start + len <= end <= g.len()
    &&& forall|i: int| start <= i < start + len ==> g[i] == 0
}

/// Whether the `len` groups from `start` on are the longest run of zero groups before
/// `end`, and the first of that length.
pub open spec fn is_longest_zero_run(g: Seq<u16>, start: int, len: int, end: int) -> bool {
    &&& is_zero_run(g, start, len, end)
    &&& forall|s: int, l: int| #[trigger]
        is_zero_run(g, s, l, end) ==> l < len || (l == len && start <= s)
}

/// The longest run of zero groups of an address, as its start and its length.
pub open spec fn longest_zero_run(g: Seq<u16>) -> (int, int) {
    choose|run: (int, int)| is_longest_zero_run(g, run.0, run.1, g.len() as int)
}

/// Whether the groups are those of an IPv4 address mapped into IPv6: five zero groups
/// and one of all ones, before the 32 bits of the address.
pub open spec fn is_mapped(g: Seq<u16>) -> bool {
    g[0] == 0 && g[1] == 0 && g[2] == 0 && g[3] == 0 && g[4] == 0 && g[5] == 0xffff
}

/// The text of an IPv6 address. The longest run of two or more zero groups is
/// written as `::`, the first one where two are equally long; an IPv4 address mapped
/// into IPv6 is written as `::ffff:` and its dotted quad.
pub open spec fn ipv6_text(g: Seq<u16>) -> Seq<char>
    recommends
        g.len() == 8,
{
    if is_mapped(g) {
        "::ffff:"@ + dotted_quad(
            seq![
                (g[6] / 0x100) as u8,
                (g[6] % 0x100) as u8,
                (g[7] / 0x100) as u8,
                (g[7] % 0x100) as u8,
            ],
        )
    } else {
        let (start, len) = longest_zero_run(g);
        if len >= 2 {
            colon_joined(g.take(start)) + "::"@ + colon_joined(g.skip(start + len))
        } else {
            colon_joined(g)
        }
    }
}

/// There is one longest zero run, so whichever is found is the one that the text
/// is written with.
pub proof fn lemma_longest_zero_run_is_unique(g: Seq<u16>, start: int, len: int)
    requires
        is_longest_zero_run(g, start, len, g.len() as int),
    ensures
        longest_zero_run(g) == (start, len),
{
    let found = (start, len);
    assert(is_longest_zero_run(g, found.0, found.1, g.len() as int));
}

impl IpAddress {
    /// The address as it is shown.
    pub open spec fn text(self) -> Seq<char> {
        match self {
            IpAddress::V4(a, b, c, d) => dotted_quad(seq![a, b, c, d]),
            IpAddress::V6(a, b, c, d, e, f, g, h) => ipv6_text(seq![a, b, c, d, e, f, g, h]),
        }
    }

    /// Writes the address out.
    pub fn to_text(&self) -> (text: String)
        ensures
            text@ == self.text(),
    {
        let mut text = String::new();
        match *self {
            IpAddress::V4(a, b, c, d) => {
                push_dotted_quad(&mut text, a, b, c, d);
            },
            IpAddress::V6(a, b, c, d, e, f, g, h) => {
                let groups: Vec<u16> = vec![a, b, c, d, e, f, g, h];
                assert(groups@ =~= seq![a, b, c, d, e, f, g, h]);
                push_ipv6(&mut text, &groups);
            },
        }
        text
    }
}

/// Appends the text of the IPv6 address with the given groups.
fn push_ipv6(out: &mut String, g: &Vec<u16>)
    requires
        g@.len() == 8,
    ensures
        final(out)@ == old(out)@ + ipv6_text(g@),
{
    if g[0] == 0 && g[1] == 0 && g[2] == 0 && g[3] == 0 && g[4] == 0 && g[5] == 0xffff {
        out.append("::ffff:");
        push_dotted_quad(
            out,
            (g[6] / 0x100) as u8,
            (g[6] % 0x100) as u8,
            (g[7] / 0x100) as u8,
            (g[7] % 0x100) as u8,
        );
    } else {
        let (start, len) = find_longest_zero_run(g);
        proof {
            lemma_longest_zero_run_is_unique(g@, start as int, len as int);
        }
        if len >= 2 {
            push_colon_joined(out, g, 0, start);
            out.append("::");
            push_colon_joined(out, g, start + len, 8);
            assert(g@.subrange(0, start as int) =~= g@.take(start as int));
            assert(g@.subrange(start + len, 8) =~= g@.skip(start + len));
        } else {
            push_colon_joined(out, g, 0, 8);
            assert(g@.subrange(0, 8) =~= g@);
        }
    }
}

/// Appends four octets in dotted decimal notation.
fn push_dotted_quad(out: &mut String, a: u8, b: u8, c: u8, d: u8)
    ensures
        final(out)@ == old(out)@ + dotted_quad(seq![a, b, c, d]),
{
    push_numeral(out, a as u128, 10);
    out.append(".");
    push_numeral(out, b as u128, 10);
    out.append(".");
    push_numeral(out, c as u128, 10);
    out.append(".");
    push_numeral(out, d as u128, 10);
}

/// Finds the longest run of zero groups, and the first of the longest.
fn find_longest_zero_run(g: &Vec<u16>) -> (run: (usize, usize))
    ensures
        is_longest_zero_run(g@, run.0 as int, run.1 as int, g@.len() as int),
{
    let mut best_start: usize = 0;
    let mut best_len: usize = 0;
    let mut start: usize = 0;
    let mut i: usize = 0;
    while i < g.len()
        invariant
            i <= g.len(),
            start <= i,
            is_zero_run(g@, start as int, i - start, i as int),
            start == 0 || g@[start - 1] != 0,
            is_longest_zero_run(g@, best_start as int, best_len as int, i as int),
            best_len == 0 ==> best_start == 0,
        decreases g.len() - i,
    {
        if g[i] == 0 {
            if i + 1 - start > best_len {
                best_start = start;
                best_len = i + 1 - start;
            }
        } else {
            start = i + 1;
        }
        i += 1;
        proof {
            assert forall|s: int, l: int| #[trigger]
                is_zero_run(g@, s, l, i as int) implies l < best_len || (l == best_len
                && best_start <= s) by {
                if s + l < i {
                    assert(is_zero_run(g@, s, l, i - 1));
                }
            }
        }
    }
    (best_start, best_len)
}

/// Appends the groups from `from` up to `to` in hexadecimal, with colons between
/// them.
fn push_colon_joined(out: &mut String, g: &Vec<u16>, from: usize, to: usize)
    requires
        from <= to <= g@.len(),
    ensures
        final(out)@ == old(out)@ + colon_joined(g@.subrange(from as int, to as int)),
{
    let mut i: usize = from;
    while i < to
        invariant
            from <= i <= to <= g@.len(),
            out@ == old(out)@ + colon_joined(g@.subrange(from as int, i as int)),
        decreases to - i,
    {
        if i > from {
            out.append(":");
        }
        push_numeral(out, g[i] as u128, 16);
        proof {
            let next = g@.subrange(from as int, i + 1);
            assert(next.drop_last() =~= g@.subrange(from as int, i as int));
        }
        i += 1;
    }
}

} // verus!
