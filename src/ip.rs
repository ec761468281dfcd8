//! The text forms of IP addresses.
use vstd::prelude::*;

use crate::text::{decimal, hex_min, push_char, push_decimal, push_digit_min};

verus! {

/// Dotted-decimal form of an IPv4 address held as a big-endian integer.
pub open spec fn ipv4_text(ip: u32) -> Seq<char> {
    decimal((ip / 0x100_0000) as nat) + seq!['.'] + decimal(((ip / 0x1_0000) % 256) as nat) + seq![
        '.',
    ] + decimal(((ip / 256) % 256) as nat) + seq!['.'] + decimal((ip % 256) as nat)
}

/// Appends the dotted-decimal form of an IPv4 address.
pub fn push_ipv4(out: &mut String, ip: u32)
    ensures
        final(out)@ == old(out)@ + ipv4_text(ip),
{
    push_decimal(out, (ip / 0x100_0000) as u64);
    push_char(out, '.');
    push_decimal(out, ((ip / 0x1_0000) % 256) as u64);
    push_char(out, '.');
    push_decimal(out, ((ip / 256) % 256) as u64);
    push_char(out, '.');
    push_decimal(out, (ip % 256) as u64);
    assert(final(out)@ =~= old(out)@ + ipv4_text(ip));
}

/// The `n` low 16-bit groups of `ip`, most significant first.
pub open spec fn segments(ip: nat, n: nat) -> Seq<u16>
    decreases n,
{
    if n == 0 {
        seq![]
    } else {
        segments(ip / 0x1_0000, (n - 1) as nat).push((ip % 0x1_0000) as u16)
    }
}

/// Groups in hexadecimal, separated by colons.
pub open spec fn hex_groups(s: Seq<u16>) -> Seq<char>
    decreases s.len(),
{
    if s.len() == 0 {
        seq![]
    } else if s.len() == 1 {
        hex_min(s[0] as nat)
    } else {
        hex_groups(s.drop_last()) + seq![':'] + hex_min(s.last() as nat)
    }
}

/// The first of the longest runs of zero groups in `s`, as (start,
/// length), scanning from `i` with the run in progress and the best run
/// found so far.
pub open spec fn zero_run(s: Seq<u16>, i: nat, cur: (nat, nat), best: (nat, nat)) -> (nat, nat)
    decreases s.len() - i,
{
    if i >= s.len() {
        best
    } else if s[i as int] == 0 {
        let next: (nat, nat) = if cur.1 == 0 { (i, 1) } else { (cur.0, cur.1 + 1) };
        zero_run(s, i + 1, next, if next.1 > best.1 { next } else { best })
    } else {
        zero_run(s, i + 1, (0, 0), best)
    }
}

/// Whether the address is an IPv4 address mapped into IPv6
/// (`::ffff:a.b.c.d`).
pub open spec fn is_ipv4_mapped(s: Seq<u16>) -> bool {
    s[0] == 0 && s[1] == 0 && s[2] == 0 && s[3] == 0 && s[4] == 0 && s[5] == 0xffff
}

/// The text form of an IPv6 address: a mapped IPv4 address as
/// `::ffff:` and its dotted form; otherwise the groups in hexadecimal,
/// with the first longest run of two or more zero groups written `::`.
pub open spec fn ipv6_text(ip: u128) -> Seq<char> {
    let s = segments(ip as nat, 8);
    let run = zero_run(s, 0, (0, 0), (0, 0));
    if is_ipv4_mapped(s) {
        seq![':', ':', 'f', 'f', 'f', 'f', ':'] + ipv4_text((ip % 0x1_0000_0000) as u32)
    } else if run.1 > 1 {
        hex_groups(s.take(run.0 as int)) + seq![':', ':'] + hex_groups(s.skip((run.0 + run.1) as int))
    } else {
        hex_groups(s)
    }
}

proof fn lemma_segments_len(ip: nat, n: nat)
    ensures
        segments(ip, n).len() == n,
    decreases n,
{
    if n > 0 {
        lemma_segments_len(ip / 0x1_0000, (n - 1) as nat);
    }
}

proof fn lemma_zero_run_bound(s: Seq<u16>, i: nat, cur: (nat, nat), best: (nat, nat))
    requires
        i <= s.len(),
        best.0 + best.1 <= i,
        cur.0 + cur.1 <= i,
    ensures
        ({
            let r = zero_run(s, i, cur, best);
            r.0 + r.1 <= s.len()
        }),
    decreases s.len() - i,
{
    if i < s.len() {
        if s[i as int] == 0 {
            let next: (nat, nat) = if cur.1 == 0 { (i, 1) } else { (cur.0, cur.1 + 1) };
            lemma_zero_run_bound(s, i + 1, next, if next.1 > best.1 { next } else { best });
        } else {
            lemma_zero_run_bound(s, i + 1, (0, 0), best);
        }
    }
}

fn segments_of(ip: u128, n: usize) -> (r: Vec<u16>)
    ensures
        r@ == segments(ip as nat, n as nat),
    decreases n,
{
    if n == 0 {
        Vec::new()
    } else {
        let mut r = segments_of(ip / 0x1_0000, n - 1);
        r.push((ip % 0x1_0000) as u16);
        r
    }
}

/// Appends `s[from..to]` in hexadecimal, separated by colons.
fn push_groups(out: &mut String, s: &Vec<u16>, from: usize, to: usize)
    requires
        from <= to <= s@.len(),
    ensures
        final(out)@ == old(out)@ + hex_groups(s@.subrange(from as int, to as int)),
{
    let ghost start = out@;
    let mut i = from;
    while i < to
        invariant
            from <= i <= to <= s@.len(),
            out@ == start + hex_groups(s@.subrange(from as int, i as int)),
        decreases to - i,
    {
        if i > from {
            push_char(out, ':');
        }
        push_digit_min(out, s[i] as u64);
        let ghost t = s@.subrange(from as int, i + 1);
        assert(t.drop_last() =~= s@.subrange(from as int, i as int));
        i = i + 1;
        assert(out@ =~= start + hex_groups(s@.subrange(from as int, i as int)));
    }
}

/// Appends the text form of an IPv6 address.
pub fn push_ipv6(out: &mut String, ip: u128)
    ensures
        final(out)@ == old(out)@ + ipv6_text(ip),
{
    let s = segments_of(ip, 8);
    proof {
        lemma_segments_len(ip as nat, 8);
    }
    if s[0] == 0 && s[1] == 0 && s[2] == 0 && s[3] == 0 && s[4] == 0 && s[5] == 0xffff {
        out.append("::ffff:");
        proof {
            reveal_strlit("::ffff:");
        }
        push_ipv4(out, (ip % 0x1_0000_0000) as u32);
        return;
    }
    let mut cur: (usize, usize) = (0, 0);
    let mut best: (usize, usize) = (0, 0);
    let mut i: usize = 0;
    while i < 8
        invariant
            s@ == segments(ip as nat, 8),
            s@.len() == 8,
            i <= 8,
            cur.0 + cur.1 <= i,
            best.0 + best.1 <= i,
            zero_run(s@, 0, (0, 0), (0, 0)) == zero_run(
                s@,
                i as nat,
                (cur.0 as nat, cur.1 as nat),
                (best.0 as nat, best.1 as nat),
            ),
        decreases 8 - i,
    {
        if s[i] == 0 {
            cur = if cur.1 == 0 { (i, 1) } else { (cur.0, cur.1 + 1) };
            if cur.1 > best.1 {
                best = cur;
            }
        } else {
            cur = (0, 0);
        }
        i = i + 1;
    }
    if best.1 > 1 {
        push_groups(out, &s, 0, best.0);
        out.append("::");
        proof {
            reveal_strlit("::");
        }
        push_groups(out, &s, best.0 + best.1, 8);
        assert(s@.subrange(0, best.0 as int) =~= s@.take(best.0 as int));
        assert(s@.subrange((best.0 + best.1) as int, 8) =~= s@.skip((best.0 + best.1) as int));
    } else {
        push_groups(out, &s, 0, 8);
        assert(s@.subrange(0, 8) =~= s@);
    }
}

} // verus!
