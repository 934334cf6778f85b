//! The spellings of IP addresses and address ranges that the library reads:
//! an IPv4 address as four decimal numbers, an IPv6 address as groups of
//! hexadecimal digits, and either with the length of a prefix behind a `/`.
//! An IPv6 address that stands for an IPv4 address is not among them.

use vstd::prelude::*;
use crate::number::{digits_at_most, parse_digits};
use crate::text::{find_char, is_white_space, split_once, split_once_at, to_chars, white_space};

verus! {

/// A hexadecimal digit.
pub open spec fn hex_digit(c: char) -> bool {
    ('0' <= c && c <= '9') || ('a' <= c && c <= 'f') || ('A' <= c && c <= 'F')
}

/// The hexadecimal digit of the value fifteen.
pub open spec fn is_f(c: char) -> bool {
    c == 'f' || c == 'F'
}

/// One group of an IPv6 address: one to four hexadecimal digits.
pub open spec fn hex_group(g: Seq<char>) -> bool {
    &&& 1 <= g.len() <= 4
    &&& forall|i: int| 0 <= i < g.len() ==> hex_digit(#[trigger] g[i])
}

/// A group of the value zero.
pub open spec fn zero_group(g: Seq<char>) -> bool {
    forall|i: int| 0 <= i < g.len() ==> #[trigger] g[i] == '0'
}

/// The group of the greatest value, `ffff`.
pub open spec fn ffff_group(g: Seq<char>) -> bool {
    g.len() == 4 && is_f(g[0]) && is_f(g[1]) && is_f(g[2]) && is_f(g[3])
}

/// A decimal number of at most `digits` digits and of at most the value
/// `max`.
pub open spec fn small_number(t: Seq<char>, digits: nat, max: u64) -> bool {
    t.len() <= digits && digits_at_most(t, max) is Some
}

/// The pieces of `s` from position `i` on that the character `c` sets
/// apart; between two `c` side by side, and before a leading or behind a
/// trailing one, stands an empty piece.
pub open spec fn pieces_from(s: Seq<char>, c: char, i: int) -> Seq<Seq<char>>
    decreases s.len() - i,
{
    let j = find_char(s, c, i);
    if 0 <= i <= j < s.len() {
        seq![s.subrange(i, j)] + pieces_from(s, c, j + 1)
    } else {
        seq![s.subrange(i, s.len() as int)]
    }
}

/// The pieces of `s` that the character `c` sets apart.
pub open spec fn pieces(s: Seq<char>, c: char) -> Seq<Seq<char>> {
    pieces_from(s, c, 0)
}

/// An IPv4 address: four decimal numbers of at most three digits and at
/// most 255, set apart by dots.
pub open spec fn dotted_quad(a: Seq<char>) -> bool {
    let p = pieces(a, '.');
    p.len() == 4 && forall|k: int| 0 <= k < p.len() ==> small_number(#[trigger] p[k], 3, 255)
}

/// The groups that `t` holds, set apart by colons; the empty text holds
/// none.
pub open spec fn groups_of(t: Seq<char>) -> Seq<Seq<char>> {
    if t.len() == 0 {
        Seq::empty()
    } else {
        pieces(t, ':')
    }
}

/// Each of `p` is a group.
pub open spec fn all_hex_groups(p: Seq<Seq<char>>) -> bool {
    forall|k: int| 0 <= k < p.len() ==> hex_group(#[trigger] p[k])
}

/// The group at place `k` of the eight of an address that is written with
/// the groups `before` in front and the groups `after` at the end, and
/// zeros between them.
pub open spec fn group_at(before: Seq<Seq<char>>, after: Seq<Seq<char>>, k: int) -> Seq<char> {
    if k < before.len() {
        before[k]
    } else if k >= 8 - after.len() {
        after[k - (8 - after.len())]
    } else {
        seq!['0']
    }
}

/// The address stands for an IPv4 address: its first five groups are zero
/// and the sixth is `ffff`.
pub open spec fn stands_for_ipv4(before: Seq<Seq<char>>, after: Seq<Seq<char>>) -> bool {
    &&& forall|k: int| 0 <= k < 5 ==> zero_group(#[trigger] group_at(before, after, k))
    &&& ffff_group(group_at(before, after, 5))
}

/// The position of the first two colons side by side at or after `i`, or
/// the length of `s` when there are none.
pub open spec fn double_colon(s: Seq<char>, i: int) -> int
    decreases s.len() - i,
{
    if 0 <= i && i + 1 < s.len() {
        if s[i] == ':' && s[i + 1] == ':' {
            i
        } else {
            double_colon(s, i + 1)
        }
    } else {
        s.len() as int
    }
}

/// The groups in front of the two colons side by side, or all groups where
/// there are none.
pub open spec fn groups_before(a: Seq<char>) -> Seq<Seq<char>> {
    let at = double_colon(a, 0);
    if at < a.len() {
        groups_of(a.subrange(0, at))
    } else {
        groups_of(a)
    }
}

/// The groups behind the two colons side by side.
pub open spec fn groups_after(a: Seq<char>) -> Seq<Seq<char>> {
    let at = double_colon(a, 0);
    if at < a.len() {
        groups_of(a.subrange(at + 2, a.len() as int))
    } else {
        Seq::empty()
    }
}

/// An IPv6 address: eight groups set apart by colons, or at most seven
/// groups with two colons side by side in one place, where the groups that
/// are zero are left out. An address that stands for an IPv4 address is
/// none.
pub open spec fn grouped_hex(a: Seq<char>) -> bool {
    let before = groups_before(a);
    let after = groups_after(a);
    &&& all_hex_groups(before)
    &&& all_hex_groups(after)
    &&& if double_colon(a, 0) < a.len() {
        before.len() + after.len() <= 7
    } else {
        before.len() == 8
    }
    &&& !stands_for_ipv4(before, after)
}

/// An address or a range of addresses in a spelling that the library reads:
/// an IPv4 or IPv6 address, alone or with a prefix length behind a `/` that
/// is at most 32 or 128.
pub open spec fn plain_address(s: Seq<char>) -> bool {
    match split_once_at(s, '/') {
        None => dotted_quad(s) || grouped_hex(s),
        Some((a, p)) => (dotted_quad(a) && small_number(p, 2, 32)) || (grouped_hex(a)
            && small_number(p, 3, 128)),
    }
}

/// The views of a vector of character vectors, in order.
pub open spec fn char_rows(v: Seq<Vec<char>>) -> Seq<Seq<char>> {
    v.map_values(|row: Vec<char>| row@)
}

fn part(chars: &Vec<char>, lo: usize, hi: usize) -> (out: Vec<char>)
    requires
        lo <= hi <= chars@.len(),
    ensures
        out@ == chars@.subrange(lo as int, hi as int),
{
    let mut out: Vec<char> = Vec::new();
    let mut i: usize = lo;
    while i < hi
        invariant
            lo <= i <= hi <= chars@.len(),
            out@ == chars@.subrange(lo as int, i as int),
        decreases hi - i,
    {
        out.push(chars[i]);
        assert(chars@.subrange(lo as int, i + 1) =~= chars@.subrange(lo as int, i as int).push(
            chars@[i as int],
        ));
        i += 1;
    }
    out
}

fn pieces_of(chars: &Vec<char>, c: char) -> (out: Vec<Vec<char>>)
    ensures
        char_rows(out@) == pieces(chars@, c),
{
    let n = chars.len();
    let mut out: Vec<Vec<char>> = Vec::new();
    let mut i: usize = 0;
    assert(char_rows(out@) =~= Seq::<Seq<char>>::empty());
    loop
        invariant
            n == chars@.len(),
            0 <= i <= n,
            pieces(chars@, c) == char_rows(out@) + pieces_from(chars@, c, i as int),
        decreases n - i,
    {
        let mut j: usize = i;
        while j < n && chars[j] != c
            invariant
                n == chars@.len(),
                i <= j <= n,
                find_char(chars@, c, i as int) == find_char(chars@, c, j as int),
            decreases n - j,
        {
            j += 1;
        }
        let piece = part(chars, i, j);
        proof {
            let ghost done = char_rows(out@);
            assert(char_rows(out@.push(piece)) =~= done.push(piece@));
            if j < n {
                assert(done.push(piece@) + pieces_from(chars@, c, j + 1) =~= done + (seq![piece@]
                    + pieces_from(chars@, c, j + 1)));
            } else {
                assert(done.push(piece@) =~= done + seq![piece@]);
            }
        }
        out.push(piece);
        if j >= n {
            return out;
        }
        i = j + 1;
    }
}

fn is_small_number(t: &Vec<char>, digits: usize, max: u64) -> (r: bool)
    ensures
        r == small_number(t@, digits as nat, max),
{
    assert(t@.skip(0) =~= t@);
    t.len() <= digits && parse_digits(t, 0, max).is_some()
}

fn is_hex_digit(c: char) -> (r: bool)
    ensures
        r == hex_digit(c),
{
    ('0' <= c && c <= '9') || ('a' <= c && c <= 'f') || ('A' <= c && c <= 'F')
}

fn is_hex_group(g: &Vec<char>) -> (r: bool)
    ensures
        r == hex_group(g@),
{
    let n = g.len();
    if n < 1 || n > 4 {
        return false;
    }
    let mut i: usize = 0;
    while i < n
        invariant
            n == g@.len(),
            0 <= i <= n,
            forall|k: int| 0 <= k < i ==> hex_digit(#[trigger] g@[k]),
        decreases n - i,
    {
        if !is_hex_digit(g[i]) {
            return false;
        }
        i += 1;
    }
    true
}

fn is_zero_group(g: &Vec<char>) -> (r: bool)
    ensures
        r == zero_group(g@),
{
    let mut i: usize = 0;
    while i < g.len()
        invariant
            0 <= i <= g@.len(),
            forall|k: int| 0 <= k < i ==> #[trigger] g@[k] == '0',
        decreases g@.len() - i,
    {
        if g[i] != '0' {
            return false;
        }
        i += 1;
    }
    true
}

fn is_ffff_group(g: &Vec<char>) -> (r: bool)
    ensures
        r == ffff_group(g@),
{
    g.len() == 4 && (g[0] == 'f' || g[0] == 'F') && (g[1] == 'f' || g[1] == 'F') && (g[2] == 'f'
        || g[2] == 'F') && (g[3] == 'f' || g[3] == 'F')
}

fn is_dotted_quad(a: &Vec<char>) -> (r: bool)
    ensures
        r == dotted_quad(a@),
{
    let p = pieces_of(a, '.');
    if p.len() != 4 {
        return false;
    }
    let mut k: usize = 0;
    while k < p.len()
        invariant
            0 <= k <= p@.len(),
            char_rows(p@) == pieces(a@, '.'),
            forall|m: int| 0 <= m < k ==> small_number(#[trigger] char_rows(p@)[m], 3, 255),
        decreases p@.len() - k,
    {
        assert(char_rows(p@)[k as int] == p@[k as int]@);
        if !is_small_number(&p[k], 3, 255) {
            assert(!small_number(pieces(a@, '.')[k as int], 3, 255));
            return false;
        }
        k += 1;
    }
    true
}

fn groups(t: &Vec<char>) -> (out: Vec<Vec<char>>)
    ensures
        char_rows(out@) == groups_of(t@),
{
    if t.len() == 0 {
        let out: Vec<Vec<char>> = Vec::new();
        assert(char_rows(out@) =~= Seq::<Seq<char>>::empty());
        out
    } else {
        pieces_of(t, ':')
    }
}

fn are_hex_groups(p: &Vec<Vec<char>>) -> (r: bool)
    ensures
        r == all_hex_groups(char_rows(p@)),
{
    let mut k: usize = 0;
    while k < p.len()
        invariant
            0 <= k <= p@.len(),
            forall|m: int| 0 <= m < k ==> hex_group(#[trigger] char_rows(p@)[m]),
        decreases p@.len() - k,
    {
        assert(char_rows(p@)[k as int] == p@[k as int]@);
        if !is_hex_group(&p[k]) {
            return false;
        }
        k += 1;
    }
    true
}

/// Whether the group at place `k` is zero, and whether it is `ffff`.
fn look_at(before: &Vec<Vec<char>>, after: &Vec<Vec<char>>, k: usize) -> (r: (bool, bool))
    requires
        k < 8,
        before@.len() + after@.len() <= 8,
    ensures
        r.0 == zero_group(group_at(char_rows(before@), char_rows(after@), k as int)),
        r.1 == ffff_group(group_at(char_rows(before@), char_rows(after@), k as int)),
{
    if k < before.len() {
        assert(char_rows(before@)[k as int] == before@[k as int]@);
        (is_zero_group(&before[k]), is_ffff_group(&before[k]))
    } else if k >= 8 - after.len() {
        let m: usize = k - (8 - after.len());
        assert(char_rows(after@)[m as int] == after@[m as int]@);
        (is_zero_group(&after[m]), is_ffff_group(&after[m]))
    } else {
        let ghost zero = seq!['0'];
        assert(zero_group(zero));
        assert(!ffff_group(zero));
        (true, false)
    }
}

fn does_stand_for_ipv4(before: &Vec<Vec<char>>, after: &Vec<Vec<char>>) -> (r: bool)
    requires
        before@.len() + after@.len() <= 8,
    ensures
        r == stands_for_ipv4(char_rows(before@), char_rows(after@)),
{
    let mut k: usize = 0;
    while k < 5
        invariant
            0 <= k <= 5,
            before@.len() + after@.len() <= 8,
            forall|m: int|
                0 <= m < k ==> zero_group(
                    #[trigger] group_at(char_rows(before@), char_rows(after@), m),
                ),
        decreases 5 - k,
    {
        if !look_at(before, after, k).0 {
            return false;
        }
        k += 1;
    }
    look_at(before, after, 5).1
}

fn is_grouped_hex(a: &Vec<char>) -> (r: bool)
    ensures
        r == grouped_hex(a@),
{
    let n = a.len();
    let mut at: usize = 0;
    while at < n && !(at + 1 < n && a[at] == ':' && a[at + 1] == ':')
        invariant
            n == a@.len(),
            0 <= at <= n,
            double_colon(a@, 0) == double_colon(a@, at as int),
        decreases n - at,
    {
        at += 1;
    }
    let (before, after) = if at < n {
        (groups(&part(a, 0, at)), groups(&part(a, at + 2, n)))
    } else {
        assert(a@.subrange(0, n as int) =~= a@);
        let none: Vec<Vec<char>> = Vec::new();
        assert(char_rows(none@) =~= Seq::<Seq<char>>::empty());
        (groups(&part(a, 0, n)), none)
    };
    if !are_hex_groups(&before) || !are_hex_groups(&after) {
        return false;
    }
    let counted = if at < n {
        before.len() <= 7 && after.len() <= 7 - before.len()
    } else {
        before.len() == 8
    };
    counted && !does_stand_for_ipv4(&before, &after)
}

/// The characters of which IPv4 addresses and their prefixes are written,
/// with a sign and with whitespace.
pub open spec fn ipv4_letter(c: char) -> bool {
    ('0' <= c && c <= '9') || c == '.' || c == '/' || c == '+' || white_space(c)
}

/// The characters of which IPv6 addresses are written, in any form.
pub open spec fn ipv6_letter(c: char) -> bool {
    hex_digit(c) || c == ':' || c == '.' || c == '/' || c == '+' || white_space(c)
}

/// The string is written like an address, whether or not it is one: with a
/// colon and of the characters of IPv6 addresses alone, or with a dot and
/// of the characters of IPv4 addresses alone. No host name is written so.
pub open spec fn address_like(s: Seq<char>) -> bool {
    ||| s.contains(':') && forall|i: int| 0 <= i < s.len() ==> ipv6_letter(#[trigger] s[i])
    ||| s.contains('.') && forall|i: int| 0 <= i < s.len() ==> ipv4_letter(#[trigger] s[i])
}

/// Whether `s` is written like an address.
pub fn is_address_like(s: &str) -> (r: bool)
    ensures
        r == address_like(s@),
{
    let chars = to_chars(s);
    let mut colon = false;
    let mut dot = false;
    let mut four = true;
    let mut six = true;
    let mut i: usize = 0;
    while i < chars.len()
        invariant
            0 <= i <= chars@.len(),
            chars@ == s@,
            colon == s@.take(i as int).contains(':'),
            dot == s@.take(i as int).contains('.'),
            four == (forall|k: int| 0 <= k < i ==> ipv4_letter(#[trigger] s@[k])),
            six == (forall|k: int| 0 <= k < i ==> ipv6_letter(#[trigger] s@[k])),
        decreases chars@.len() - i,
    {
        let c = chars[i];
        let space = is_white_space(c);
        let digit = '0' <= c && c <= '9';
        let mark = c == '.' || c == '/' || c == '+';
        proof {
            let ghost old_take = s@.take(i as int);
            let ghost new_take = s@.take(i + 1);
            assert(new_take =~= old_take.push(c));
            assert(new_take.contains(':') == (old_take.contains(':') || c == ':')) by {
                if old_take.contains(':') {
                    let k = choose|k: int| 0 <= k < old_take.len() && old_take[k] == ':';
                    assert(new_take[k] == ':');
                }
                if c == ':' {
                    assert(new_take[i as int] == ':');
                }
                if new_take.contains(':') {
                    let k = choose|k: int| 0 <= k < new_take.len() && new_take[k] == ':';
                    if k < i {
                        assert(old_take[k] == ':');
                    }
                }
            }
            assert(new_take.contains('.') == (old_take.contains('.') || c == '.')) by {
                if old_take.contains('.') {
                    let k = choose|k: int| 0 <= k < old_take.len() && old_take[k] == '.';
                    assert(new_take[k] == '.');
                }
                if c == '.' {
                    assert(new_take[i as int] == '.');
                }
                if new_take.contains('.') {
                    let k = choose|k: int| 0 <= k < new_take.len() && new_take[k] == '.';
                    if k < i {
                        assert(old_take[k] == '.');
                    }
                }
            }
        }
        if c == ':' {
            colon = true;
        }
        if c == '.' {
            dot = true;
        }
        if !(digit || mark || space) {
            four = false;
        }
        if !(is_hex_digit(c) || c == ':' || mark || space) {
            six = false;
        }
        i += 1;
    }
    assert(s@.take(chars@.len() as int) =~= s@);
    (colon && six) || (dot && four)
}

/// Whether `s` spells an address or a range of addresses in a way that the
/// library reads.
pub fn is_plain_address(s: &str) -> (r: bool)
    ensures
        r == plain_address(s@),
{
    match split_once(s, '/') {
        None => {
            let a = to_chars(s);
            is_dotted_quad(&a) || is_grouped_hex(&a)
        },
        Some((address, prefix)) => {
            let a = to_chars(address);
            let p = to_chars(prefix);
            (is_dotted_quad(&a) && is_small_number(&p, 2, 32)) || (is_grouped_hex(&a)
                && is_small_number(&p, 3, 128))
        },
    }
}

} // verus!
