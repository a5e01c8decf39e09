//! The external term format, read only as far as it takes to know that the
//! codec's parser comes back from a payload.
//!
//! The parser reads one term header after another, from left to right, and
//! gives up with an error at the first one it cannot read. In a few places it
//! does not give up but aborts: an atom whose name is not UTF-8, a big integer
//! whose sign byte is neither 0 nor 1, a bit string whose last byte holds no
//! bits, a function without a process identifier, a list or map whose length
//! does not fit the machine word, and a payload that is the version byte
//! alone. It also calls itself once for every level of nesting, so a small
//! payload of terms inside terms can run it out of stack. [`safe_to_parse`]
//! walks the same headers and says whether the walk ends before it reaches
//! such a place or nests deeper than [`MAX_DEPTH`].

use vstd::prelude::*;
use vstd::slice::{slice_subrange, slice_to_vec};
use vstd::utf8::valid_utf8;
use crate::text::string_from_utf8;

verus! {

/// The version byte that opens every payload.
pub const VERSION: u8 = 131;

/// How many terms may stand open around a term with terms of its own.
pub const MAX_DEPTH: usize = 128;

// The tags of the terms that the parser reads. It knows atoms in two forms
// only, the small UTF-8 one and the old two-byte-length one.

pub const NEW_FLOAT_EXT: u8 = 70;

pub const BIT_BINARY_EXT: u8 = 77;

pub const NEW_PID_EXT: u8 = 88;

pub const NEW_PORT_EXT: u8 = 89;

pub const NEWER_REFERENCE_EXT: u8 = 90;

pub const SMALL_INTEGER_EXT: u8 = 97;

pub const INTEGER_EXT: u8 = 98;

pub const ATOM_EXT: u8 = 100;

pub const PORT_EXT: u8 = 102;

pub const PID_EXT: u8 = 103;

pub const SMALL_TUPLE_EXT: u8 = 104;

pub const LARGE_TUPLE_EXT: u8 = 105;

pub const NIL_EXT: u8 = 106;

pub const STRING_EXT: u8 = 107;

pub const LIST_EXT: u8 = 108;

pub const BINARY_EXT: u8 = 109;

pub const SMALL_BIG_EXT: u8 = 110;

pub const LARGE_BIG_EXT: u8 = 111;

pub const NEW_FUN_EXT: u8 = 112;

pub const NEW_REFERENCE_EXT: u8 = 114;

pub const MAP_EXT: u8 = 116;

pub const SMALL_ATOM_UTF8_EXT: u8 = 119;

/// How the walk over one header ends.
pub enum Scan {
    /// The header and what belongs to it were read; the next one starts here.
    Next(int),
    /// The parser gives up with an error.
    Stop,
    /// The parser aborts.
    Unsafe,
}

/// The two bytes at `p` as a big-endian number.
pub open spec fn be16(b: Seq<u8>, p: int) -> int {
    b[p] * 0x100 + b[p + 1]
}

/// The four bytes at `p` as a big-endian number.
pub open spec fn be32(b: Seq<u8>, p: int) -> int {
    b[p] * 0x100_0000 + b[p + 1] * 0x1_0000 + b[p + 2] * 0x100 + b[p + 3]
}

/// `n` bytes are taken after a walk that went on.
pub open spec fn skip(b: Seq<u8>, s: Scan, n: int) -> Scan {
    match s {
        Scan::Next(q) => if q + n <= b.len() {
            Scan::Next(q + n)
        } else {
            Scan::Stop
        },
        _ => s,
    }
}

/// An atom's name of `n` bytes at `start`.
pub open spec fn scan_name(b: Seq<u8>, start: int, n: int) -> Scan {
    if start + n > b.len() {
        Scan::Stop
    } else if valid_utf8(b.subrange(start, start + n)) {
        Scan::Next(start + n)
    } else {
        Scan::Unsafe
    }
}

/// An atom at `q`, in one of the two forms that the parser reads.
pub open spec fn scan_atom(b: Seq<u8>, q: int) -> Scan {
    if q + 2 <= b.len() && b[q] == SMALL_ATOM_UTF8_EXT {
        scan_name(b, q + 2, b[q + 1] as int)
    } else if q + 3 <= b.len() && b[q] == ATOM_EXT {
        scan_name(b, q + 3, be16(b, q + 1))
    } else {
        Scan::Stop
    }
}

/// An atom after a walk that went on.
pub open spec fn then_atom(b: Seq<u8>, s: Scan) -> Scan {
    match s {
        Scan::Next(q) => scan_atom(b, q),
        _ => s,
    }
}

/// A small or a full integer after a walk that went on.
pub open spec fn then_integer(b: Seq<u8>, s: Scan) -> Scan {
    match s {
        Scan::Next(q) => if q + 2 <= b.len() && b[q] == SMALL_INTEGER_EXT {
            Scan::Next(q + 2)
        } else if q + 5 <= b.len() && b[q] == INTEGER_EXT {
            Scan::Next(q + 5)
        } else {
            Scan::Stop
        },
        _ => s,
    }
}

/// A process identifier after a walk that went on. The parser looks at its
/// first byte without asking whether there is one.
pub open spec fn then_pid(b: Seq<u8>, s: Scan) -> Scan {
    match s {
        Scan::Next(q) => if q >= b.len() {
            Scan::Unsafe
        } else if b[q] == NEW_PID_EXT {
            skip(b, scan_atom(b, q + 1), 12)
        } else if b[q] == PID_EXT {
            skip(b, scan_atom(b, q + 1), 9)
        } else {
            Scan::Stop
        },
        _ => s,
    }
}

/// A bit string at `p`: a length, the number of bits in the last byte, and
/// the bytes.
pub open spec fn scan_bit_binary(b: Seq<u8>, p: int) -> Scan {
    if p + 6 > b.len() {
        Scan::Stop
    } else {
        let body = if be32(b, p + 1) == 0 {
            0
        } else {
            be32(b, p + 1) - 1
        };
        if p + 7 + body > b.len() {
            Scan::Stop
        } else if b[p + 5] == 0 {
            Scan::Unsafe
        } else {
            Scan::Next(p + 7 + body)
        }
    }
}

/// A big integer whose digits start at `digits` and whose sign byte stands
/// just before them.
pub open spec fn scan_big(b: Seq<u8>, digits: int, n: int) -> Scan {
    if digits + n > b.len() {
        Scan::Stop
    } else if b[digits - 1] > 1 {
        Scan::Unsafe
    } else {
        Scan::Next(digits + n)
    }
}

/// The header of a term with `count` terms after it, which the walk reads as
/// it goes on.
pub open spec fn scan_counted(p: int, count: int) -> Scan {
    if count > usize::MAX {
        Scan::Unsafe
    } else {
        Scan::Next(p)
    }
}

/// The term header at `p`, with everything of the term but the terms nested
/// in it.
pub open spec fn scan_term(b: Seq<u8>, p: int) -> Scan
    recommends
        0 <= p < b.len(),
{
    let tag = b[p];
    let here = Scan::Next(p + 1);
    if tag == SMALL_INTEGER_EXT || tag == SMALL_TUPLE_EXT {
        skip(b, here, 1)
    } else if tag == INTEGER_EXT || tag == LARGE_TUPLE_EXT {
        skip(b, here, 4)
    } else if tag == NEW_FLOAT_EXT {
        skip(b, here, 8)
    } else if tag == NIL_EXT {
        here
    } else if tag == SMALL_ATOM_UTF8_EXT || tag == ATOM_EXT {
        scan_atom(b, p)
    } else if tag == STRING_EXT {
        if p + 3 <= b.len() {
            skip(b, Scan::Next(p + 3), be16(b, p + 1))
        } else {
            Scan::Stop
        }
    } else if tag == BINARY_EXT {
        if p + 5 <= b.len() {
            skip(b, Scan::Next(p + 5), be32(b, p + 1))
        } else {
            Scan::Stop
        }
    } else if tag == BIT_BINARY_EXT {
        scan_bit_binary(b, p)
    } else if tag == LIST_EXT {
        if p + 5 <= b.len() {
            scan_counted(p + 5, be32(b, p + 1) + 1)
        } else {
            Scan::Stop
        }
    } else if tag == MAP_EXT {
        if p + 5 <= b.len() {
            scan_counted(p + 5, 2 * be32(b, p + 1))
        } else {
            Scan::Stop
        }
    } else if tag == SMALL_BIG_EXT {
        if p + 3 <= b.len() {
            scan_big(b, p + 3, b[p + 1] as int)
        } else {
            Scan::Stop
        }
    } else if tag == LARGE_BIG_EXT {
        if p + 6 <= b.len() {
            scan_big(b, p + 6, be32(b, p + 1))
        } else {
            Scan::Stop
        }
    } else if tag == PID_EXT || tag == NEW_PID_EXT {
        then_pid(b, Scan::Next(p))
    } else if tag == PORT_EXT {
        skip(b, scan_atom(b, p + 1), 5)
    } else if tag == NEW_PORT_EXT {
        skip(b, scan_atom(b, p + 1), 8)
    } else if tag == NEW_REFERENCE_EXT {
        if p + 3 <= b.len() {
            skip(b, skip(b, scan_atom(b, p + 3), 1), 4 * be16(b, p + 1))
        } else {
            Scan::Stop
        }
    } else if tag == NEWER_REFERENCE_EXT {
        if p + 3 <= b.len() {
            skip(b, skip(b, scan_atom(b, p + 3), 4), 4 * be16(b, p + 1))
        } else {
            Scan::Stop
        }
    } else if tag == NEW_FUN_EXT {
        then_pid(b, then_integer(b, then_integer(b, then_atom(b, skip(b, here, 29)))))
    } else {
        Scan::Stop
    }
}

/// How many terms are nested directly in the term whose header stands at
/// `p`: the elements of a tuple, the elements and the tail of a list, the
/// keys and values of a map, the free variables of a function.
pub open spec fn nested_terms(b: Seq<u8>, p: int) -> u64
    recommends
        scan_term(b, p) is Next,
{
    let tag = b[p];
    if tag == SMALL_TUPLE_EXT {
        b[p + 1] as u64
    } else if tag == LARGE_TUPLE_EXT {
        be32(b, p + 1) as u64
    } else if tag == LIST_EXT {
        (be32(b, p + 1) + 1) as u64
    } else if tag == MAP_EXT {
        (2 * be32(b, p + 1)) as u64
    } else if tag == NEW_FUN_EXT {
        be32(b, p + 26) as u64
    } else {
        0
    }
}

/// The terms that stand open once one more term is complete. `open` holds,
/// for each term that the walk is inside of, innermost last, how many of its
/// nested terms are not complete yet. A term whose last nested term is
/// complete is complete itself.
pub open spec fn close(open: Seq<u64>) -> Seq<u64>
    decreases open.len(),
{
    if open.len() == 0 {
        open
    } else if open.last() > 1 {
        open.drop_last().push((open.last() - 1) as u64)
    } else {
        close(open.drop_last())
    }
}

/// The walk from `p` on, inside the terms of `open`, ends without reaching a
/// place where the parser aborts and without nesting deeper than
/// [`MAX_DEPTH`]. Every header that is read takes at least one byte, so the
/// walk moves forward at each step.
pub open spec fn safe_from(b: Seq<u8>, p: int, open: Seq<u64>) -> bool
    decreases b.len() - p,
{
    if 0 <= p < b.len() {
        match scan_term(b, p) {
            Scan::Next(q) => if nested_terms(b, p) == 0 {
                p < q && safe_from(b, q, close(open))
            } else {
                open.len() < MAX_DEPTH && p < q && safe_from(b, q, open.push(nested_terms(b, p)))
            },
            Scan::Stop => true,
            Scan::Unsafe => false,
        }
    } else {
        true
    }
}

/// The codec's parser comes back from `b`, with a term or with an error.
pub open spec fn safe_to_parse(b: Seq<u8>) -> bool {
    b.len() > 0 && b[0] == VERSION ==> b.len() > 1 && safe_from(b, 1, Seq::empty())
}

/// How the executable walk over one header ends: a [`Scan`] whose positions
/// are machine words.
enum Walk {
    Next(usize),
    Stop,
    Unsafe,
}

impl View for Walk {
    type V = Scan;

    closed spec fn view(&self) -> Scan {
        match self {
            Walk::Next(q) => Scan::Next(*q as int),
            Walk::Stop => Scan::Stop,
            Walk::Unsafe => Scan::Unsafe,
        }
    }
}

impl Walk {
    /// A walk that went on stands inside the payload.
    spec fn within(&self, b: Seq<u8>) -> bool {
        self matches Walk::Next(q) ==> q <= b.len()
    }
}

fn read16(b: &[u8], p: usize) -> (r: u64)
    requires
        p + 2 <= b@.len(),
    ensures
        r == be16(b@, p as int),
        r <= 0xFFFF,
{
    (b[p] as u64) * 0x100 + (b[p + 1] as u64)
}

fn read32(b: &[u8], p: usize) -> (r: u64)
    requires
        p + 4 <= b@.len(),
    ensures
        r == be32(b@, p as int),
        r <= 0xFFFF_FFFF,
{
    (b[p] as u64) * 0x100_0000 + (b[p + 1] as u64) * 0x1_0000 + (b[p + 2] as u64) * 0x100 + (b[p
        + 3] as u64)
}

fn walk_skip(b: &[u8], w: Walk, n: u64) -> (r: Walk)
    requires
        w.within(b@),
    ensures
        r@ == skip(b@, w@, n as int),
        r.within(b@),
{
    match w {
        Walk::Next(q) => {
            if n <= (b.len() - q) as u64 {
                Walk::Next(q + n as usize)
            } else {
                Walk::Stop
            }
        },
        Walk::Stop => Walk::Stop,
        Walk::Unsafe => Walk::Unsafe,
    }
}

fn walk_name(b: &[u8], start: usize, n: u64) -> (r: Walk)
    requires
        start <= b@.len(),
    ensures
        r@ == scan_name(b@, start as int, n as int),
        r.within(b@),
{
    if n > (b.len() - start) as u64 {
        return Walk::Stop;
    }
    let end = start + n as usize;
    let name = slice_to_vec(slice_subrange(b, start, end));
    match string_from_utf8(name) {
        Some(_) => Walk::Next(end),
        None => Walk::Unsafe,
    }
}

fn walk_atom(b: &[u8], q: usize) -> (r: Walk)
    requires
        q <= b@.len(),
    ensures
        r@ == scan_atom(b@, q as int),
        r.within(b@),
{
    let left = b.len() - q;
    if left >= 2 && b[q] == SMALL_ATOM_UTF8_EXT {
        walk_name(b, q + 2, b[q + 1] as u64)
    } else if left >= 3 && b[q] == ATOM_EXT {
        walk_name(b, q + 3, read16(b, q + 1))
    } else {
        Walk::Stop
    }
}

fn walk_then_atom(b: &[u8], w: Walk) -> (r: Walk)
    requires
        w.within(b@),
    ensures
        r@ == then_atom(b@, w@),
        r.within(b@),
{
    match w {
        Walk::Next(q) => walk_atom(b, q),
        Walk::Stop => Walk::Stop,
        Walk::Unsafe => Walk::Unsafe,
    }
}

fn walk_then_integer(b: &[u8], w: Walk) -> (r: Walk)
    requires
        w.within(b@),
    ensures
        r@ == then_integer(b@, w@),
        r.within(b@),
{
    match w {
        Walk::Next(q) => {
            let left = b.len() - q;
            if left >= 2 && b[q] == SMALL_INTEGER_EXT {
                Walk::Next(q + 2)
            } else if left >= 5 && b[q] == INTEGER_EXT {
                Walk::Next(q + 5)
            } else {
                Walk::Stop
            }
        },
        Walk::Stop => Walk::Stop,
        Walk::Unsafe => Walk::Unsafe,
    }
}

fn walk_then_pid(b: &[u8], w: Walk) -> (r: Walk)
    requires
        w.within(b@),
    ensures
        r@ == then_pid(b@, w@),
        r.within(b@),
{
    match w {
        Walk::Next(q) => {
            if q >= b.len() {
                Walk::Unsafe
            } else if b[q] == NEW_PID_EXT {
                walk_skip(b, walk_atom(b, q + 1), 12)
            } else if b[q] == PID_EXT {
                walk_skip(b, walk_atom(b, q + 1), 9)
            } else {
                Walk::Stop
            }
        },
        Walk::Stop => Walk::Stop,
        Walk::Unsafe => Walk::Unsafe,
    }
}

fn walk_bit_binary(b: &[u8], p: usize) -> (r: Walk)
    requires
        p < b@.len(),
    ensures
        r@ == scan_bit_binary(b@, p as int),
        r.within(b@),
{
    let left = b.len() - p;
    if left < 6 {
        return Walk::Stop;
    }
    let length = read32(b, p + 1);
    let body: u64 = if length == 0 {
        0
    } else {
        length - 1
    };
    if left < 7 || body > (left - 7) as u64 {
        Walk::Stop
    } else if b[p + 5] == 0 {
        Walk::Unsafe
    } else {
        Walk::Next(p + 7 + body as usize)
    }
}

fn walk_big(b: &[u8], digits: usize, n: u64) -> (r: Walk)
    requires
        1 <= digits <= b@.len(),
    ensures
        r@ == scan_big(b@, digits as int, n as int),
        r.within(b@),
{
    if n > (b.len() - digits) as u64 {
        Walk::Stop
    } else if b[digits - 1] > 1 {
        Walk::Unsafe
    } else {
        Walk::Next(digits + n as usize)
    }
}

fn walk_counted(b: &[u8], p: usize, count: u64) -> (r: Walk)
    requires
        p <= b@.len(),
    ensures
        r@ == scan_counted(p as int, count as int),
        r.within(b@),
{
    if count > usize::MAX as u64 {
        Walk::Unsafe
    } else {
        Walk::Next(p)
    }
}

fn walk_term(b: &[u8], p: usize) -> (r: Walk)
    requires
        p < b@.len(),
    ensures
        r@ == scan_term(b@, p as int),
        r.within(b@),
        r matches Walk::Next(q) ==> p < q,
{
    let tag = b[p];
    let left = b.len() - p;
    let here = Walk::Next(p + 1);
    if tag == SMALL_INTEGER_EXT || tag == SMALL_TUPLE_EXT {
        walk_skip(b, here, 1)
    } else if tag == INTEGER_EXT || tag == LARGE_TUPLE_EXT {
        walk_skip(b, here, 4)
    } else if tag == NEW_FLOAT_EXT {
        walk_skip(b, here, 8)
    } else if tag == NIL_EXT {
        here
    } else if tag == SMALL_ATOM_UTF8_EXT || tag == ATOM_EXT {
        walk_atom(b, p)
    } else if tag == STRING_EXT {
        if left >= 3 {
            walk_skip(b, Walk::Next(p + 3), read16(b, p + 1))
        } else {
            Walk::Stop
        }
    } else if tag == BINARY_EXT {
        if left >= 5 {
            walk_skip(b, Walk::Next(p + 5), read32(b, p + 1))
        } else {
            Walk::Stop
        }
    } else if tag == BIT_BINARY_EXT {
        walk_bit_binary(b, p)
    } else if tag == LIST_EXT {
        if left >= 5 {
            walk_counted(b, p + 5, read32(b, p + 1) + 1)
        } else {
            Walk::Stop
        }
    } else if tag == MAP_EXT {
        if left >= 5 {
            walk_counted(b, p + 5, 2 * read32(b, p + 1))
        } else {
            Walk::Stop
        }
    } else if tag == SMALL_BIG_EXT {
        if left >= 3 {
            walk_big(b, p + 3, b[p + 1] as u64)
        } else {
            Walk::Stop
        }
    } else if tag == LARGE_BIG_EXT {
        if left >= 6 {
            walk_big(b, p + 6, read32(b, p + 1))
        } else {
            Walk::Stop
        }
    } else if tag == PID_EXT || tag == NEW_PID_EXT {
        walk_then_pid(b, Walk::Next(p))
    } else if tag == PORT_EXT {
        walk_skip(b, walk_atom(b, p + 1), 5)
    } else if tag == NEW_PORT_EXT {
        walk_skip(b, walk_atom(b, p + 1), 8)
    } else if tag == NEW_REFERENCE_EXT {
        if left >= 3 {
            let ids = 4 * read16(b, p + 1);
            walk_skip(b, walk_skip(b, walk_atom(b, p + 3), 1), ids)
        } else {
            Walk::Stop
        }
    } else if tag == NEWER_REFERENCE_EXT {
        if left >= 3 {
            let ids = 4 * read16(b, p + 1);
            walk_skip(b, walk_skip(b, walk_atom(b, p + 3), 4), ids)
        } else {
            Walk::Stop
        }
    } else if tag == NEW_FUN_EXT {
        let header = walk_skip(b, here, 29);
        let module = walk_then_atom(b, header);
        let old_index = walk_then_integer(b, module);
        let old_uniq = walk_then_integer(b, old_index);
        walk_then_pid(b, old_uniq)
    } else {
        Walk::Stop
    }
}

fn walk_nested(b: &[u8], p: usize) -> (n: u64)
    requires
        p < b@.len(),
        scan_term(b@, p as int) is Next,
    ensures
        n == nested_terms(b@, p as int),
{
    let tag = b[p];
    if tag == SMALL_TUPLE_EXT {
        b[p + 1] as u64
    } else if tag == LARGE_TUPLE_EXT {
        read32(b, p + 1)
    } else if tag == LIST_EXT {
        read32(b, p + 1) + 1
    } else if tag == MAP_EXT {
        2 * read32(b, p + 1)
    } else if tag == NEW_FUN_EXT {
        read32(b, p + 26)
    } else {
        0
    }
}

fn walk_close(open: &mut Vec<u64>)
    ensures
        final(open)@ == close(old(open)@),
        final(open)@.len() <= old(open)@.len(),
{
    loop
        invariant
            close(open@) == close(old(open)@),
            open@.len() <= old(open)@.len(),
        decreases open@.len(),
    {
        match open.pop() {
            None => {
                return;
            },
            Some(left) => {
                if left > 1 {
                    open.push(left - 1);
                    return;
                }
            },
        }
    }
}

/// Whether the codec's parser comes back from `bytes`.
pub fn is_safe_to_parse(bytes: &[u8]) -> (safe: bool)
    ensures
        safe == safe_to_parse(bytes@),
{
    if bytes.len() == 0 || bytes[0] != VERSION {
        return true;
    }
    if bytes.len() == 1 {
        return false;
    }
    let mut open: Vec<u64> = Vec::new();
    let mut p: usize = 1;
    while p < bytes.len()
        invariant
            1 <= p <= bytes@.len(),
            bytes@[0] == VERSION,
            open@.len() <= MAX_DEPTH,
            safe_from(bytes@, 1, Seq::empty()) == safe_from(bytes@, p as int, open@),
        decreases bytes@.len() - p,
    {
        match walk_term(bytes, p) {
            Walk::Next(q) => {
                let nested = walk_nested(bytes, p);
                if nested == 0 {
                    walk_close(&mut open);
                } else if open.len() < MAX_DEPTH {
                    open.push(nested);
                } else {
                    return false;
                }
                p = q;
            },
            Walk::Stop => {
                return true;
            },
            Walk::Unsafe => {
                return false;
            },
        }
    }
    true
}

} // verus!
