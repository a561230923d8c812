//! Bulk operations on the flat address space.
//!
//! The address space is a slice of bytes and an address is an offset into it.
//! A length is signed, as in the C interface these operations come from; a
//! length that is zero or negative covers no byte at all.

use vstd::prelude::*;

verus! {

/// The number of bytes that a signed length covers.
pub open spec fn span(len: isize) -> nat {
    if len > 0 {
        len as nat
    } else {
        0
    }
}

/// Whether the `span(len)` bytes from `at` on lie inside a space of `size` bytes.
pub open spec fn in_bounds(size: nat, at: usize, len: isize) -> bool {
    at + span(len) <= size
}

/// Whether `k` is the first position at which `x` and `y` hold different bytes.
pub open spec fn first_difference(x: Seq<u8>, y: Seq<u8>, k: int) -> bool {
    &&& 0 <= k < x.len()
    &&& x[k] != y[k]
    &&& forall|j: int| 0 <= j < k ==> x[j] == y[j]
}

/// The `n` bytes of `memory` from `at` on.
pub open spec fn range(memory: Seq<u8>, at: usize, n: nat) -> Seq<u8> {
    memory.subrange(at as int, at + n)
}

/// The address that the byte at offset `i` of the destination comes from when
/// `src` is copied to `dst` byte by byte from low to high addresses. With the
/// source below the destination the copy runs into bytes it has written
/// itself, so the first `dst - src` source bytes repeat.
pub open spec fn forward_source(dst: usize, src: usize, i: int) -> int {
    if src < dst {
        src + i % (dst - src)
    } else {
        src + i
    }
}

/// What a byte-by-byte copy from low to high addresses leaves in `after`, given
/// the space `before` it.
pub open spec fn copied_forward(
    before: Seq<u8>,
    after: Seq<u8>,
    dst: usize,
    src: usize,
    n: nat,
) -> bool {
    &&& after.len() == before.len()
    &&& forall|p: int|
        0 <= p < before.len() ==> #[trigger] after[p] == if dst <= p < dst + n {
            before[forward_source(dst, src, p - dst)]
        } else {
            before[p]
        }
}

/// What a move leaves in `after`: the destination range holds what the source
/// range held in `before`, whether or not the two overlap.
pub open spec fn moved(before: Seq<u8>, after: Seq<u8>, dst: usize, src: usize, n: nat) -> bool {
    &&& after.len() == before.len()
    &&& forall|p: int|
        0 <= p < before.len() ==> #[trigger] after[p] == if dst <= p < dst + n {
            before[p - dst + src]
        } else {
            before[p]
        }
}

/// Where the destination does not start inside the source range, a forward
/// copy is a move.
pub proof fn lemma_copy_apart_is_move(
    before: Seq<u8>,
    after: Seq<u8>,
    dst: usize,
    src: usize,
    n: nat,
)
    requires
        copied_forward(before, after, dst, src, n),
        dst <= src || src + n <= dst,
    ensures
        moved(before, after, dst, src, n),
{
    assert forall|p: int| 0 <= p < before.len() implies #[trigger] after[p] == if dst <= p < dst
        + n {
        before[p - dst + src]
    } else {
        before[p]
    } by {
        if dst <= p < dst + n && src < dst {
            vstd::arithmetic::div_mod::lemma_small_mod((p - dst) as nat, (dst - src) as nat);
        }
    }
}

/// What a fill leaves in `after`: `value` in each of the `n` bytes from `at` on.
pub open spec fn filled(before: Seq<u8>, after: Seq<u8>, at: usize, value: u8, n: nat) -> bool {
    &&& after.len() == before.len()
    &&& forall|p: int|
        0 <= p < before.len() ==> #[trigger] after[p] == if at <= p < at + n {
            value
        } else {
            before[p]
        }
}

/// The low eight bits of `c`.
pub open spec fn low_byte(c: i32) -> u8 {
    (c & 0xff) as u8
}

fn length(len: isize) -> (n: usize)
    ensures
        n == span(len),
{
    if len > 0 {
        len as usize
    } else {
        0
    }
}

fn difference(x: u8, y: u8) -> (d: isize)
    ensures
        d == x - y,
{
    x as isize - y as isize
}

fn truncate(c: i32) -> (byte: u8)
    ensures
        byte == low_byte(c),
{
    assert((c & 0xff) as u8 == c as u8) by (bit_vector);
    #[verifier::truncate]
    (c as u8)
}

fn compare(memory: &[u8], a: usize, b: usize, n: usize) -> (order: isize)
    requires
        a + n <= memory@.len(),
        b + n <= memory@.len(),
    ensures
        range(memory@, a, n as nat) == range(memory@, b, n as nat) ==> order == 0,
        forall|k: int|
            first_difference(range(memory@, a, n as nat), range(memory@, b, n as nat), k)
                ==> order == range(memory@, a, n as nat)[k] - range(memory@, b, n as nat)[k],
{
    let ghost x = range(memory@, a, n as nat);
    let ghost y = range(memory@, b, n as nat);
    let size = memory.len();
    let mut i: usize = 0;
    while i < n
        invariant
            i <= n,
            size == memory@.len(),
            a + n <= size,
            b + n <= size,
            x == range(memory@, a, n as nat),
            y == range(memory@, b, n as nat),
            forall|j: int| 0 <= j < i ==> x[j] == y[j],
        decreases n - i,
    {
        let byte_a = memory[a + i];
        let byte_b = memory[b + i];
        assert(byte_a == x[i as int] && byte_b == y[i as int]);
        if byte_a != byte_b {
            return difference(byte_a, byte_b);
        }
        i += 1;
    }
    assert(x =~= y);
    0
}

/// Compares the `len` bytes at `a` with the `len` bytes at `b`: zero when they
/// are equal, otherwise the byte at `a` minus the byte at `b` at the first
/// position where they differ.
pub fn memcmp(memory: &[u8], a: usize, b: usize, len: isize) -> (order: isize)
    requires
        in_bounds(memory@.len(), a, len),
        in_bounds(memory@.len(), b, len),
    ensures
        range(memory@, a, span(len)) == range(memory@, b, span(len)) ==> order == 0,
        forall|k: int|
            first_difference(range(memory@, a, span(len)), range(memory@, b, span(len)), k)
                ==> order == range(memory@, a, span(len))[k] - range(memory@, b, span(len))[k],
{
    compare(memory, a, b, length(len))
}

/// Moves the `len` bytes at `src` to `dst`. The two ranges may overlap: the
/// bytes are copied from the end backwards when the source lies below the
/// destination, and forwards otherwise.
pub fn memmove(memory: &mut [u8], dst: usize, src: usize, len: isize)
    requires
        in_bounds(old(memory)@.len(), dst, len),
        in_bounds(old(memory)@.len(), src, len),
    ensures
        moved(old(memory)@, final(memory)@, dst, src, span(len)),
{
    let n = length(len);
    let size = memory.len();
    let ghost before = memory@;
    if src < dst {
        let mut i: usize = n;
        while i > 0
            invariant
                i <= n,
                src < dst,
                dst + n <= size,
                size == before.len(),
                memory@.len() == before.len(),
                forall|p: int|
                    0 <= p < before.len() ==> #[trigger] memory@[p] == if dst + i <= p < dst + n {
                        before[p - dst + src]
                    } else {
                        before[p]
                    },
            decreases i,
        {
            i -= 1;
            let byte = memory[src + i];
            memory[dst + i] = byte;
        }
    } else {
        let mut i: usize = 0;
        while i < n
            invariant
                i <= n,
                dst <= src,
                src + n <= size,
                size == before.len(),
                memory@.len() == before.len(),
                forall|p: int|
                    0 <= p < before.len() ==> #[trigger] memory@[p] == if dst <= p < dst + i {
                        before[p - dst + src]
                    } else {
                        before[p]
                    },
            decreases n - i,
        {
            let byte = memory[src + i];
            memory[dst + i] = byte;
            i += 1;
        }
    }
}

/// Copies the `len` bytes at `src` to `dst`, one byte at a time from low to
/// high addresses. Where the destination starts inside the source range the
/// copy reads bytes that it has written itself; otherwise the destination ends
/// up holding what the source held.
pub fn memcpy(memory: &mut [u8], dst: usize, src: usize, len: isize)
    requires
        in_bounds(old(memory)@.len(), dst, len),
        in_bounds(old(memory)@.len(), src, len),
    ensures
        copied_forward(old(memory)@, final(memory)@, dst, src, span(len)),
        dst <= src || src + span(len) <= dst ==> moved(
            old(memory)@,
            final(memory)@,
            dst,
            src,
            span(len),
        ),
{
    let n = length(len);
    let size = memory.len();
    let ghost before = memory@;
    let mut i: usize = 0;
    while i < n
        invariant
            i <= n,
            size == before.len(),
            dst + n <= size,
            src + n <= size,
            copied_forward(before, memory@, dst, src, i as nat),
        decreases n - i,
    {
        proof {
            if src < dst {
                let d = dst - src;
                if i < d {
                    vstd::arithmetic::div_mod::lemma_small_mod(i as nat, d as nat);
                } else {
                    vstd::arithmetic::div_mod::lemma_mod_sub_multiples_vanish(i as int, d);
                    vstd::arithmetic::div_mod::lemma_mod_bound(i - d, d);
                    assert(memory@[src + i] == before[forward_source(dst, src, i - d)]);
                }
            }
            assert(memory@[src + i] == before[forward_source(dst, src, i as int)]);
        }
        let byte = memory[src + i];
        memory[dst + i] = byte;
        i += 1;
    }
    proof {
        if dst <= src || src + n <= dst {
            lemma_copy_apart_is_move(before, memory@, dst, src, n as nat);
        }
    }
}

/// Fills the `len` bytes at `at` with the low eight bits of `c`.
pub fn memset(memory: &mut [u8], at: usize, c: i32, len: isize)
    requires
        in_bounds(old(memory)@.len(), at, len),
    ensures
        filled(old(memory)@, final(memory)@, at, low_byte(c), span(len)),
{
    let n = length(len);
    let value = truncate(c);
    let size = memory.len();
    let ghost before = memory@;
    let mut i: usize = 0;
    while i < n
        invariant
            i <= n,
            size == before.len(),
            at + n <= size,
            filled(before, memory@, at, value, i as nat),
        decreases n - i,
    {
        memory[at + i] = value;
        i += 1;
    }
}

} // verus!
