//! Byte-buffer operations the runtime needs on targets without a C library:
//! copy, overlapping move, fill, and comparison. Each is stated exactly
//! over the byte sequences involved; `memmove` in particular is proved
//! correct for any overlap between its source and destination ranges.

use vstd::prelude::*;

verus! {

/// Writes one byte of a buffer.
fn set_byte(v: &mut Vec<u8>, i: usize, b: u8)
    requires
        i < old(v)@.len(),
    ensures
        final(v)@ == old(v)@.update(i as int, b),
{
    let r = &mut v[i];
    *r = b;
}

/// Copies the first `n` bytes of `src` over the first `n` bytes of `dest`;
/// the rest of `dest` keeps its contents.
pub fn memcpy(dest: &mut Vec<u8>, src: &Vec<u8>, n: usize)
    requires
        n <= old(dest)@.len(),
        n <= src@.len(),
    ensures
        final(dest)@.len() == old(dest)@.len(),
        forall|k: int| 0 <= k < n ==> final(dest)@[k] == src@[k],
        forall|k: int| n <= k < old(dest)@.len() ==> final(dest)@[k] == old(dest)@[k],
{
    let mut i: usize = 0;
    while i < n
        invariant
            n <= old(dest)@.len(),
            n <= src@.len(),
            0 <= i <= n,
            dest@.len() == old(dest)@.len(),
            forall|k: int| 0 <= k < i ==> dest@[k] == src@[k],
            forall|k: int| i <= k < old(dest)@.len() ==> dest@[k] == old(dest)@[k],
        decreases n - i,
    {
        let b = src[i];
        set_byte(dest, i, b);
        i = i + 1;
    }
}

/// Fills the first `n` bytes of `dest` with `c`; the rest keeps its
/// contents.
pub fn memset(dest: &mut Vec<u8>, c: u8, n: usize)
    requires
        n <= old(dest)@.len(),
    ensures
        final(dest)@.len() == old(dest)@.len(),
        forall|k: int| 0 <= k < n ==> final(dest)@[k] == c,
        forall|k: int| n <= k < old(dest)@.len() ==> final(dest)@[k] == old(dest)@[k],
{
    let mut i: usize = 0;
    while i < n
        invariant
            n <= old(dest)@.len(),
            0 <= i <= n,
            dest@.len() == old(dest)@.len(),
            forall|k: int| 0 <= k < i ==> dest@[k] == c,
            forall|k: int| i <= k < old(dest)@.len() ==> dest@[k] == old(dest)@[k],
        decreases n - i,
    {
        set_byte(dest, i, c);
        i = i + 1;
    }
}

/// Moves `n` bytes within one buffer, from offset `src` to offset `dest`.
/// The two ranges may overlap in any way: when the source lies before the
/// destination the copy runs from the end, otherwise from the beginning, so
/// the destination always receives the source range's original contents.
pub fn memmove(buf: &mut Vec<u8>, dest: usize, src: usize, n: usize)
    requires
        dest + n <= old(buf)@.len(),
        src + n <= old(buf)@.len(),
    ensures
        final(buf)@.len() == old(buf)@.len(),
        forall|k: int| 0 <= k < n ==> #[trigger] final(buf)@[dest + k] == old(buf)@[src + k],
        forall|j: int| 0 <= j < old(buf)@.len() && !(dest <= j < dest + n)
            ==> final(buf)@[j] == old(buf)@[j],
{
    let len = buf.len();
    if src < dest {
        let mut i: usize = n;
        while i > 0
            invariant
                src < dest,
                len == old(buf)@.len(),
                dest + n <= old(buf)@.len(),
                src + n <= old(buf)@.len(),
                0 <= i <= n,
                buf@.len() == old(buf)@.len(),
                forall|k: int| i <= k < n ==> #[trigger] buf@[dest + k] == old(buf)@[src + k],
                forall|j: int| 0 <= j < old(buf)@.len() && !(dest + i <= j < dest + n)
                    ==> buf@[j] == old(buf)@[j],
            decreases i,
        {
            i = i - 1;
            let b = buf[src + i];
            set_byte(buf, dest + i, b);
        }
    } else {
        let mut i: usize = 0;
        while i < n
            invariant
                src >= dest,
                len == old(buf)@.len(),
                dest + n <= old(buf)@.len(),
                src + n <= old(buf)@.len(),
                0 <= i <= n,
                buf@.len() == old(buf)@.len(),
                forall|k: int| 0 <= k < i ==> #[trigger] buf@[dest + k] == old(buf)@[src + k],
                forall|j: int| 0 <= j < old(buf)@.len() && !(dest <= j < dest + i)
                    ==> buf@[j] == old(buf)@[j],
            decreases n - i,
        {
            let b = buf[src + i];
            set_byte(buf, dest + i, b);
            i = i + 1;
        }
    }
}

/// Compares the first `n` bytes of `a` and `b`: zero when the prefixes are
/// equal, and otherwise the difference of the first differing pair of
/// bytes.
pub fn memcmp(a: &Vec<u8>, b: &Vec<u8>, n: usize) -> (r: i32)
    requires
        n <= a@.len(),
        n <= b@.len(),
    ensures
        (r == 0) <==> a@.take(n as int) == b@.take(n as int),
        r != 0 ==> exists|i: int|
            0 <= i < n && a@[i] != b@[i]
                && (forall|k: int| 0 <= k < i ==> a@[k] == b@[k])
                && r == a@[i] - b@[i],
{
    let mut i: usize = 0;
    while i < n
        invariant
            n <= a@.len(),
            n <= b@.len(),
            0 <= i <= n,
            forall|k: int| 0 <= k < i ==> a@[k] == b@[k],
        decreases n - i,
    {
        let x = a[i];
        let y = b[i];
        if x != y {
            proof {
                assert(a@.take(n as int)[i as int] != b@.take(n as int)[i as int]);
            }
            return x as i32 - y as i32;
        }
        i = i + 1;
    }
    proof {
        assert(a@.take(n as int) =~= b@.take(n as int));
    }
    0
}

/// Reports whether the first `n` bytes of `a` and `b` differ: zero exactly
/// when they are equal. Nothing more is promised of the nonzero value.
pub fn bcmp(a: &Vec<u8>, b: &Vec<u8>, n: usize) -> (r: i32)
    requires
        n <= a@.len(),
        n <= b@.len(),
    ensures
        (r == 0) <==> a@.take(n as int) == b@.take(n as int),
{
    memcmp(a, b, n)
}

} // verus!
