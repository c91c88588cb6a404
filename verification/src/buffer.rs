//! Sample buffers: ordered runs of samples that grow at the back and are
//! trimmed at the front.

use vstd::prelude::*;

verus! {

/// The last `n` items of `s`, or all of `s` where it holds fewer.
pub open spec fn latest<T>(s: Seq<T>, n: nat) -> Seq<T> {
    if s.len() <= n {
        s
    } else {
        s.subrange(s.len() - n, s.len() as int)
    }
}

/// What is left of `s` once its `n` oldest items are gone.
pub open spec fn without_oldest<T>(s: Seq<T>, n: nat) -> Seq<T> {
    if s.len() <= n {
        Seq::empty()
    } else {
        s.subrange(n as int, s.len() as int)
    }
}

/// `s` followed by as many copies of `fill` as it takes to reach `n` items.
pub open spec fn padded<T>(s: Seq<T>, n: nat, fill: T) -> Seq<T> {
    if s.len() >= n {
        s
    } else {
        s + Seq::new((n - s.len()) as nat, |i: int| fill)
    }
}

/// All the batches one after another, in the order in which they came.
pub open spec fn joined<T>(batches: Seq<Seq<T>>) -> Seq<T>
    decreases batches.len(),
{
    if batches.len() == 0 {
        Seq::empty()
    } else {
        joined(batches.drop_last()) + batches.last()
    }
}

/// Appends every item of `batch` to `buffer`, in order.
pub fn append_all<T: Copy>(buffer: &mut Vec<T>, batch: &[T])
    ensures
        final(buffer)@ == old(buffer)@ + batch@,
{
    let mut i: usize = 0;
    while i < batch.len()
        invariant
            i <= batch@.len(),
            buffer@ == old(buffer)@ + batch@.subrange(0, i as int),
        decreases batch@.len() - i,
    {
        buffer.push(batch[i]);
        i += 1;
        assert(buffer@ =~= old(buffer)@ + batch@.subrange(0, i as int));
    }
    assert(batch@.subrange(0, i as int) =~= batch@);
}

/// Drops from the front of `buffer` all but its last `n` items.
pub fn keep_latest<T>(buffer: &mut Vec<T>, n: usize)
    ensures
        final(buffer)@ == latest(old(buffer)@, n as nat),
{
    if buffer.len() > n {
        let excess: usize = buffer.len() - n;
        let tail = buffer.split_off(excess);
        *buffer = tail;
    }
}

/// Drops the `n` oldest items of `buffer`, or all of them where it holds
/// fewer.
pub fn drop_oldest<T>(buffer: &mut Vec<T>, n: usize)
    ensures
        final(buffer)@ == without_oldest(old(buffer)@, n as nat),
{
    if buffer.len() > n {
        let tail = buffer.split_off(n);
        *buffer = tail;
    } else {
        buffer.clear();
    }
}

/// A copy of the last `n` items of `buffer`, or of all of it where it holds
/// fewer.
pub fn copy_latest<T: Copy>(buffer: &Vec<T>, n: usize) -> (out: Vec<T>)
    ensures
        out@ == latest(buffer@, n as nat),
{
    let len: usize = buffer.len();
    let start: usize = if len > n {
        len - n
    } else {
        0
    };
    let mut out: Vec<T> = Vec::with_capacity(len - start);
    let mut i: usize = start;
    while i < len
        invariant
            len == buffer@.len(),
            start <= i <= len,
            out@ == buffer@.subrange(start as int, i as int),
        decreases len - i,
    {
        out.push(buffer[i]);
        i += 1;
        assert(out@ =~= buffer@.subrange(start as int, i as int));
    }
    assert(out@ =~= latest(buffer@, n as nat));
    out
}

/// Appends copies of `fill` to `buffer` until it holds `n` items.
pub fn pad_to<T: Copy>(buffer: &mut Vec<T>, n: usize, fill: T)
    ensures
        final(buffer)@ == padded(old(buffer)@, n as nat, fill),
{
    let ghost start = buffer@;
    while buffer.len() < n
        invariant
            start == old(buffer)@,
            start.len() <= buffer@.len(),
            buffer@.len() <= n || buffer@ == start,
            buffer@ == start + Seq::new((buffer@.len() - start.len()) as nat, |i: int| fill),
        decreases n - buffer@.len(),
    {
        buffer.push(fill);
        assert(buffer@ =~= start + Seq::new((buffer@.len() - start.len()) as nat, |i: int| fill));
    }
    assert(buffer@ =~= padded(start, n as nat, fill));
}

} // verus!
