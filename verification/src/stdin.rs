//! The byte queue between the host's standard-input reader and the guest's
//! serial port: the reader appends what it read, the serial device drains
//! as much as fits, first in first out.

use vstd::prelude::*;
use std::collections::VecDeque;

verus! {

/// Bytes read from the host, not yet taken by the guest.
pub struct InputBuffer {
    queue: VecDeque<u8>,
}

/// How many bytes a read of capacity `cap` takes from `q`, and what stays.
pub open spec fn take_count(q: Seq<u8>, cap: nat) -> nat {
    if q.len() < cap {
        q.len()
    } else {
        cap
    }
}

impl View for InputBuffer {
    type V = Seq<u8>;

    closed spec fn view(&self) -> Seq<u8> {
        self.queue@
    }
}

impl InputBuffer {
    pub fn new() -> (b: InputBuffer)
        ensures
            b@ == Seq::<u8>::empty(),
    {
        InputBuffer { queue: VecDeque::new() }
    }

    pub fn len(&self) -> (n: usize)
        ensures
            n == self@.len(),
    {
        self.queue.len()
    }

    /// Appends bytes the host reader delivered.
    pub fn push(&mut self, data: &[u8])
        ensures
            final(self)@ == old(self)@ + data@,
    {
        let mut i: usize = 0;
        while i < data.len()
            invariant
                i <= data@.len(),
                self@ == old(self)@ + data@.subrange(0, i as int),
            decreases data@.len() - i,
        {
            self.queue.push_back(data[i]);
            i = i + 1;
            assert(self@ =~= old(self)@ + data@.subrange(0, i as int));
        }
        assert(data@.subrange(0, data@.len() as int) =~= data@);
    }

    /// Moves the oldest bytes into `buf`, as many as are queued and fit.
    /// Returns how many were moved and whether the queue is now empty (the
    /// caller then clears the readiness signal).
    pub fn read(&mut self, buf: &mut [u8]) -> (r: (usize, bool))
        ensures
            r.0 == take_count(old(self)@, old(buf)@.len()),
            final(buf)@.len() == old(buf)@.len(),
            final(buf)@.subrange(0, r.0 as int) == old(self)@.subrange(0, r.0 as int),
            final(buf)@.subrange(r.0 as int, final(buf)@.len() as int) == old(buf)@.subrange(
                r.0 as int,
                old(buf)@.len() as int,
            ),
            final(self)@ == old(self)@.subrange(r.0 as int, old(self)@.len() as int),
            r.1 == (final(self)@.len() == 0),
    {
        let n = if self.queue.len() < buf.len() {
            self.queue.len()
        } else {
            buf.len()
        };
        let ghost q0 = self@;
        let ghost b0 = buf@;
        let mut i: usize = 0;
        while i < n
            invariant
                n == take_count(q0, b0.len()),
                i <= n,
                buf@.len() == b0.len(),
                self@ == q0.subrange(i as int, q0.len() as int),
                forall|j: int| 0 <= j < i ==> buf@[j] == q0[j],
                forall|j: int| n <= j < b0.len() ==> buf@[j] == b0[j],
            decreases n - i,
        {
            let b = self.queue.pop_front();
            match b {
                Some(v) => {
                    buf[i] = v;
                },
                None => {
                    assert(false);
                },
            }
            assert(self@ =~= q0.subrange(i + 1, q0.len() as int));
            i = i + 1;
        }
        assert(buf@.subrange(0, n as int) =~= q0.subrange(0, n as int));
        assert(buf@.subrange(n as int, buf@.len() as int) =~= b0.subrange(n as int, b0.len() as int));
        (n, self.queue.len() == 0)
    }
}

/// What a read of capacity `cap` returns and leaves after `data` was
/// appended to queue `q`.
pub open spec fn read_after_push(q: Seq<u8>, data: Seq<u8>, cap: nat) -> (Seq<u8>, Seq<u8>) {
    let all = q + data;
    let n = take_count(all, cap);
    (all.subrange(0, n as int), all.subrange(n as int, all.len() as int))
}

/// Bytes come out in the order they went in: after appending `data` to an
/// empty queue, a read with room for all of it returns exactly `data` and
/// leaves the queue empty; with older bytes queued, those come out first.
pub proof fn lemma_fifo(q: Seq<u8>, data: Seq<u8>, cap: nat)
    ensures
        q.len() == 0 && cap >= data.len() ==> read_after_push(q, data, cap).0 == data
            && read_after_push(q, data, cap).1.len() == 0,
        cap >= q.len() ==> read_after_push(q, data, cap).0.subrange(0, q.len() as int) == q,
{
    let all = q + data;
    if q.len() == 0 && cap >= data.len() {
        assert(all =~= data);
        assert(all.subrange(0, data.len() as int) =~= data);
    }
    if cap >= q.len() {
        let n = take_count(all, cap);
        assert(all.subrange(0, n as int).subrange(0, q.len() as int) =~= q);
    }
}

} // verus!
