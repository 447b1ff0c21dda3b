use vstd::prelude::*;
use std::collections::VecDeque;

verus! {

/// The last `cap` items of `s` (all of them when there are fewer), in order.
pub open spec fn window<T>(s: Seq<T>, cap: nat) -> Seq<T> {
    if s.len() <= cap {
        s
    } else {
        s.subrange(s.len() - cap, s.len() as int)
    }
}

/// Bounded, insertion-ordered history of lines; when full, the oldest line
/// makes room for the newest.
pub struct LogBuffer {
    entries: VecDeque<String>,
    capacity: usize,
}

impl View for LogBuffer {
    type V = Seq<String>;

    closed spec fn view(&self) -> Seq<String> {
        self.entries@
    }
}

impl LogBuffer {
    pub closed spec fn spec_capacity(&self) -> nat {
        self.capacity as nat
    }

    /// The buffer never holds more lines than its capacity.
    pub open spec fn wf(&self) -> bool {
        self@.len() <= self.spec_capacity()
    }

    pub fn new(capacity: usize) -> (r: LogBuffer)
        ensures
            r.wf(),
            r@ == Seq::<String>::empty(),
            r.spec_capacity() == capacity,
    {
        LogBuffer { entries: VecDeque::new(), capacity }
    }

    pub fn capacity(&self) -> (r: usize)
        ensures
            r == self.spec_capacity(),
    {
        self.capacity
    }

    pub fn len(&self) -> (r: usize)
        ensures
            r == self@.len(),
    {
        self.entries.len()
    }

    /// The lines held, oldest first.
    pub fn entries(&self) -> (r: Vec<String>)
        ensures
            r@ == self@,
    {
        let mut out: Vec<String> = Vec::new();
        let n = self.entries.len();
        let mut i: usize = 0;
        while i < n
            invariant
                n == self@.len(),
                i <= n,
                out@ == self@.subrange(0, i as int),
            decreases n - i,
        {
            out.push(self.entries[i].clone());
            i = i + 1;
            assert(out@ =~= self@.subrange(0, i as int));
        }
        assert(self@.subrange(0, n as int) =~= self@);
        out
    }

    /// Appends `line`, first dropping the oldest line when the buffer is full.
    /// With capacity zero nothing is kept.
    pub fn push(&mut self, line: String)
        requires
            old(self).wf(),
        ensures
            final(self).wf(),
            final(self).spec_capacity() == old(self).spec_capacity(),
            final(self)@ == window(old(self)@.push(line), old(self).spec_capacity()),
    {
        if self.capacity == 0 {
            assert(window(self.entries@.push(line), 0) =~= Seq::<String>::empty());
            return;
        }
        let ghost before = self.entries@;
        if self.entries.len() == self.capacity {
            self.entries.pop_front();
        }
        self.entries.push_back(line);
        assert(self.entries@ =~= window(before.push(line), self.capacity as nat));
    }
}

/// Pushing one more item onto the window of a history gives the window of
/// the longer history: a buffer fed item by item holds the last `cap` items.
pub proof fn lemma_window_push<T>(s: Seq<T>, x: T, cap: nat)
    ensures
        window(window(s, cap).push(x), cap) == window(s.push(x), cap),
{
    assert(window(window(s, cap).push(x), cap) =~= window(s.push(x), cap));
}

/// After any sequence of pushes into an empty buffer of capacity `cap`, its
/// length is `min(N, cap)`, and when more than `cap` items were pushed it
/// holds exactly the last `cap` of them in push order.
pub proof fn lemma_window_shape<T>(s: Seq<T>, cap: nat)
    ensures
        window(s, cap).len() == if s.len() <= cap { s.len() } else { cap },
        s.len() > cap ==> forall|i: int|
            0 <= i < cap ==> #[trigger] window(s, cap)[i] == s[s.len() - cap + i],
{
}

/// What a buffer of capacity `cap`, empty at first, holds after `s` was
/// pushed into it item by item, each push as `LogBuffer::push` states it.
pub open spec fn fed<T>(s: Seq<T>, cap: nat) -> Seq<T>
    decreases s.len(),
{
    if s.len() == 0 {
        Seq::empty()
    } else {
        window(fed(s.drop_last(), cap).push(s.last()), cap)
    }
}

/// For every capacity and every sequence of pushes into an empty buffer, the
/// buffer holds the last `min(N, cap)` items pushed, in push order.
pub proof fn lemma_fed_is_window<T>(s: Seq<T>, cap: nat)
    ensures
        fed(s, cap) == window(s, cap),
        fed(s, cap).len() == if s.len() <= cap { s.len() } else { cap },
    decreases s.len(),
{
    if s.len() == 0 {
        assert(window(s, cap) =~= Seq::<T>::empty());
    } else {
        lemma_fed_is_window(s.drop_last(), cap);
        lemma_window_push(s.drop_last(), s.last(), cap);
        assert(s.drop_last().push(s.last()) =~= s);
    }
    lemma_window_shape(s, cap);
}

} // verus!
