use vstd::prelude::*;
use vstd::wrapping::{isize_specs, usize_specs};

verus! {

/// One request seen by the instrumented allocator, with its size or sizes.
#[derive(Clone, Copy, Debug, PartialEq, Eq, Structural)]
pub enum Event {
    /// An allocation (plain or zeroed) of the given number of bytes.
    Allocate(usize),
    /// A deallocation of the given number of bytes.
    Deallocate(usize),
    /// A reallocation from the first size to the second.
    Reallocate(usize, usize),
}

/// Allocator statistics: six counters over a window of allocation events.
///
/// Every counter wraps around on overflow, so that recording an event never
/// fails; the differences between two snapshots of one series stay exact as long
/// as the series moved by less than the counter's range.
#[derive(Clone, Copy, Debug, PartialEq, Eq, Hash, Structural)]
pub struct Summary {
    /// Count of allocation operations.
    pub allocations: usize,
    /// Count of deallocation operations.
    pub deallocations: usize,
    /// Count of reallocation operations.
    pub reallocations: usize,
    /// Bytes requested by allocations and by growing reallocations.
    pub bytes_allocated: usize,
    /// Bytes freed by deallocations and by shrinking reallocations.
    pub bytes_deallocated: usize,
    /// Net bytes added by reallocations (negative when they shrank on the whole).
    pub bytes_reallocated: isize,
}

/// Bytes that one event adds to `bytes_allocated`.
pub open spec fn grown_by(e: Event) -> nat {
    match e {
        Event::Allocate(size) => size as nat,
        Event::Deallocate(_) => 0,
        Event::Reallocate(old_size, new_size) => if new_size > old_size {
            (new_size - old_size) as nat
        } else {
            0
        },
    }
}

/// Bytes that one event adds to `bytes_deallocated`.
pub open spec fn shrunk_by(e: Event) -> nat {
    match e {
        Event::Allocate(_) => 0,
        Event::Deallocate(size) => size as nat,
        Event::Reallocate(old_size, new_size) => if new_size < old_size {
            (old_size - new_size) as nat
        } else {
            0
        },
    }
}

/// Sum of the bytes that a series of events allocates, growth by reallocation included.
pub open spec fn grown_bytes(events: Seq<Event>) -> nat
    decreases events.len(),
{
    if events.len() == 0 {
        0
    } else {
        grown_by(events[0]) + grown_bytes(events.drop_first())
    }
}

/// Sum of the bytes that a series of events frees, shrinking by reallocation included.
pub open spec fn shrunk_bytes(events: Seq<Event>) -> nat
    decreases events.len(),
{
    if events.len() == 0 {
        0
    } else {
        shrunk_by(events[0]) + shrunk_bytes(events.drop_first())
    }
}

impl Summary {
    /// The summary with every counter at zero.
    pub open spec fn zero() -> Summary {
        Summary {
            allocations: 0,
            deallocations: 0,
            reallocations: 0,
            bytes_allocated: 0,
            bytes_deallocated: 0,
            bytes_reallocated: 0,
        }
    }

    /// Field-wise wrapping sum.
    pub open spec fn spec_plus(self, rhs: Summary) -> Summary {
        Summary {
            allocations: usize_specs::wrapping_add(self.allocations, rhs.allocations),
            deallocations: usize_specs::wrapping_add(self.deallocations, rhs.deallocations),
            reallocations: usize_specs::wrapping_add(self.reallocations, rhs.reallocations),
            bytes_allocated: usize_specs::wrapping_add(self.bytes_allocated, rhs.bytes_allocated),
            bytes_deallocated: usize_specs::wrapping_add(
                self.bytes_deallocated,
                rhs.bytes_deallocated,
            ),
            bytes_reallocated: isize_specs::wrapping_add(
                self.bytes_reallocated,
                rhs.bytes_reallocated,
            ),
        }
    }

    /// Field-wise wrapping difference.
    pub open spec fn spec_minus(self, rhs: Summary) -> Summary {
        Summary {
            allocations: usize_specs::wrapping_sub(self.allocations, rhs.allocations),
            deallocations: usize_specs::wrapping_sub(self.deallocations, rhs.deallocations),
            reallocations: usize_specs::wrapping_sub(self.reallocations, rhs.reallocations),
            bytes_allocated: usize_specs::wrapping_sub(self.bytes_allocated, rhs.bytes_allocated),
            bytes_deallocated: usize_specs::wrapping_sub(
                self.bytes_deallocated,
                rhs.bytes_deallocated,
            ),
            bytes_reallocated: isize_specs::wrapping_sub(
                self.bytes_reallocated,
                rhs.bytes_reallocated,
            ),
        }
    }

    /// The summary after one more allocation of `size` bytes.
    pub open spec fn spec_allocate(self, size: usize) -> Summary {
        Summary {
            allocations: usize_specs::wrapping_add(self.allocations, 1),
            bytes_allocated: usize_specs::wrapping_add(self.bytes_allocated, size),
            ..self
        }
    }

    /// The summary after one more deallocation of `size` bytes.
    pub open spec fn spec_deallocate(self, size: usize) -> Summary {
        Summary {
            deallocations: usize_specs::wrapping_add(self.deallocations, 1),
            bytes_deallocated: usize_specs::wrapping_add(self.bytes_deallocated, size),
            ..self
        }
    }

    /// The summary after one more reallocation from `old_size` to `new_size` bytes:
    /// only the difference of the two sizes counts as allocated or freed.
    pub open spec fn spec_reallocate(self, old_size: usize, new_size: usize) -> Summary {
        Summary {
            reallocations: usize_specs::wrapping_add(self.reallocations, 1),
            bytes_allocated: if new_size > old_size {
                usize_specs::wrapping_add(self.bytes_allocated, (new_size - old_size) as usize)
            } else {
                self.bytes_allocated
            },
            bytes_deallocated: if new_size < old_size {
                usize_specs::wrapping_add(self.bytes_deallocated, (old_size - new_size) as usize)
            } else {
                self.bytes_deallocated
            },
            bytes_reallocated: isize_specs::wrapping_add_unsigned(
                self.bytes_reallocated,
                usize_specs::wrapping_sub(new_size, old_size),
            ),
            ..self
        }
    }

    /// The summary after one event.
    pub open spec fn spec_record(self, e: Event) -> Summary {
        match e {
            Event::Allocate(size) => self.spec_allocate(size),
            Event::Deallocate(size) => self.spec_deallocate(size),
            Event::Reallocate(old_size, new_size) => self.spec_reallocate(old_size, new_size),
        }
    }

    /// The summary after a series of events, recorded first to last.
    pub open spec fn replay(self, events: Seq<Event>) -> Summary
        decreases events.len(),
    {
        if events.len() == 0 {
            self
        } else {
            self.spec_record(events[0]).replay(events.drop_first())
        }
    }

    /// Bytes allocated minus bytes deallocated, read as a two's complement value.
    pub open spec fn spec_outstanding(self) -> isize {
        isize_specs::wrapping_add_unsigned(
            0,
            usize_specs::wrapping_sub(self.bytes_allocated, self.bytes_deallocated),
        )
    }

    /// Initializes an empty stats summary.
    pub fn new() -> (r: Summary)
        ensures
            r == Summary::zero(),
    {
        Summary {
            allocations: 0,
            deallocations: 0,
            reallocations: 0,
            bytes_allocated: 0,
            bytes_deallocated: 0,
            bytes_reallocated: 0,
        }
    }

    /// Zeroes out every counter, making the summary equal to `Summary::new()`.
    pub fn reset(&mut self)
        ensures
            *final(self) == Summary::zero(),
    {
        *self = Summary::new();
    }

    /// The total number of bytes allocated according to this snapshot.
    pub fn total_bytes_allocated(&self) -> (r: usize)
        ensures
            r == self.bytes_allocated,
    {
        self.bytes_allocated
    }

    /// The number of bytes still allocated according to this snapshot. It is
    /// negative when the window freed more than it allocated.
    pub fn outstanding_bytes_allocated(&self) -> (r: isize)
        ensures
            r == self.spec_outstanding(),
            isize::MIN <= self.bytes_allocated - self.bytes_deallocated <= isize::MAX ==> r
                == self.bytes_allocated - self.bytes_deallocated,
    {
        0isize.wrapping_add_unsigned(self.bytes_allocated.wrapping_sub(self.bytes_deallocated))
    }

    /// Counts one allocation of `size` bytes.
    pub fn allocate(&mut self, size: usize)
        ensures
            *final(self) == old(self).spec_allocate(size),
    {
        self.allocations = self.allocations.wrapping_add(1);
        self.bytes_allocated = self.bytes_allocated.wrapping_add(size);
    }

    /// Counts one deallocation of `size` bytes.
    pub fn deallocate(&mut self, size: usize)
        ensures
            *final(self) == old(self).spec_deallocate(size),
    {
        self.deallocations = self.deallocations.wrapping_add(1);
        self.bytes_deallocated = self.bytes_deallocated.wrapping_add(size);
    }

    /// Counts one reallocation from `old_size` to `new_size` bytes: growth is
    /// added to the allocated bytes, shrinkage to the deallocated bytes, and the
    /// signed difference to the reallocated bytes.
    pub fn reallocate(&mut self, old_size: usize, new_size: usize)
        ensures
            *final(self) == old(self).spec_reallocate(old_size, new_size),
    {
        self.reallocations = self.reallocations.wrapping_add(1);
        if new_size > old_size {
            self.bytes_allocated = self.bytes_allocated.wrapping_add(new_size - old_size);
        } else if new_size < old_size {
            self.bytes_deallocated = self.bytes_deallocated.wrapping_add(old_size - new_size);
        }
        self.bytes_reallocated = self.bytes_reallocated.wrapping_add_unsigned(
            new_size.wrapping_sub(old_size),
        );
    }

    /// Counts one event.
    pub fn record(&mut self, e: Event)
        ensures
            *final(self) == old(self).spec_record(e),
    {
        match e {
            Event::Allocate(size) => self.allocate(size),
            Event::Deallocate(size) => self.deallocate(size),
            Event::Reallocate(old_size, new_size) => self.reallocate(old_size, new_size),
        }
    }

    /// Adds `rhs` into this summary, field by field.
    pub fn add_assign(&mut self, rhs: &Summary)
        ensures
            *final(self) == old(self).spec_plus(*rhs),
    {
        self.allocations = self.allocations.wrapping_add(rhs.allocations);
        self.deallocations = self.deallocations.wrapping_add(rhs.deallocations);
        self.reallocations = self.reallocations.wrapping_add(rhs.reallocations);
        self.bytes_allocated = self.bytes_allocated.wrapping_add(rhs.bytes_allocated);
        self.bytes_deallocated = self.bytes_deallocated.wrapping_add(rhs.bytes_deallocated);
        self.bytes_reallocated = self.bytes_reallocated.wrapping_add(rhs.bytes_reallocated);
    }

    /// Subtracts `rhs` from this summary, field by field.
    pub fn sub_assign(&mut self, rhs: &Summary)
        ensures
            *final(self) == old(self).spec_minus(*rhs),
    {
        self.allocations = self.allocations.wrapping_sub(rhs.allocations);
        self.deallocations = self.deallocations.wrapping_sub(rhs.deallocations);
        self.reallocations = self.reallocations.wrapping_sub(rhs.reallocations);
        self.bytes_allocated = self.bytes_allocated.wrapping_sub(rhs.bytes_allocated);
        self.bytes_deallocated = self.bytes_deallocated.wrapping_sub(rhs.bytes_deallocated);
        self.bytes_reallocated = self.bytes_reallocated.wrapping_sub(rhs.bytes_reallocated);
    }

    /// The field-wise sum of two summaries.
    pub fn plus(self, rhs: Summary) -> (r: Summary)
        ensures
            r == self.spec_plus(rhs),
    {
        let mut r = self;
        r.add_assign(&rhs);
        r
    }

    /// The field-wise difference of two summaries.
    pub fn minus(self, rhs: Summary) -> (r: Summary)
        ensures
            r == self.spec_minus(rhs),
    {
        let mut r = self;
        r.sub_assign(&rhs);
        r
    }
}

impl Default for Summary {
    fn default() -> (r: Summary)
        ensures
            r == Summary::zero(),
    {
        Summary::new()
    }
}

impl core::ops::Add for Summary {
    type Output = Summary;

    fn add(self, rhs: Summary) -> Summary {
        self.plus(rhs)
    }
}

impl vstd::std_specs::ops::AddSpecImpl for Summary {
    open spec fn obeys_add_spec() -> bool {
        true
    }

    open spec fn add_req(self, rhs: Summary) -> bool {
        true
    }

    open spec fn add_spec(self, rhs: Summary) -> Summary {
        self.spec_plus(rhs)
    }
}

impl core::ops::Sub for Summary {
    type Output = Summary;

    fn sub(self, rhs: Summary) -> Summary {
        self.minus(rhs)
    }
}

impl vstd::std_specs::ops::SubSpecImpl for Summary {
    open spec fn obeys_sub_spec() -> bool {
        true
    }

    open spec fn sub_req(self, rhs: Summary) -> bool {
        true
    }

    open spec fn sub_spec(self, rhs: Summary) -> Summary {
        self.spec_minus(rhs)
    }
}

impl core::ops::AddAssign for Summary {
    fn add_assign(&mut self, rhs: Summary) {
        Summary::add_assign(self, &rhs);
    }
}

impl core::ops::SubAssign for Summary {
    fn sub_assign(&mut self, rhs: Summary) {
        Summary::sub_assign(self, &rhs);
    }
}

/// Counting bytes over two series one after the other is counting each and adding.
pub proof fn lemma_bytes_of_concat(a: Seq<Event>, b: Seq<Event>)
    ensures
        grown_bytes(a + b) == grown_bytes(a) + grown_bytes(b),
        shrunk_bytes(a + b) == shrunk_bytes(a) + shrunk_bytes(b),
    decreases a.len(),
{
    if a.len() == 0 {
        assert(a + b =~= b);
    } else {
        assert((a + b).drop_first() =~= a.drop_first() + b);
        lemma_bytes_of_concat(a.drop_first(), b);
    }
}

/// Replaying events into a summary adds to its allocated bytes exactly the bytes
/// that the events allocate (reallocation growth included), and to its deallocated
/// bytes exactly those they free, as long as the counters do not wrap around.
pub proof fn lemma_replay_bytes(s: Summary, events: Seq<Event>)
    ensures
        s.bytes_allocated + grown_bytes(events) <= usize::MAX ==> s.replay(events).bytes_allocated
            == s.bytes_allocated + grown_bytes(events),
        s.bytes_deallocated + shrunk_bytes(events) <= usize::MAX ==> s.replay(
            events,
        ).bytes_deallocated == s.bytes_deallocated + shrunk_bytes(events),
    decreases events.len(),
{
    if events.len() > 0 {
        lemma_replay_bytes(s.spec_record(events[0]), events.drop_first());
    }
}

/// The total bytes allocated after a series of events is the sum of all positive
/// contributions (allocations plus growth by reallocation), whatever the order of
/// the events: swapping two neighbouring events leaves it unchanged.
pub proof fn lemma_total_bytes_allocated(
    s: Summary,
    before: Seq<Event>,
    x: Event,
    y: Event,
    after: Seq<Event>,
)
    requires
        s.bytes_allocated + grown_bytes(before + seq![x, y] + after) <= usize::MAX,
    ensures
        s.replay(before + seq![x, y] + after).bytes_allocated == s.bytes_allocated
            + grown_bytes(before + seq![x, y] + after),
        s.replay(before + seq![x, y] + after).bytes_allocated == s.replay(
            before + seq![y, x] + after,
        ).bytes_allocated,
{
    let xy = seq![x, y];
    let yx = seq![y, x];
    lemma_bytes_of_concat(before, xy);
    lemma_bytes_of_concat(before + xy, after);
    lemma_bytes_of_concat(before, yx);
    lemma_bytes_of_concat(before + yx, after);
    assert(xy.drop_first() =~= seq![y]);
    assert(yx.drop_first() =~= seq![x]);
    assert(seq![y].drop_first() =~= Seq::<Event>::empty());
    assert(seq![x].drop_first() =~= Seq::<Event>::empty());
    assert(grown_bytes(seq![y]) == grown_by(y) + grown_bytes(Seq::<Event>::empty()));
    assert(grown_bytes(seq![x]) == grown_by(x) + grown_bytes(Seq::<Event>::empty()));
    assert(grown_bytes(xy) == grown_by(x) + grown_bytes(seq![y]));
    assert(grown_bytes(yx) == grown_by(y) + grown_bytes(seq![x]));
    lemma_replay_bytes(s, before + xy + after);
    lemma_replay_bytes(s, before + yx + after);
}

/// After a series of events that allocates exactly `n` bytes and frees exactly
/// `n` bytes, in any order and any number of operations, a fresh summary shows
/// no outstanding bytes.
pub proof fn lemma_balanced_outstanding(events: Seq<Event>, n: usize)
    requires
        grown_bytes(events) == n,
        shrunk_bytes(events) == n,
    ensures
        Summary::zero().replay(events).spec_outstanding() == 0,
{
    lemma_replay_bytes(Summary::zero(), events);
}

/// Summary addition is commutative.
pub proof fn lemma_plus_commutative(a: Summary, b: Summary)
    ensures
        a.spec_plus(b) == b.spec_plus(a),
{
}

/// Summary addition is associative and commutative: `(a + b) + c`, `a + (b + c)`
/// and `a + c + b` are the same summary.
pub proof fn lemma_plus_associative(a: Summary, b: Summary, c: Summary)
    ensures
        a.spec_plus(b).spec_plus(c) == a.spec_plus(b.spec_plus(c)),
        a.spec_plus(b.spec_plus(c)) == a.spec_plus(c).spec_plus(b),
{
}

/// Taking away what was added gives back the summary one started from.
pub proof fn lemma_plus_minus(a: Summary, b: Summary)
    ensures
        a.spec_plus(b).spec_minus(b) == a,
{
}

/// A summary minus itself is the zero summary.
pub proof fn lemma_minus_self(a: Summary)
    ensures
        a.spec_minus(a) == Summary::zero(),
{
}

/// Counting an event before or after adding another summary gives the same sum.
pub proof fn lemma_record_then_plus(a: Summary, b: Summary, e: Event)
    ensures
        a.spec_record(e).spec_plus(b) == a.spec_plus(b).spec_record(e),
{
    match e {
        Event::Allocate(size) => {},
        Event::Deallocate(size) => {},
        Event::Reallocate(old_size, new_size) => {},
    }
}

/// What counting an event adds to a summary is that event counted from zero.
pub proof fn lemma_record_minus(s: Summary, e: Event)
    ensures
        s.spec_record(e).spec_minus(s) == Summary::zero().spec_record(e),
{
}

} // verus!
