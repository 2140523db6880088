//! Iterators over an indexable subject and over a callable with a sentinel.
//!
//! Both keep their cursor in an atomic cell, so that several threads may
//! advance one iterator at once: each advance consumes its own position.
use crossbeam_utils::atomic::AtomicCell;
use vstd::prelude::*;

verus! {

#[verifier::external_type_specification]
#[verifier::external_body]
#[verifier::reject_recursive_types(T)]
pub struct ExAtomicCell<T>(AtomicCell<T>);

/// Relies on `AtomicCell::new`: a cell holding `v`.
///
/// The cell is shared between threads, so nothing is stated of what a later
/// read of it returns.
#[verifier::external_body]
fn cell_new<T>(v: T) -> AtomicCell<T> {
    AtomicCell::new(v)
}

/// Relies on `AtomicCell::<isize>::fetch_add`: adds `step` (wrapping) and
/// returns the value held before, in one atomic step. Other threads may have
/// moved the cell, so nothing is stated of that value.
#[verifier::external_body]
fn cell_fetch_add(c: &AtomicCell<isize>, step: isize) -> isize {
    c.fetch_add(step)
}

/// Relies on `AtomicCell::load`: the value currently held, which other
/// threads may have set.
#[verifier::external_body]
fn cell_load<T: Copy>(c: &AtomicCell<T>) -> T {
    c.load()
}

/// Relies on `AtomicCell::store`: replaces the value held.
#[verifier::external_body]
fn cell_store<T: Copy>(c: &AtomicCell<T>, v: T) {
    c.store(v)
}

/// What an advance or a length query can fail with.
pub enum IterError<E> {
    /// The iterator has no more items: the normal end of iteration.
    IterationExhausted,
    /// A lookup was made at an index past the subject's end.
    IndexOutOfRange,
    /// The subject cannot tell its length.
    LengthUnavailable,
    /// Any other failure of the subject or the callable, passed on as it is.
    Other(E),
}

/// An object that can be read by index, and may know its length.
pub trait Indexable<V, E> {
    /// The item at `index`, or `IndexOutOfRange` past the end.
    fn get_item(&self, index: usize) -> Result<V, IterError<E>>;

    /// The number of items, where the object has one.
    fn length(&self) -> Option<usize>;
}

/// How far one advance moves the cursor.
pub open spec fn step_of(reversed: bool) -> int {
    if reversed {
        -1
    } else {
        1
    }
}

/// The cursor after `k` advances from `start`.
pub open spec fn position_after(start: int, reversed: bool, k: nat) -> int {
    start + k * step_of(reversed)
}

/// A failed lookup past the end becomes the end of iteration; every other
/// result passes unchanged.
pub open spec fn resolved<V, E>(r: Result<V, IterError<E>>) -> Result<V, IterError<E>> {
    match r {
        Err(IterError::IndexOutOfRange) => Err(IterError::IterationExhausted),
        _ => r,
    }
}

/// What a subject holding `items` answers to a lookup at `pos`.
pub open spec fn list_lookup<V, E>(items: Seq<V>, pos: int) -> Result<V, IterError<E>> {
    if 0 <= pos < items.len() {
        Ok(items[pos])
    } else {
        Err(IterError::IndexOutOfRange)
    }
}

/// The result of an advance that consumed position `pos` of a subject
/// holding `items`: a negative position ends iteration with no lookup.
pub open spec fn list_advance<V, E>(items: Seq<V>, pos: int) -> Result<V, IterError<E>> {
    if pos < 0 {
        Err(IterError::IterationExhausted)
    } else {
        resolved(list_lookup(items, pos))
    }
}

/// `x` held to the range of `isize`.
pub open spec fn clamp_isize(x: int) -> isize {
    if x > isize::MAX {
        isize::MAX
    } else if x < isize::MIN {
        isize::MIN
    } else {
        x as isize
    }
}

/// The remaining-length estimate at cursor `pos`: `pos + 1` in reverse,
/// else the subject's length less `pos`, or `LengthUnavailable`.
pub open spec fn hint_spec<E>(pos: int, reversed: bool, len: Option<usize>) -> Result<
    isize,
    IterError<E>,
> {
    if reversed {
        Ok(clamp_isize(pos + 1))
    } else {
        match len {
            Some(n) => Ok(clamp_isize(n - pos)),
            None => Err(IterError::LengthUnavailable),
        }
    }
}

/// The step that one advance adds to the cursor.
pub fn step(reversed: bool) -> (r: isize)
    ensures
        r == step_of(reversed),
{
    if reversed {
        -1
    } else {
        1
    }
}

/// The index to look up for the consumed position `pos`; none when it is
/// negative, which ends iteration.
pub fn lookup_index(pos: isize) -> (r: Option<usize>)
    ensures
        r == (if pos >= 0 {
            Some(pos as usize)
        } else {
            None::<usize>
        }),
{
    if pos >= 0 {
        Some(pos as usize)
    } else {
        None
    }
}

/// Turns an out-of-range lookup into the end of iteration.
pub fn resolve_lookup<V, E>(r: Result<V, IterError<E>>) -> (out: Result<V, IterError<E>>)
    ensures
        out == resolved(r),
{
    match r {
        Err(IterError::IndexOutOfRange) => Err(IterError::IterationExhausted),
        _ => r,
    }
}

/// The remaining-length estimate at cursor `pos`, given the subject's length
/// where one was asked for.
pub fn hint_from<E>(pos: isize, reversed: bool, len: Option<usize>) -> (r: Result<
    isize,
    IterError<E>,
>)
    ensures
        r == hint_spec::<E>(pos as int, reversed, len),
{
    let wide: i128 = if reversed {
        pos as i128 + 1
    } else {
        match len {
            Some(n) => n as i128 - pos as i128,
            None => {
                return Err(IterError::LengthUnavailable);
            },
        }
    };
    if wide > isize::MAX as i128 {
        Ok(isize::MAX)
    } else if wide < isize::MIN as i128 {
        Ok(isize::MIN)
    } else {
        Ok(wide as isize)
    }
}

/// An iterator over an indexable subject, forward from index 0 or in
/// reverse from a given length.
pub struct PySequenceIterator<S> {
    /// The next position to consume; shared between advancing threads.
    pub position: AtomicCell<isize>,
    /// The subject read by index.
    pub obj: S,
    /// Whether the cursor moves down instead of up.
    pub reversed: bool,
}

impl<S> PySequenceIterator<S> {
    /// A forward iterator whose cursor starts at 0.
    pub fn new_forward(obj: S) -> (r: Self)
        ensures
            r.obj == obj,
            !r.reversed,
    {
        PySequenceIterator { position: cell_new(0isize), obj, reversed: false }
    }

    /// A reverse iterator whose cursor starts at `len - 1`.
    pub fn new_reversed(obj: S, len: isize) -> (r: Self)
        requires
            len > isize::MIN,
        ensures
            r.obj == obj,
            r.reversed,
    {
        PySequenceIterator { position: cell_new(len - 1), obj, reversed: true }
    }

    /// Consumes one position and looks it up in the subject.
    ///
    /// A negative position ends iteration without a lookup; a lookup past
    /// the end ends iteration; any other result of the lookup is returned as
    /// it came.
    pub fn next<V, E>(&self) -> (r: Result<V, IterError<E>>)
        where
            S: Indexable<V, E>,
        ensures
            !(r matches Err(IterError::IndexOutOfRange)),
    {
        let pos = cell_fetch_add(&self.position, step(self.reversed));
        match lookup_index(pos) {
            Some(i) => resolve_lookup(self.obj.get_item(i)),
            None => Err(IterError::IterationExhausted),
        }
    }

    /// An iterator is its own iterable.
    pub fn iter(&self) -> (r: &Self)
        ensures
            r == self,
    {
        self
    }

    /// An estimate of the items left, read without moving the cursor: one
    /// more than the cursor in reverse, else the subject's length less the
    /// cursor. Only a forward iterator asks the subject for its length.
    pub fn length_hint<V, E>(&self) -> (r: Result<isize, IterError<E>>)
        where
            S: Indexable<V, E>,
        ensures
            self.reversed ==> r is Ok,
            r is Err ==> r == Err::<isize, IterError<E>>(IterError::LengthUnavailable),
    {
        let pos = cell_load(&self.position);
        let len = if self.reversed {
            None
        } else {
            self.obj.length()
        };
        hint_from(pos, self.reversed, len)
    }
}

/// Something that can be called with no arguments, and that can compare two
/// of the values it returns.
pub trait Callable<V, E> {
    /// Calls it once.
    fn invoke(&self) -> Result<V, IterError<E>>;

    /// Value equality of `a` and `b`, which may itself fail.
    fn bool_eq(&self, a: &V, b: &V) -> Result<bool, IterError<E>>;
}

/// What one advance of a callable iterator gives once the call returned `ret`
/// and the comparison with the sentinel gave `eq`, and whether the iterator
/// is then done.
pub open spec fn sentinel_outcome<V, E>(ret: V, eq: Result<bool, IterError<E>>) -> (
    Result<V, IterError<E>>,
    bool,
) {
    match eq {
        Ok(true) => (Err(IterError::IterationExhausted), true),
        Ok(false) => (Ok(ret), false),
        Err(e) => (Err(e), false),
    }
}

/// Decides an advance of a callable iterator from the call's value and its
/// comparison with the sentinel: the sentinel ends iteration and sets the
/// latch, another value is returned, a failed comparison is passed on.
pub fn resolve_call<V, E>(ret: V, eq: Result<bool, IterError<E>>) -> (r: (
    Result<V, IterError<E>>,
    bool,
))
    ensures
        r == sentinel_outcome(ret, eq),
{
    match eq {
        Ok(true) => (Err(IterError::IterationExhausted), true),
        Ok(false) => (Ok(ret), false),
        Err(e) => (Err(e), false),
    }
}

/// Whether an advance's parts fit together: with the latch set nothing is
/// called; else the call is made, and its value, where it has one, is
/// compared with the sentinel.
pub open spec fn advance_parts<V, E>(
    done: bool,
    call: Option<Result<V, IterError<E>>>,
    eq: Option<Result<bool, IterError<E>>>,
) -> bool {
    if done {
        call is None && eq is None
    } else {
        match call {
            Some(Ok(_)) => eq is Some,
            Some(Err(_)) => eq is None,
            None => false,
        }
    }
}

/// What an advance of a callable iterator gives, and the latch after it,
/// from the latch before it, the call's result and the comparison's result.
pub open spec fn advance_spec<V, E>(
    done: bool,
    call: Option<Result<V, IterError<E>>>,
    eq: Option<Result<bool, IterError<E>>>,
) -> (Result<V, IterError<E>>, bool) {
    if done {
        (Err(IterError::IterationExhausted), true)
    } else {
        match call {
            Some(Err(e)) => (Err(e), false),
            Some(Ok(v)) => match eq {
                Some(q) => sentinel_outcome(v, q),
                None => (Err(IterError::IterationExhausted), false),
            },
            None => (Err(IterError::IterationExhausted), false),
        }
    }
}

/// Decides an advance of a callable iterator: a set latch ends iteration and
/// stays set; a failed call is passed on and leaves the latch clear; a value
/// is then decided against the sentinel.
pub fn advance_outcome<V, E>(
    done: bool,
    call: Option<Result<V, IterError<E>>>,
    eq: Option<Result<bool, IterError<E>>>,
) -> (r: (Result<V, IterError<E>>, bool))
    requires
        advance_parts(done, call, eq),
    ensures
        r == advance_spec(done, call, eq),
        done ==> r.1,
{
    if done {
        return (Err(IterError::IterationExhausted), true);
    }
    match call {
        Some(Err(e)) => (Err(e), false),
        Some(Ok(v)) => match eq {
            Some(q) => resolve_call(v, q),
            None => (Err(IterError::IterationExhausted), false),
        },
        None => (Err(IterError::IterationExhausted), false),
    }
}

/// An iterator that calls `callable` until it returns `sentinel`.
pub struct PyCallableIterator<C, V> {
    callable: C,
    sentinel: V,
    done: AtomicCell<bool>,
}

impl<C, V> PyCallableIterator<C, V> {
    /// An iterator that has not yet met its sentinel.
    pub fn new(callable: C, sentinel: V) -> (r: Self)
        ensures
            r.callable() == callable,
            r.sentinel() == sentinel,
    {
        PyCallableIterator { callable, sentinel, done: cell_new(false) }
    }

    /// What the iterator calls.
    pub closed spec fn callable(&self) -> C {
        self.callable
    }

    /// The value that ends iteration.
    pub closed spec fn sentinel(&self) -> V {
        self.sentinel
    }

    /// Once the latch is set, ends iteration without calling. Else calls once:
    /// a failed call is passed on and leaves the latch alone; a value equal to
    /// the sentinel sets the latch and ends iteration; another value is
    /// returned.
    pub fn next<E>(&self) -> (r: Result<V, IterError<E>>)
        where
            C: Callable<V, E>,
        ensures
            exists|
                done: bool,
                call: Option<Result<V, IterError<E>>>,
                eq: Option<Result<bool, IterError<E>>>,
            | advance_parts(done, call, eq) && r == advance_spec(done, call, eq).0,
    {
        let done = cell_load(&self.done);
        let call = if done {
            None
        } else {
            Some(self.callable.invoke())
        };
        let eq = match &call {
            Some(Ok(v)) => Some(self.callable.bool_eq(v, &self.sentinel)),
            _ => None,
        };
        let ghost (gc, gq) = (call, eq);
        let (out, latched) = advance_outcome(done, call, eq);
        if latched && !done {
            cell_store(&self.done, true);
        }
        assert(advance_parts(done, gc, gq) && out == advance_spec(done, gc, gq).0);
        out
    }

    /// An iterator is its own iterable.
    pub fn iter(&self) -> (r: &Self)
        ensures
            r == self,
    {
        self
    }
}

/// The iterator classes a context can hold.
#[derive(PartialEq, Eq, Structural, Clone, Copy, Debug)]
pub enum IteratorClass {
    /// The class of `PySequenceIterator`.
    Sequence,
    /// The class of `PyCallableIterator`.
    Callable,
}

/// The classes registered so far, in the order they were registered.
pub struct PyContext {
    pub classes: Vec<IteratorClass>,
}

/// Registers the sequence iterator class, then the callable iterator class.
pub fn init(context: &mut PyContext)
    ensures
        final(context).classes@ == old(context).classes@.push(IteratorClass::Sequence).push(
            IteratorClass::Callable,
        ),
{
    context.classes.push(IteratorClass::Sequence);
    context.classes.push(IteratorClass::Callable);
}

/// A forward iterator over a subject holding `items` gives the items in
/// order, one per advance, and ends iteration on every advance after them.
pub proof fn lemma_forward_yields_in_order<V, E>(items: Seq<V>, k: nat)
    ensures
        list_advance::<V, E>(items, position_after(0, false, k)) == (if k < items.len() {
            Ok(items[k as int])
        } else {
            Err(IterError::<E>::IterationExhausted)
        }),
{
}

/// A reverse iterator made with the subject's length gives the items from
/// last to first, one per advance; every advance after them consumes a
/// negative position, so it ends iteration and makes no lookup.
pub proof fn lemma_reverse_yields_in_order<V, E>(items: Seq<V>, k: nat)
    ensures
        k < items.len() ==> position_after(items.len() - 1, true, k) >= 0 && list_advance::<
            V,
            E,
        >(items, position_after(items.len() - 1, true, k)) == Ok::<V, IterError<E>>(
            items[items.len() - 1 - k],
        ),
        k >= items.len() ==> position_after(items.len() - 1, true, k) < 0 && list_advance::<
            V,
            E,
        >(items, position_after(items.len() - 1, true, k)) == Err::<V, IterError<E>>(
            IterError::IterationExhausted,
        ),
{
}

/// Advances take the cursor's positions one by one, however they are spread
/// over threads: the `k`-th advance is the only one to consume its position,
/// so each position is consumed exactly once.
pub proof fn lemma_each_position_once(start: int, reversed: bool, j: nat, k: nat)
    ensures
        position_after(start, reversed, j) == position_after(start, reversed, k) <==> j == k,
{
    if j != k {
        if reversed {
            assert(position_after(start, reversed, j) == start - j);
            assert(position_after(start, reversed, k) == start - k);
        } else {
            assert(position_after(start, reversed, j) == start + j);
            assert(position_after(start, reversed, k) == start + k);
        }
    }
}

/// On a forward iterator over a subject of length `len`, the estimate after
/// `k` advances is `len - k`.
pub proof fn lemma_forward_hint_counts_down<E>(len: usize, k: nat)
    requires
        k <= len <= isize::MAX,
    ensures
        hint_spec::<E>(position_after(0, false, k), false, Some(len)) == Ok::<
            isize,
            IterError<E>,
        >((len - k) as isize),
{
}

/// Latch and number of calls of a callable iterator after `k` advances, where
/// its `i`-th call returns a value that equals the sentinel when `sent[i]`
/// holds.
pub open spec fn callable_state(sent: Seq<bool>, k: nat) -> (bool, nat)
    decreases k,
{
    if k == 0 {
        (false, 0)
    } else {
        let (done, calls) = callable_state(sent, (k - 1) as nat);
        if done {
            (true, calls)
        } else {
            (sentinel_outcome::<bool, ()>(true, Ok(sent[calls as int])).1, calls + 1)
        }
    }
}

/// What the `k`-th advance (from 0) of such a callable iterator gives, where
/// its calls return `vals` in order.
pub open spec fn callable_output<V, E>(vals: Seq<V>, sent: Seq<bool>, k: nat) -> Result<
    V,
    IterError<E>,
> {
    let (done, calls) = callable_state(sent, k);
    if done {
        Err(IterError::IterationExhausted)
    } else {
        sentinel_outcome(vals[calls as int], Ok(sent[calls as int])).0
    }
}

/// A callable iterator gives the values before the first one equal to its
/// sentinel, ends iteration there and on every later advance, and makes no
/// call after that one.
pub proof fn lemma_callable_stops_at_sentinel<V, E>(vals: Seq<V>, sent: Seq<bool>, j: nat, k: nat)
    requires
        vals.len() == sent.len(),
        j < sent.len(),
        sent[j as int],
        forall|i: int| 0 <= i < j ==> !sent[i],
    ensures
        k <= j ==> callable_state(sent, k) == (false, k),
        k > j ==> callable_state(sent, k) == (true, j + 1),
        callable_output::<V, E>(vals, sent, k) == (if k < j {
            Ok(vals[k as int])
        } else {
            Err(IterError::<E>::IterationExhausted)
        }),
    decreases k,
{
    if k > 0 {
        lemma_callable_stops_at_sentinel::<V, E>(vals, sent, j, (k - 1) as nat);
    }
}

} // verus!
