use pyiter_random::iter::{
    advance_outcome, hint_from, init, lookup_index, resolve_call, resolve_lookup, step, Callable, Indexable,
    IterError, IteratorClass, PyCallableIterator, PyContext, PySequenceIterator,
};
use std::cell::Cell;

struct List {
    items: Vec<i64>,
    lookups: Cell<usize>,
    has_len: bool,
}

impl List {
    fn new(items: Vec<i64>) -> List {
        List { items, lookups: Cell::new(0), has_len: true }
    }
}

impl Indexable<i64, String> for List {
    fn get_item(&self, index: usize) -> Result<i64, IterError<String>> {
        self.lookups.set(self.lookups.get() + 1);
        match self.items.get(index) {
            Some(v) => Ok(*v),
            None => Err(IterError::IndexOutOfRange),
        }
    }

    fn length(&self) -> Option<usize> {
        if self.has_len {
            Some(self.items.len())
        } else {
            None
        }
    }
}

struct Failing(IterError<String>);

impl Indexable<i64, String> for Failing {
    fn get_item(&self, _index: usize) -> Result<i64, IterError<String>> {
        match &self.0 {
            IterError::Other(s) => Err(IterError::Other(s.clone())),
            IterError::IterationExhausted => Err(IterError::IterationExhausted),
            IterError::IndexOutOfRange => Err(IterError::IndexOutOfRange),
            IterError::LengthUnavailable => Err(IterError::LengthUnavailable),
        }
    }

    fn length(&self) -> Option<usize> {
        None
    }
}

fn is_exhausted<V>(r: &Result<V, IterError<String>>) -> bool {
    matches!(r, Err(IterError::IterationExhausted))
}

#[test]
fn forward_yields_every_item_then_stops() {
    let it = PySequenceIterator::new_forward(List::new(vec![10, 20, 30]));
    let mut got = Vec::new();
    for _ in 0..3 {
        got.push(it.next::<i64, String>().ok().unwrap());
    }
    assert_eq!(got, vec![10, 20, 30]);
    for _ in 0..4 {
        assert!(is_exhausted(&it.next::<i64, String>()));
    }
}

#[test]
fn reverse_yields_backwards_without_negative_lookup() {
    let it = PySequenceIterator::new_reversed(List::new(vec![1, 2, 3, 4]), 4);
    let mut got = Vec::new();
    for _ in 0..4 {
        got.push(it.next::<i64, String>().ok().unwrap());
    }
    assert_eq!(got, vec![4, 3, 2, 1]);
    for _ in 0..3 {
        assert!(is_exhausted(&it.next::<i64, String>()));
    }
    assert_eq!(it.obj.lookups.get(), 4);
}

#[test]
fn reverse_over_empty_makes_no_lookup() {
    let it = PySequenceIterator::new_reversed(List::new(vec![]), 0);
    assert!(is_exhausted(&it.next::<i64, String>()));
    assert!(is_exhausted(&it.next::<i64, String>()));
    assert_eq!(it.obj.lookups.get(), 0);
}

#[test]
fn interleaved_consumers_take_each_position_once() {
    let items: Vec<i64> = (0..50).collect();
    let it = PySequenceIterator::new_forward(List::new(items));
    let mut a = Vec::new();
    let mut b = Vec::new();
    let mut turn = 0usize;
    loop {
        let r = it.next::<i64, String>();
        match r {
            Ok(v) => {
                if turn % 3 == 0 {
                    a.push(v)
                } else {
                    b.push(v)
                }
            }
            Err(_) => break,
        }
        turn += 1;
    }
    let mut all: Vec<i64> = a.iter().chain(b.iter()).cloned().collect();
    all.sort();
    assert_eq!(all, (0..50).collect::<Vec<i64>>());
    assert!(a.iter().all(|x| !b.contains(x)));
}

#[test]
fn other_errors_pass_unchanged() {
    let it = PySequenceIterator::new_forward(Failing(IterError::Other("boom".to_string())));
    match it.next::<i64, String>() {
        Err(IterError::Other(s)) => assert_eq!(s, "boom"),
        _ => panic!("expected the subject's own error"),
    }
    let nested = PySequenceIterator::new_forward(Failing(IterError::IterationExhausted));
    assert!(is_exhausted(&nested.next::<i64, String>()));
}

#[test]
fn forward_hint_counts_down() {
    let it = PySequenceIterator::new_forward(List::new(vec![1, 2, 3, 4, 5]));
    assert_eq!(it.length_hint::<i64, String>().ok(), Some(5));
    let _ = it.next::<i64, String>();
    assert_eq!(it.length_hint::<i64, String>().ok(), Some(4));
}

#[test]
fn reverse_hint_is_position_plus_one() {
    let it = PySequenceIterator::new_reversed(List::new(vec![1, 2, 3]), 3);
    assert_eq!(it.length_hint::<i64, String>().ok(), Some(3));
    let _ = it.next::<i64, String>();
    assert_eq!(it.length_hint::<i64, String>().ok(), Some(2));
}

#[test]
fn hint_without_length_fails() {
    let mut list = List::new(vec![1]);
    list.has_len = false;
    let it = PySequenceIterator::new_forward(list);
    assert!(matches!(
        it.length_hint::<i64, String>(),
        Err(IterError::LengthUnavailable)
    ));
}

#[test]
fn hint_from_values() {
    assert_eq!(hint_from::<String>(2, false, Some(7)).ok(), Some(5));
    assert_eq!(hint_from::<String>(9, true, None).ok(), Some(10));
    assert_eq!(hint_from::<String>(-3, false, Some(usize::MAX)).ok(), Some(isize::MAX));
    assert!(matches!(
        hint_from::<String>(0, false, None),
        Err(IterError::LengthUnavailable)
    ));
}

#[test]
fn step_and_lookup_index() {
    assert_eq!(step(false), 1);
    assert_eq!(step(true), -1);
    assert_eq!(lookup_index(7), Some(7));
    assert_eq!(lookup_index(0), Some(0));
    assert_eq!(lookup_index(-1), None);
}

#[test]
fn resolve_lookup_converts_only_out_of_range() {
    assert!(is_exhausted(&resolve_lookup::<i64, String>(Err(IterError::IndexOutOfRange))));
    assert!(matches!(
        resolve_lookup::<i64, String>(Err(IterError::LengthUnavailable)),
        Err(IterError::LengthUnavailable)
    ));
    assert_eq!(resolve_lookup::<i64, String>(Ok(3)).ok(), Some(3));
}

struct Counter {
    next: Cell<i64>,
    calls: Cell<usize>,
    fail_at: i64,
}

impl Callable<i64, String> for Counter {
    fn invoke(&self) -> Result<i64, IterError<String>> {
        self.calls.set(self.calls.get() + 1);
        let v = self.next.get();
        self.next.set(v + 1);
        if v == self.fail_at {
            Err(IterError::Other("call failed".to_string()))
        } else {
            Ok(v)
        }
    }

    fn bool_eq(&self, a: &i64, b: &i64) -> Result<bool, IterError<String>> {
        Ok(a == b)
    }
}

#[test]
fn callable_stops_at_sentinel_and_calls_no_more() {
    let c = Counter { next: Cell::new(1), calls: Cell::new(0), fail_at: -1 };
    let it = PyCallableIterator::new(&c, 3);
    assert_eq!(it.next::<String>().ok(), Some(1));
    assert_eq!(it.next::<String>().ok(), Some(2));
    assert!(is_exhausted(&it.next::<String>()));
    for _ in 0..5 {
        assert!(is_exhausted(&it.iter().next::<String>()));
    }
    assert_eq!(c.calls.get(), 3);
}

#[test]
fn callable_counts_calls() {
    let c = Counter { next: Cell::new(1), calls: Cell::new(0), fail_at: -1 };
    let it = PyCallableIterator::new(&c, 2);
    assert_eq!(it.next::<String>().ok(), Some(1));
    assert!(is_exhausted(&it.next::<String>()));
    assert!(is_exhausted(&it.next::<String>()));
    assert!(is_exhausted(&it.next::<String>()));
    assert_eq!(c.calls.get(), 2);
}

impl<'a> Callable<i64, String> for &'a Counter {
    fn invoke(&self) -> Result<i64, IterError<String>> {
        (**self).invoke()
    }

    fn bool_eq(&self, a: &i64, b: &i64) -> Result<bool, IterError<String>> {
        (**self).bool_eq(a, b)
    }
}

#[test]
fn callable_error_passes_and_keeps_going() {
    let c = Counter { next: Cell::new(1), calls: Cell::new(0), fail_at: 2 };
    let it = PyCallableIterator::new(&c, 4);
    assert_eq!(it.next::<String>().ok(), Some(1));
    match it.next::<String>() {
        Err(IterError::Other(s)) => assert_eq!(s, "call failed"),
        _ => panic!("expected the call's error"),
    }
    assert_eq!(it.next::<String>().ok(), Some(3));
    assert!(is_exhausted(&it.next::<String>()));
    assert_eq!(c.calls.get(), 4);
}

#[test]
fn resolve_call_values() {
    let (out, done) = resolve_call::<i64, String>(5, Ok(true));
    assert!(is_exhausted(&out));
    assert!(done);
    let (out, done) = resolve_call::<i64, String>(5, Ok(false));
    assert_eq!(out.ok(), Some(5));
    assert!(!done);
    let (out, done) = resolve_call::<i64, String>(5, Err(IterError::Other("eq".to_string())));
    assert!(matches!(out, Err(IterError::Other(_))));
    assert!(!done);
}

#[test]
fn init_registers_both_classes() {
    let mut ctx = PyContext { classes: Vec::new() };
    init(&mut ctx);
    assert_eq!(ctx.classes, vec![IteratorClass::Sequence, IteratorClass::Callable]);
}

#[test]
fn advance_outcome_values() {
    let (out, latch) = advance_outcome::<i64, String>(true, None, None);
    assert!(is_exhausted(&out));
    assert!(latch);
    let (out, latch) =
        advance_outcome::<i64, String>(false, Some(Err(IterError::Other("x".to_string()))), None);
    assert!(matches!(out, Err(IterError::Other(s)) if s == "x"));
    assert!(!latch);
    let (out, latch) = advance_outcome::<i64, String>(false, Some(Ok(4)), Some(Ok(true)));
    assert!(is_exhausted(&out));
    assert!(latch);
    let (out, latch) = advance_outcome::<i64, String>(false, Some(Ok(4)), Some(Ok(false)));
    assert_eq!(out.ok(), Some(4));
    assert!(!latch);
}
