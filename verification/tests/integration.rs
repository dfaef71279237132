use std::borrow::Borrow;
use std::collections::HashMap;
use std::hash::Hash;
use std::mem;
use std::sync::atomic::{AtomicBool, AtomicU32, Ordering};
use std::sync::OnceLock;

use mimicry::mock::mock_for_call;
use mimicry::{
    CallReal, CheckRealCall, Mock, Mut, RealCallSwitch, Shared, StateRef, Static, ThreadLocal,
};

const GONE: &str = "mock state is gone";

// --- mock_basics ---

#[derive(Default)]
struct SearchMock {
    called_times: usize,
}

impl Mock for SearchMock {
    type Base = Mut<Self>;
    type Shared = ThreadLocal<Mut<Self>>;

    fn instance() -> &'static Static<Self::Shared> {
        static SHARED: OnceLock<Static<ThreadLocal<Mut<SearchMock>>>> = OnceLock::new();
        SHARED.get_or_init(Static::new)
    }
}

fn search(haystack: &str, needle: char) -> Option<usize> {
    if let Some(state) = mock_for_call(SearchMock::instance()) {
        return state
            .with(|this| SearchMock::mock_search(this, haystack, needle))
            .expect(GONE);
    }
    haystack.chars().position(|ch| ch == needle)
}

impl SearchMock {
    fn mock_search(this: &Mut<Self>, haystack: &str, needle: char) -> Option<usize> {
        this.borrow().unwrap().called_times += 1;
        match haystack {
            "test" => Some(42),
            short if short.len() <= 2 => None,
            _ => this
                .call_real()
                .unwrap()
                .scope(|| search(haystack, if needle == '?' { 'e' } else { needle })),
        }
    }
}

#[test]
fn mock_basics() {
    let recovered = {
        let guard = SearchMock::default().set_as_mock().unwrap();
        assert_eq!(search("test", '?'), Some(42));
        assert_eq!(search("?!", '?'), None);
        assert_eq!(search("needle?", '?'), Some(1));
        assert_eq!(search("needle?", 'd'), Some(3));
        guard.into_inner().unwrap()
    };
    assert_eq!(recovered.called_times, 4);

    // Mock is not used here.
    assert_eq!(search("test", '?'), None);
    assert_eq!(search("?!", '?'), Some(0));
    assert_eq!(search("needle?", '?'), Some(6));
}

// --- mock_with_lifetimes ---

#[derive(Default)]
struct TailMock {
    switch: RealCallSwitch,
}

impl CallReal for TailMock {
    fn real_switch(&self) -> &RealCallSwitch {
        &self.switch
    }
}

impl Mock for TailMock {
    type Base = Self;
    type Shared = ThreadLocal<Self>;

    fn instance() -> &'static Static<Self::Shared> {
        static SHARED: OnceLock<Static<ThreadLocal<TailMock>>> = OnceLock::new();
        SHARED.get_or_init(Static::new)
    }
}

fn tail(bytes: &mut [u8]) -> Option<&u8> {
    if let Some(state) = mock_for_call(TailMock::instance()) {
        return state.with(move |this| this.tail(bytes)).expect(GONE);
    }
    if bytes.is_empty() {
        None
    } else {
        bytes[1..].fill(0);
        Some(&bytes[0])
    }
}

impl TailMock {
    fn tail<'a>(&self, bytes: &'a mut [u8]) -> Option<&'a u8> {
        if bytes == b"test" {
            Some(&0)
        } else {
            let _guard = self.call_real().unwrap();
            tail(bytes)
        }
    }
}

#[test]
fn mock_with_lifetimes() {
    let mut bytes = *b"test";
    assert_eq!(tail(&mut bytes), Some(&b't'));
    assert_eq!(bytes, *b"t\0\0\0");

    let _guard = TailMock::default().set_as_mock().unwrap();
    let mut bytes = *b"test";
    assert_eq!(tail(&mut bytes), Some(&0));
    assert_eq!(bytes, *b"test");
}

// --- arg_destructuring_and_early_returns ---

#[derive(Debug, PartialEq)]
struct Point {
    x: i32,
    y: i32,
}

#[derive(Default)]
struct DestructureMock;

impl CheckRealCall for DestructureMock {}

impl Mock for DestructureMock {
    type Base = Self;
    type Shared = ThreadLocal<Self>;

    fn instance() -> &'static Static<Self::Shared> {
        static SHARED: OnceLock<Static<ThreadLocal<DestructureMock>>> = OnceLock::new();
        SHARED.get_or_init(Static::new)
    }
}

fn destructure(arg0: &[i32; 4], arg1: Point) -> Result<Point, &'static str> {
    if let Some(state) = mock_for_call(DestructureMock::instance()) {
        return state.with(|this| this.destructure(arg0, arg1)).expect(GONE);
    }
    let ([head, ..], Point { x, y }) = (arg0, arg1);
    if *head < 0 {
        return Err("negative head");
    }
    Ok(Point {
        x: x + head,
        y: y + head,
    })
}

impl DestructureMock {
    fn destructure(&self, _: &[i32], point: Point) -> Result<Point, &'static str> {
        Ok(point)
    }
}

#[test]
fn arg_destructuring_and_early_returns() {
    let _guard = DestructureMock::default().set_as_mock().unwrap();
    assert_eq!(
        destructure(&[-1; 4], Point { x: 3, y: 4 }).unwrap(),
        Point { x: 3, y: 4 }
    );
}

// --- mock_consuming_args ---

#[derive(Default)]
struct ConsumeMock(RealCallSwitch);

impl CallReal for ConsumeMock {
    fn real_switch(&self) -> &RealCallSwitch {
        &self.0
    }
}

impl Mock for ConsumeMock {
    type Base = Self;
    type Shared = ThreadLocal<Self>;

    fn instance() -> &'static Static<Self::Shared> {
        static SHARED: OnceLock<Static<ThreadLocal<ConsumeMock>>> = OnceLock::new();
        SHARED.get_or_init(Static::new)
    }
}

fn consume(bytes: Vec<u8>) -> Option<String> {
    if let Some(state) = mock_for_call(ConsumeMock::instance()) {
        return state.with(|this| this.consume(bytes)).expect(GONE);
    }
    String::from_utf8(bytes).ok()
}

impl ConsumeMock {
    fn consume(&self, bytes: Vec<u8>) -> Option<String> {
        if bytes.is_ascii() {
            Some(String::from("ASCII"))
        } else {
            self.call_real().unwrap().scope(|| consume(bytes))
        }
    }
}

#[test]
fn mock_consuming_args() {
    let _guard = ConsumeMock::default().set_as_mock().unwrap();
    let bytes = b"test".to_vec();
    assert_eq!(consume(bytes).unwrap(), "ASCII");
    let bytes = b"\xD0\xBB\xD1\x96\xD0\xBB".to_vec();
    assert_eq!(consume(bytes).unwrap(), "ліл");
    let bytes = vec![255];
    assert!(consume(bytes).is_none());
}

// --- mock_for_generic_function ---

#[derive(Default)]
struct GenericMock {
    len_args: Vec<String>,
    get_key_responses: Vec<usize>,
}

impl Mock for GenericMock {
    type Base = Mut<Self>;
    type Shared = ThreadLocal<Mut<Self>>;

    fn instance() -> &'static Static<Self::Shared> {
        static SHARED: OnceLock<Static<ThreadLocal<Mut<GenericMock>>>> = OnceLock::new();
        SHARED.get_or_init(Static::new)
    }
}

fn len<T: AsRef<str>>(value: T) -> usize {
    if let Some(state) = mock_for_call(GenericMock::instance()) {
        return state.with(|this| GenericMock::len(this, value)).expect(GONE);
    }
    value.as_ref().len()
}

fn get_key<K, Q: ?Sized>(map: &HashMap<K, usize>, key: &Q) -> usize
where
    K: Borrow<Q> + Eq + Hash,
    Q: Eq + Hash,
{
    if let Some(state) = mock_for_call(GenericMock::instance()) {
        return state
            .with(|this| GenericMock::get_key(this, map, key))
            .expect(GONE);
    }
    map.get(key).copied().unwrap_or(0)
}

impl GenericMock {
    fn len(this: &Mut<Self>, value: impl AsRef<str>) -> usize {
        this.borrow()
            .unwrap()
            .len_args
            .push(value.as_ref().to_owned());
        this.call_real().unwrap().scope(|| len(value))
    }

    fn get_key<K, Q: ?Sized>(this: &Mut<Self>, map: &HashMap<K, usize>, key: &Q) -> usize
    where
        K: Borrow<Q> + Eq + Hash,
        Q: Eq + Hash,
    {
        let response = this.call_real().unwrap().scope(|| get_key(map, key));
        this.borrow().unwrap().get_key_responses.push(response);
        response
    }
}

#[test]
fn mock_for_generic_function() {
    let guard = GenericMock::default().set_as_mock().unwrap();
    assert_eq!(len("value"), 5);
    assert_eq!(len(String::from("test")), 4);
    let mut map = HashMap::new();
    map.insert(String::from("test"), 23);
    map.insert(String::from("42"), 42);
    assert_eq!(get_key(&map, "test"), 23);
    assert_eq!(get_key(&map, "???"), 0);
    assert_eq!(get_key(&map, "42"), 42);

    let mock = guard.into_inner().unwrap();
    assert_eq!(mock.len_args, ["value", "test"]);
    assert_eq!(mock.get_key_responses, [23, 0, 42]);
}

// --- mock_in_impl ---

struct Wrapper<T>(T);

impl<T: AsRef<str>> Wrapper<T> {
    fn len(&self) -> usize {
        if let Some(state) = mock_for_call(MockState::instance()) {
            return state.with(|this| this.len(self)).expect(GONE);
        }
        self.0.as_ref().len()
    }
}

impl Wrapper<String> {
    fn push(&mut self, value: impl AsRef<str>) -> &mut Self {
        if let Some(state) = mock_for_call(MockState::instance()) {
            return state.with(move |this| this.push(self, value)).expect(GONE);
        }
        self.0.push_str(value.as_ref());
        self
    }

    fn take(&mut self) -> String {
        if let Some(state) = mock_for_call(MockState::instance()) {
            return state.with(|this| this.mock_take(self)).expect(GONE);
        }
        mem::take(&mut self.0)
    }
}

struct MockState {
    min_length: usize,
    switch: RealCallSwitch,
}

impl CallReal for MockState {
    fn real_switch(&self) -> &RealCallSwitch {
        &self.switch
    }
}

impl Mock for MockState {
    type Base = Self;
    type Shared = ThreadLocal<Self>;

    fn instance() -> &'static Static<Self::Shared> {
        static SHARED: OnceLock<Static<ThreadLocal<MockState>>> = OnceLock::new();
        SHARED.get_or_init(Static::new)
    }
}

impl MockState {
    fn len<T: AsRef<str>>(&self, wrapper: &Wrapper<T>) -> usize {
        if wrapper.0.as_ref() == "test" {
            42
        } else {
            self.call_real().unwrap().scope(|| wrapper.len())
        }
    }

    fn push<'a>(
        &self,
        wrapper: &'a mut Wrapper<String>,
        s: impl AsRef<str>,
    ) -> &'a mut Wrapper<String> {
        if s.as_ref().len() < self.min_length {
            wrapper
        } else {
            self.call_real().unwrap().scope(|| wrapper.push(s))
        }
    }

    fn mock_take(&self, this: &mut Wrapper<String>) -> String {
        this.0.pop().map_or_else(String::new, String::from)
    }
}

#[test]
fn mock_in_impl() {
    let state = MockState {
        min_length: 3,
        switch: RealCallSwitch::default(),
    };
    let guard = state.set_as_mock().unwrap();
    assert_eq!(Wrapper("test!").len(), 5);
    assert_eq!(Wrapper("test").len(), 42);
    assert_eq!(Wrapper(String::from("test")).len(), 42);
    assert_eq!(Wrapper("test??").len(), 6);

    let mut wrapper = Wrapper(String::new());
    wrapper.push("??").push("test").push("!").push("...");
    assert_eq!(wrapper.0, "test...");

    let taken = wrapper.take();
    assert_eq!(taken, ".");
    assert_eq!(wrapper.0, "test..");

    drop(guard);
    wrapper.push(":D");
    assert_eq!(wrapper.0, "test..:D");
}

// --- mock_in_impl_trait ---

#[derive(Default)]
struct Flip {
    state: u8,
}

impl Iterator for Flip {
    type Item = u8;

    fn next(&mut self) -> Option<Self::Item> {
        if let Some(state) = mock_for_call(IterMock::instance()) {
            return state.with(|this| this.iter_next(self)).expect(GONE);
        }
        self.state = 1 - self.state;
        Some(self.state)
    }
}

struct Const(u8);

impl Iterator for Const {
    type Item = u8;

    fn next(&mut self) -> Option<Self::Item> {
        if let Some(state) = mock_for_call(IterMock::instance()) {
            return state.with(|this| this.iter_next(self)).expect(GONE);
        }
        Some(self.0)
    }
}

#[derive(Default)]
struct IterMock {
    count: AtomicU32,
}

impl IterMock {
    fn iter_next<I>(&self, _: &mut I) -> Option<u8> {
        let count = self.count.fetch_add(1, Ordering::Relaxed);
        u8::try_from(count).ok()
    }
}

impl CheckRealCall for IterMock {}

impl Mock for IterMock {
    type Base = Self;
    type Shared = ThreadLocal<Self>;

    fn instance() -> &'static Static<Self::Shared> {
        static SHARED: OnceLock<Static<ThreadLocal<IterMock>>> = OnceLock::new();
        SHARED.get_or_init(Static::new)
    }
}

#[test]
fn mock_in_impl_trait() {
    let mut flip = Flip::default();
    assert_eq!(flip.by_ref().take(5).collect::<Vec<_>>(), [1, 0, 1, 0, 1]);

    let guard = IterMock::default().set_as_mock().unwrap();
    assert_eq!(flip.by_ref().take(5).collect::<Vec<_>>(), [0, 1, 2, 3, 4]);
    let mut zero = Const(0);
    assert_eq!(zero.by_ref().take(3).collect::<Vec<_>>(), [5, 6, 7]);

    let mut chained = zero.take(2).chain(flip.take(2));
    assert_eq!(chained.by_ref().take(3).collect::<Vec<_>>(), [8, 9, 10]);
    drop(guard);
    assert_eq!(chained.next(), Some(0)); // "real" next value from `flip`
}

// --- recursive_fn ---

#[derive(Default)]
struct FactorialMock {
    fallback_once: AtomicBool,
    switch: RealCallSwitch,
}

impl CallReal for FactorialMock {
    fn real_switch(&self) -> &RealCallSwitch {
        &self.switch
    }
}

impl Mock for FactorialMock {
    type Base = Self;
    type Shared = Shared<Self>;

    fn instance() -> &'static Static<Self::Shared> {
        static SHARED: OnceLock<Static<Shared<FactorialMock>>> = OnceLock::new();
        SHARED.get_or_init(Static::new)
    }
}

fn factorial(n: u64, acc: &mut u64) -> u64 {
    if let Some(state) = mock_for_call(FactorialMock::instance()) {
        return state.with(|this| this.factorial(n, acc)).expect(GONE);
    }
    if n <= 1 {
        *acc
    } else {
        *acc = acc.overflowing_mul(n).0;
        factorial(n - 1, acc)
    }
}

impl FactorialMock {
    fn factorial(&self, n: u64, acc: &mut u64) -> u64 {
        if n < 5 {
            *acc // finish the recursion early
        } else if self.fallback_once.load(Ordering::Relaxed) {
            self.call_real_once().unwrap().scope(|| factorial(n, acc))
        } else {
            // Fallback should be applied to both calls here
            let _guard = self.call_real().unwrap();
            factorial(n, acc) * factorial(n - 5, &mut 1)
        }
    }
}

#[test]
fn recursive_fn() {
    assert_eq!(factorial(4, &mut 1), 24);

    let mut guard = FactorialMock::default().set_as_mock().unwrap();
    assert_eq!(factorial(4, &mut 1), 1);
    assert_eq!(factorial(5, &mut 1), 120);
    assert_eq!(factorial(10, &mut 1), 435_456_000);
    assert_eq!(factorial(4, &mut 1), 1);

    guard
        .with(|mock| {
            mock.fallback_once = AtomicBool::new(true);
        })
        .unwrap();
    assert_eq!(factorial(4, &mut 1), 1);
    assert_eq!(factorial(5, &mut 1), 5);
    assert_eq!(factorial(10, &mut 1), 151200);

    drop(guard);
    assert_eq!(factorial(4, &mut 1), 24);
}
