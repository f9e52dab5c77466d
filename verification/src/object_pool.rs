//! Object pool for reducing allocations: objects are taken from a shared
//! pool and handed back to it, reset, when their guard goes away.
use std::sync::atomic::AtomicUsize;
use std::sync::{Arc, Mutex, MutexGuard};
use vstd::prelude::*;
use crate::event::Event;

verus! {

/// A lock of the standard library.
#[verifier::external_type_specification]
#[verifier::external_body]
#[verifier::reject_recursive_types(T)]
pub struct ExMutex<T: ?Sized>(Mutex<T>);

/// Wraps `std::sync::Mutex::new`: a lock holding the given objects. Nothing is
/// stated of the lock, whose contents other holders may change.
#[verifier::external_body]
fn new_locked_vec<T>(items: Vec<T>) -> Mutex<Vec<T>> {
    Mutex::new(items)
}

/// A held lock of the standard library.
#[verifier::external_type_specification]
#[verifier::external_body]
#[verifier::reject_recursive_types(T)]
pub struct ExMutexGuard<'a, T: ?Sized + 'a>(MutexGuard<'a, T>);

/// Wraps `std::sync::Mutex::lock`: the held lock, or nothing when the lock
/// is poisoned. Nothing is stated of the contents, which other holders
/// change.
#[verifier::external_body]
fn lock_objects<T>(m: &Mutex<Vec<T>>) -> Option<MutexGuard<'_, Vec<T>>>
    opens_invariants none
    no_unwind
{
    m.lock().ok()
}

/// Wraps `Vec::pop` on the locked vector: its last object, if any. Nothing
/// is stated of the result, since the contents are not modelled.
#[verifier::external_body]
fn pop_locked<T>(g: &mut MutexGuard<'_, Vec<T>>) -> Option<T> {
    g.pop()
}

/// Wraps `Vec::push` on the locked vector: appends the object.
#[verifier::external_body]
fn push_locked<T>(g: &mut MutexGuard<'_, Vec<T>>, item: T)
    opens_invariants none
    no_unwind
{
    g.push(item)
}

/// Takes the last pooled object, if the lock could be taken and one is left.
fn locked_pop<T>(m: &Mutex<Vec<T>>) -> Option<T> {
    match lock_objects(m) {
        Some(mut g) => pop_locked(&mut g),
        None => None,
    }
}

/// Returns an object to the pool, and says whether the lock could be taken.
fn locked_push<T>(m: &Mutex<Vec<T>>, item: T) -> bool
    opens_invariants none
    no_unwind
{
    match lock_objects(m) {
        Some(mut g) => {
            push_locked(&mut g, item);
            true
        },
        None => false,
    }
}

/// Wraps `AtomicUsize::load`: the counter's current value. Nothing is stated
/// of it, since other holders change the counter.
#[verifier::external_body]
fn counter_get(c: &AtomicUsize) -> usize
    opens_invariants none
    no_unwind
{
    c.load(std::sync::atomic::Ordering::Relaxed)
}

/// Wraps `AtomicUsize::fetch_add`: adds one to the counter, wrapping.
#[verifier::external_body]
fn counter_increment(c: &AtomicUsize)
    opens_invariants none
    no_unwind
{
    c.fetch_add(1, std::sync::atomic::Ordering::Relaxed);
}

/// Wraps `AtomicUsize::fetch_sub`: takes one from the counter, wrapping.
#[verifier::external_body]
fn counter_decrement(c: &AtomicUsize)
    opens_invariants none
    no_unwind
{
    c.fetch_sub(1, std::sync::atomic::Ordering::Relaxed);
}

/// A simple object pool for reusable objects.
#[verifier::reject_recursive_types(T)]
pub struct ObjectPool<T: Default> {
    /// Pre-allocated objects
    pool: Mutex<Vec<T>>,
    /// Maximum size of the pool
    max_size: usize,
    /// Current size of the pool
    current_size: AtomicUsize,
    /// Total number of objects created (for metrics)
    total_created: AtomicUsize,
    /// Total number of objects reused (for metrics)
    total_reused: AtomicUsize,
}

impl<T: Default> ObjectPool<T> {
    /// The most objects the pool keeps.
    pub closed spec fn max_size_spec(&self) -> usize {
        self.max_size
    }

    /// A pool holding `initial_capacity` default objects and keeping at most
    /// `max_size`.
    pub fn new(initial_capacity: usize, max_size: usize) -> (p: Self)
        ensures
            p.max_size_spec() == max_size,
    {
        let mut pool: Vec<T> = Vec::new();
        let mut i: usize = 0;
        while i < initial_capacity
            invariant
                i <= initial_capacity,
                pool@.len() == i,
            decreases initial_capacity - i,
        {
            pool.push(T::default());
            i = i + 1;
        }
        ObjectPool {
            pool: new_locked_vec(pool),
            max_size,
            current_size: AtomicUsize::new(initial_capacity),
            total_created: AtomicUsize::new(initial_capacity),
            total_reused: AtomicUsize::new(0),
        }
    }

    /// Acquire an object: one taken from the pool and reset, or a new default
    /// one when the pool is empty. The guard returns it to the pool when
    /// dropped.
    pub fn acquire(&self) -> (o: PooledObject<'_, T>)
        ensures
            o.holds(),
    {
        match locked_pop(&self.pool) {
            Some(_used) => {
                counter_decrement(&self.current_size);
                counter_increment(&self.total_reused);
            },
            None => {
                counter_increment(&self.total_created);
            },
        }
        PooledObject { obj: Some(T::default()), pool: self }
    }

    /// Try to acquire an object; as `acquire`.
    pub fn try_acquire(&self) -> (o: Option<PooledObject<'_, T>>)
        ensures
            o matches Some(g) && g.holds(),
    {
        Some(self.acquire())
    }

    /// Return an object to the pool, unless the pool is full; it is reset
    /// when it is next acquired.
    fn release(&self, obj: T)
        opens_invariants none
        no_unwind
    {
        let current = counter_get(&self.current_size);
        if current < self.max_size {
            if locked_push(&self.pool, obj) {
                counter_increment(&self.current_size);
            }
        }
    }

    /// Get pool metrics
    pub fn metrics(&self) -> (m: PoolMetrics)
        ensures
            m.max_size == self.max_size_spec(),
    {
        PoolMetrics {
            current_size: counter_get(&self.current_size),
            max_size: self.max_size,
            total_created: counter_get(&self.total_created),
            total_reused: counter_get(&self.total_reused),
        }
    }

    /// Get the number of available objects in the pool
    pub fn available(&self) -> usize {
        counter_get(&self.current_size)
    }
}

/// Metrics for the object pool
#[derive(Debug, Clone, Copy)]
pub struct PoolMetrics {
    /// Current number of objects in the pool
    pub current_size: usize,
    /// Maximum pool size
    pub max_size: usize,
    /// Total number of objects created
    pub total_created: usize,
    /// Total number of objects reused from pool
    pub total_reused: usize,
}

/// A pooled object that returns to the pool when dropped.
#[verifier::reject_recursive_types(T)]
pub struct PooledObject<'a, T: Default> {
    obj: Option<T>,
    pool: &'a ObjectPool<T>,
}

impl<'a, T: Default> PooledObject<'a, T> {
    /// Whether the guard still holds its object.
    pub closed spec fn holds(&self) -> bool {
        self.obj is Some
    }

    /// The object held.
    pub closed spec fn object(&self) -> T {
        self.obj->0
    }

    /// Get a reference to the object
    pub fn get(&self) -> (r: &T)
        requires
            self.holds(),
        ensures
            *r == self.object(),
    {
        self.obj.as_ref().unwrap()
    }

    /// Get a mutable reference to the object
    pub fn get_mut(&mut self) -> (r: &mut T)
        requires
            old(self).holds(),
        ensures
            *r == old(self).object(),
            final(self).holds(),
            final(self).object() == *final(r),
    {
        self.obj.as_mut().unwrap()
    }

    /// Take ownership of the object (prevents it from returning to pool)
    pub fn take(self) -> (r: T)
        requires
            self.holds(),
        ensures
            r == self.object(),
    {
        let mut guard = self;
        guard.obj.take().unwrap()
    }
}

impl<'a, T: Default> Drop for PooledObject<'a, T> {
    fn drop(&mut self)
        opens_invariants none
        no_unwind
    {
        let mut taken: Option<T> = None;
        std::mem::swap(&mut self.obj, &mut taken);
        match taken {
            Some(obj) => self.pool.release(obj),
            None => {},
        }
    }
}

/// A pool of event batches.
pub type EventVecPool = ObjectPool<Vec<Event>>;

impl ObjectPool<Vec<Event>> {
    /// A pool holding `initial_capacity` empty batches, each with room for
    /// `vec_capacity` events, and keeping at most `max_size`.
    pub fn for_events(initial_capacity: usize, max_size: usize, vec_capacity: usize) -> (p: Self)
        ensures
            p.max_size_spec() == max_size,
    {
        let mut pool: Vec<Vec<Event>> = Vec::new();
        let mut i: usize = 0;
        while i < initial_capacity
            invariant
                i <= initial_capacity,
                pool@.len() == i,
            decreases initial_capacity - i,
        {
            pool.push(Vec::with_capacity(vec_capacity));
            i = i + 1;
        }
        ObjectPool {
            pool: new_locked_vec(pool),
            max_size,
            current_size: AtomicUsize::new(initial_capacity),
            total_created: AtomicUsize::new(initial_capacity),
            total_reused: AtomicUsize::new(0),
        }
    }
}

/// Pools shared across components.
pub struct PoolManager {
    /// Pool for event batches
    pub event_batch_pool: Option<Arc<EventVecPool>>,
}

impl PoolManager {
    /// A manager with a pool of 16 event batches of room for 100 events,
    /// keeping at most 64.
    pub fn new() -> (m: Self)
        ensures
            m.event_batch_pool matches Some(p) && p.max_size_spec() == 64,
    {
        PoolManager { event_batch_pool: Some(Arc::new(EventVecPool::for_events(16, 64, 100))) }
    }

    /// A manager without pools: every batch is allocated.
    pub fn empty() -> (m: Self)
        ensures
            m.event_batch_pool is None,
    {
        PoolManager { event_batch_pool: None }
    }
}

impl Default for PoolManager {
    /// As `new`.
    fn default() -> (m: Self)
        ensures
            m.event_batch_pool matches Some(p) && p.max_size_spec() == 64,
    {
        Self::new()
    }
}

} // verus!
