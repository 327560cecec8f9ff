use atomic_destructor::AtomicDestroyer;
use atomic_destructor::AtomicDestructor;
use atomic_destructor::StealthClone;

use std::cell::Cell;
use std::rc::Rc;

#[derive(Debug, Clone)]
struct InternalTestingStealth;

impl AtomicDestroyer for InternalTestingStealth {
    fn on_destroy(&self) {}
}

#[derive(Clone)]
struct TestingStealth {
    inner: AtomicDestructor<InternalTestingStealth>,
}

impl StealthClone for TestingStealth {
    fn stealth_clone(&self) -> Self {
        Self {
            inner: self.inner.stealth_clone(),
        }
    }
}

impl TestingStealth {
    pub fn new() -> Self {
        Self {
            inner: AtomicDestructor::new(InternalTestingStealth),
        }
    }
}

#[test]
fn test_clone() {
    let t = TestingStealth::new();
    assert_eq!(t.inner.counter(), 1);
    assert!(!t.inner.is_stealth());
    assert!(!t.inner.is_destroyed());

    let t_1 = t.clone();
    assert_eq!(t.inner.counter(), 2);
    assert_eq!(t_1.inner.counter(), 2);

    let t_2 = t_1.clone();
    assert_eq!(t.inner.counter(), 3);
    assert_eq!(t_1.inner.counter(), 3);
    assert_eq!(t_2.inner.counter(), 3);

    drop(t_1);
    assert_eq!(t.inner.counter(), 2);
    assert!(!t.inner.is_destroyed());

    drop(t_2);
    assert_eq!(t.inner.counter(), 1);
}

#[test]
fn test_stealth_clone() {
    let t = TestingStealth::new();
    assert_eq!(t.inner.counter(), 1);
    assert!(!t.inner.is_stealth());

    let t_1 = t.stealth_clone();
    assert_eq!(t.inner.counter(), 1);
    assert_eq!(t_1.inner.counter(), 1);
    assert!(!t.inner.is_stealth());
    assert!(t_1.inner.is_stealth());

    let t_2 = t_1.clone(); // Cloning stealth destructor
    assert_eq!(t.inner.counter(), 2);
    assert_eq!(t_1.inner.counter(), 2);
    assert_eq!(t_2.inner.counter(), 2);

    let t_3 = t.clone(); // Cloning NON-stealth destructor
    assert_eq!(t.inner.counter(), 3);
    assert_eq!(t_1.inner.counter(), 3);
    assert_eq!(t_2.inner.counter(), 3);

    drop(t_1); // Stealth
    assert_eq!(t.inner.counter(), 3);

    drop(t_2); // Classical
    assert_eq!(t.inner.counter(), 2);

    drop(t_3); // Classical
    assert_eq!(t.inner.counter(), 1);
}

/// An inner value whose destroy callback counts how often it has run.
#[derive(Clone)]
struct Counting {
    fires: Rc<Cell<u32>>,
}

impl AtomicDestroyer for Counting {
    fn on_destroy(&self) {
        self.fires.set(self.fires.get() + 1);
    }
}

fn counting() -> (Rc<Cell<u32>>, AtomicDestructor<Counting>) {
    let fires = Rc::new(Cell::new(0));
    let handle = AtomicDestructor::new(Counting {
        fires: fires.clone(),
    });
    (fires, handle)
}

#[test]
fn scenario_chain_of_clones() {
    let (fires, h) = counting();
    let watch = h.stealth_clone();
    assert_eq!(h.counter(), 1);

    let h1 = h.clone();
    assert_eq!(h.counter(), 2);

    let h2 = h1.clone();
    assert_eq!(h.counter(), 3);

    drop(h1);
    assert_eq!(h.counter(), 2);
    assert!(!h.is_destroyed());
    assert_eq!(fires.get(), 0);

    drop(h2);
    assert_eq!(h.counter(), 1);
    assert!(!h.is_destroyed());
    assert_eq!(fires.get(), 0);

    drop(h);
    assert_eq!(watch.counter(), 0);
    assert!(watch.is_destroyed());
    assert_eq!(fires.get(), 1);
}

#[test]
fn scenario_stealth_mixture() {
    let (fires, t) = counting();
    assert_eq!(t.counter(), 1);

    let t1 = t.stealth_clone();
    assert_eq!(t.counter(), 1);
    assert_eq!(t1.counter(), 1);
    assert!(t1.is_stealth());

    let t2 = t1.clone();
    assert_eq!(t.counter(), 2);
    assert!(!t2.is_stealth());

    let t3 = t.clone();
    assert_eq!(t.counter(), 3);

    drop(t1);
    assert_eq!(t.counter(), 3);

    drop(t2);
    assert_eq!(t.counter(), 2);

    drop(t3);
    assert_eq!(t.counter(), 1);
    assert!(!t.is_destroyed());
    assert_eq!(fires.get(), 0);
}

#[test]
fn destroy_fires_once_whatever_the_drop_order() {
    let (fires, h) = counting();
    let watch = h.stealth_clone();

    let mut clones = Vec::new();
    for _ in 0..5 {
        clones.push(h.clone());
    }
    assert_eq!(h.counter(), 6);

    drop(clones.remove(3));
    drop(clones.remove(0));
    drop(h);
    assert_eq!(watch.counter(), 3);
    assert_eq!(fires.get(), 0);

    while let Some(c) = clones.pop() {
        drop(c);
    }
    assert_eq!(watch.counter(), 0);
    assert!(watch.is_destroyed());
    assert_eq!(fires.get(), 1);
}

#[test]
fn stealth_handles_observe_destruction() {
    let (fires, h) = counting();
    let s = h.stealth_clone();
    assert!(!s.is_destroyed());

    drop(h);
    assert!(s.is_destroyed());
    assert_eq!(s.counter(), 0);
    assert_eq!(fires.get(), 1);

    drop(s);
    assert_eq!(fires.get(), 1);
}

#[test]
fn no_second_fire_after_destruction() {
    let (fires, h) = counting();
    let watch = h.stealth_clone();

    drop(h);
    assert!(watch.is_destroyed());
    assert_eq!(fires.get(), 1);

    // A counted clone taken after destruction raises the counter again, but
    // its drop sees the destroyed flag and stays a no-op.
    let late = watch.clone();
    assert!(!late.is_stealth());
    assert_eq!(watch.counter(), 1);
    drop(late);
    assert_eq!(watch.counter(), 1);
    assert_eq!(fires.get(), 1);
}

#[test]
fn clone_drop_pairs_cancel() {
    let (fires, h) = counting();
    let watch = h.stealth_clone();

    for _ in 0..100 {
        let c = h.clone();
        assert_eq!(h.counter(), 2);
        drop(c);
        assert_eq!(h.counter(), 1);
    }
    assert_eq!(fires.get(), 0);

    drop(h);
    assert_eq!(watch.counter(), 0);
    assert!(watch.is_destroyed());
    assert_eq!(fires.get(), 1);
}

#[test]
fn stealth_clone_of_stealth_stays_invisible() {
    let (fires, h) = counting();
    let s1 = h.stealth_clone();
    let s2 = s1.stealth_clone();
    assert!(s2.is_stealth());
    assert_eq!(h.counter(), 1);

    drop(s1);
    drop(s2);
    assert_eq!(h.counter(), 1);
    assert!(!h.is_destroyed());
    assert_eq!(fires.get(), 0);
}
