use vstd::prelude::*;
use crate::once_lock::{OnceLock, init_with};

verus! {

/// Whether forcing a value whose cell holds `c` runs the initializer.
pub open spec fn evaluates<T>(c: Option<T>) -> bool {
    c is None
}

/// The cell after a series of forcings, where the i-th would produce
/// `produced[i]` if it ran the initializer.
pub open spec fn after_forcings<T>(c: Option<T>, produced: Seq<T>) -> Option<T>
    decreases produced.len(),
{
    if produced.len() == 0 {
        c
    } else {
        after_forcings(init_with(c, produced[0]), produced.drop_first())
    }
}

/// How many forcings of a series run the initializer.
pub open spec fn evaluations<T>(c: Option<T>, produced: Seq<T>) -> nat
    decreases produced.len(),
{
    if produced.len() == 0 {
        0
    } else {
        (if evaluates(c) { 1nat } else { 0nat }) + evaluations(
            init_with(c, produced[0]),
            produced.drop_first(),
        )
    }
}

/// A value computed on first access by a stored one-shot initializer.
pub struct LazyLock<T, F> {
    cell: OnceLock<T>,
    init: Option<F>,
}

impl<T, F> LazyLock<T, F> {
    /// What the embedded cell holds.
    pub closed spec fn contents(&self) -> Option<T> {
        self.cell.contents()
    }

    /// The stored initializer, until it is taken.
    pub closed spec fn initializer(&self) -> Option<F> {
        self.init
    }

    /// The cell is well formed and not poisoned, and the initializer is
    /// still stored exactly while the cell is empty.
    pub closed spec fn wf(&self) -> bool {
        &&& self.cell.wf()
        &&& !self.cell.poisoned()
        &&& (self.init is Some <==> self.cell.contents() is None)
    }

    /// Stores `f` without running it.
    pub fn new(f: F) -> (r: Self)
        ensures
            r.wf(),
            r.contents() is None,
            r.initializer() == Some(f),
    {
        LazyLock { cell: OnceLock::new(), init: Some(f) }
    }

    /// The value if it has been computed; never computes it.
    pub fn get(&self) -> (r: Option<&T>)
        requires
            self.wf(),
        ensures
            r is Some <==> self.contents() is Some,
            r is Some ==> *r->Some_0 == self.contents()->Some_0,
    {
        self.cell.get()
    }
}

impl<T, F: FnOnce() -> T> LazyLock<T, F> {
    /// The value, computed by the stored initializer on the first access.
    /// The initializer is taken out of its slot before it runs, so it can
    /// never run twice.
    pub fn force(&mut self) -> (r: &T)
        requires
            old(self).wf(),
            old(self).initializer() is Some ==> old(self).initializer()->Some_0.requires(()),
        ensures
            final(self).wf(),
            final(self).contents() == init_with(old(self).contents(), *r),
            final(self).contents() == Some(*r),
            final(self).initializer() is None,
            evaluates(old(self).contents()) ==> old(self).initializer()->Some_0.ensures((), *r),
            !evaluates(old(self).contents()) ==> *final(self) == *old(self),
    {
        if self.cell.is_initialized() {
            let cached = self.cell.get();
            return cached.unwrap();
        }
        let f = self.init.take().unwrap();
        self.cell.get_or_init(f)
    }
}

/// Single evaluation: over any series of forcings of a fresh value the
/// initializer runs at most once, exactly once if any forcing was made, and
/// every forcing yields what the first produced.
pub proof fn lemma_single_evaluation<T>(produced: Seq<T>)
    ensures
        evaluations(None::<T>, produced) == if produced.len() == 0 { 0nat } else { 1nat },
        produced.len() > 0 ==> after_forcings(None::<T>, produced) == Some(produced[0]),
{
    if produced.len() > 0 {
        lemma_filled_stays(Some(produced[0]), produced.drop_first());
    }
}

/// A filled cell is never evaluated again and keeps its value.
proof fn lemma_filled_stays<T>(c: Option<T>, produced: Seq<T>)
    requires
        c is Some,
    ensures
        evaluations(c, produced) == 0,
        after_forcings(c, produced) == c,
    decreases produced.len(),
{
    if produced.len() > 0 {
        lemma_filled_stays(init_with(c, produced[0]), produced.drop_first());
    }
}

} // verus!
