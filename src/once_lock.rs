use vstd::prelude::*;
use crate::once::{Once, INCOMPLETE, COMPLETE, PANICKED, RUNNING, fails_loudly};

verus! {

/// The contents after initializing `c` with `v`: an empty cell takes `v`, a
/// filled one keeps what it has.
pub open spec fn init_with<T>(c: Option<T>, v: T) -> Option<T> {
    if c is Some { c } else { Some(v) }
}

/// Write-once, read-many cell.  Its slot is filled by whoever wins the
/// embedded barrier, and is filled exactly when the barrier is complete.
pub struct OnceLock<T> {
    once: Once,
    data: Option<T>,
}

impl<T> OnceLock<T> {
    /// What the cell holds: `None` until initialized.
    pub closed spec fn contents(&self) -> Option<T> {
        self.data
    }

    /// Status of the embedded barrier.
    pub closed spec fn status(&self) -> u8 {
        self.once.status()
    }

    /// The slot is filled exactly when the barrier is complete, and is never
    /// filled while the barrier is anywhere else.
    pub closed spec fn wf(&self) -> bool {
        &&& self.once.wf()
        &&& self.once.status() != RUNNING
        &&& (self.data is Some <==> self.once.status() == COMPLETE)
    }

    /// A failed initialization poisoned the cell for good.
    pub open spec fn poisoned(&self) -> bool {
        fails_loudly(self.status())
    }

    pub fn new() -> (r: Self)
        ensures
            r.wf(),
            r.contents() is None,
            !r.poisoned(),
            r.status() == INCOMPLETE,
    {
        OnceLock { once: Once::new(), data: None }
    }

    /// Whether a failed initialization poisoned the cell.
    pub fn is_poisoned(&self) -> (r: bool)
        requires
            self.wf(),
        ensures
            r == self.poisoned(),
    {
        self.once.is_poisoned()
    }

    pub fn is_initialized(&self) -> (r: bool)
        requires
            self.wf(),
        ensures
            r == self.contents() is Some,
    {
        self.once.is_completed()
    }

    /// The value if the cell is initialized; never waits.
    pub fn get(&self) -> (r: Option<&T>)
        requires
            self.wf(),
        ensures
            r is Some <==> self.contents() is Some,
            r is Some ==> *r->Some_0 == self.contents()->Some_0,
    {
        if self.is_initialized() {
            Some(self.get_unchecked())
        } else {
            None
        }
    }

    /// The value of an initialized cell.
    fn get_unchecked(&self) -> (r: &T)
        requires
            self.wf(),
            self.contents() is Some,
        ensures
            *r == self.contents()->Some_0,
    {
        self.data.as_ref().unwrap()
    }

    /// The value through exclusive ownership of the cell, if initialized.
    pub fn get_mut(&mut self) -> (r: Option<&mut T>)
        requires
            old(self).wf(),
        ensures
            r is Some <==> old(self).contents() is Some,
            r is Some ==> *r->Some_0 == old(self).contents()->Some_0,
            r is Some ==> final(self).contents() == Some(*final(r->Some_0)),
            r is None ==> final(self).contents() is None,
            final(self).status() == old(self).status(),
    {
        self.data.as_mut()
    }

    /// Runs `f` through the embedded barrier unless the cell is already
    /// initialized.  A value that `f` produces fills the slot before the barrier
    /// completes; an error poisons the cell and is handed back.
    fn initialized<E, F: FnOnce() -> Result<T, E>>(&mut self, f: F) -> (r: Result<(), E>)
        requires
            old(self).wf(),
            !old(self).poisoned(),
            old(self).contents() is None ==> f.requires(()),
        ensures
            final(self).wf(),
            old(self).contents() is Some ==> r is Ok && *final(self) == *old(self),
            old(self).contents() is None ==> r is Ok ==> (exists|v: T|
                f.ensures((), Ok::<T, E>(v)) && final(self).contents() == Some(v)),
            old(self).contents() is None ==> r is Err ==> f.ensures((), Err::<T, E>(r->Err_0))
                && final(self).poisoned() && final(self).contents() is None,
    {
        match self.once.begin() {
            Ok(mut finish) => {
                match f() {
                    Ok(data) => {
                        self.data = Some(data);
                        finish.disarm();
                        finish.release(&mut self.once);
                        Ok(())
                    },
                    Err(e) => {
                        finish.release(&mut self.once);
                        Err(e)
                    },
                }
            },
            Err(status) => {
                if status == COMPLETE {
                    Ok(())
                } else {
                    unreached()
                }
            },
        }
    }

    /// The value, initializing the cell with `f` first if it is empty.  An
    /// error from `f` poisons the cell and is handed back.
    pub fn try_get_or_init<E, F: FnOnce() -> Result<T, E>>(&mut self, f: F) -> (r: Result<&T, E>)
        requires
            old(self).wf(),
            !old(self).poisoned(),
            old(self).contents() is None ==> f.requires(()),
        ensures
            final(self).wf(),
            old(self).contents() is Some ==> r is Ok && *final(self) == *old(self),
            r is Ok ==> final(self).contents() == init_with(old(self).contents(), *r->Ok_0),
            r is Ok ==> final(self).contents() == Some(*r->Ok_0),
            r is Ok ==> old(self).contents() is None ==> f.ensures((), Ok::<T, E>(*r->Ok_0)),
            r is Err ==> old(self).contents() is None && f.ensures((), Err::<T, E>(r->Err_0))
                && final(self).poisoned() && final(self).contents() is None,
    {
        if self.is_initialized() {
            return Ok(self.get_unchecked());
        }
        match self.initialized(f) {
            Ok(()) => Ok(self.get_unchecked()),
            Err(e) => Err(e),
        }
    }

    /// The value, initializing the cell with `f` first if it is empty; `f`
    /// is not called on a cell that already holds a value.
    pub fn get_or_init<F: FnOnce() -> T>(&mut self, f: F) -> (r: &T)
        requires
            old(self).wf(),
            !old(self).poisoned(),
            old(self).contents() is None ==> f.requires(()),
        ensures
            final(self).wf(),
            final(self).contents() == init_with(old(self).contents(), *r),
            final(self).contents() == Some(*r),
            !final(self).poisoned(),
            old(self).contents() is Some ==> *final(self) == *old(self),
            old(self).contents() is None ==> f.ensures((), *r),
    {
        let init = move || -> (v: Result<T, ()>)
            requires
                f.requires(()),
            ensures
                v is Ok,
                f.ensures((), v->Ok_0),
            {
                let data = f();
                Ok(data)
            };
        let res = self.try_get_or_init(init);
        res.unwrap()
    }

    /// Fills an empty cell with `data`.  A filled cell is left as it is, and
    /// the value it holds comes back together with the rejected `data`.
    pub fn set(&mut self, data: T) -> (r: Result<(), (&T, T)>)
        requires
            old(self).wf(),
            !old(self).poisoned(),
        ensures
            final(self).wf(),
            r is Ok <==> old(self).contents() is None,
            r is Ok ==> final(self).contents() == Some(data),
            r is Err ==> *final(self) == *old(self) && *r->Err_0.0 == old(self).contents()->Some_0
                && r->Err_0.1 == data,
    {
        if self.is_initialized() {
            return Err((self.get_unchecked(), data));
        }
        let init = move || -> (v: T)
            ensures
                v == data,
            { data };
        self.get_or_init(init);
        Ok(())
    }
}

/// Initialization is idempotent: a second initialization, with whatever
/// value, leaves the contents the first one produced, so both calls yield
/// the same value.
pub proof fn lemma_init_idempotent<T>(c: Option<T>, first: T, second: T)
    ensures
        init_with(init_with(c, first), second) == init_with(c, first),
        init_with(init_with(c, first), second)->Some_0 == init_with(c, first)->Some_0,
        c is None ==> init_with(init_with(c, first), second) == Some(first),
{
}

/// A cell is either empty or holds its one value; no half-initialized state
/// is visible from outside a call.
pub proof fn lemma_no_intermediate_state<T>(c: &OnceLock<T>)
    requires
        c.wf(),
    ensures
        c.status() != RUNNING,
        c.contents() is Some <==> c.status() == COMPLETE,
        c.contents() is None <==> (c.status() == INCOMPLETE || c.status() == PANICKED),
{
}

} // verus!
