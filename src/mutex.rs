use vstd::prelude::*;

verus! {

/// Exclusive-access lock over a payload.
///
/// Taking the lock moves the payload into the returned guard, so at most one
/// guard can exist for a lock at any time.  The lock does not poison: a
/// payload left half-updated by its holder is handed to the next one as it
/// is.  Taking a lock that is already held would wait forever, as nothing
/// else could release it; the lock is not re-entrant.
pub struct Mutex<T> {
    lock: bool,
    data: Option<T>,
    id: Ghost<int>,
}

/// Proof of exclusive access; owns the payload while the lock is held.
///
/// The lock is released by handing the guard back to `Mutex::unlock`; a
/// guard dropped instead takes the payload with it and leaves the lock held.
#[must_use]
pub struct MutexGuard<T> {
    data: T,
    id: Ghost<int>,
}

impl<T> Mutex<T> {
    /// Identity of the lock; its guards carry the same one.
    pub closed spec fn id(&self) -> int {
        self.id@
    }

    /// Whether the lock is held.
    pub closed spec fn locked(&self) -> bool {
        self.lock
    }

    /// The payload while the lock is free.
    pub closed spec fn value(&self) -> T {
        self.data->Some_0
    }

    /// Whether the payload is in the lock, ready for the next holder.
    pub closed spec fn available(&self) -> bool {
        self.data is Some
    }

    /// The payload sits in the lock exactly when the lock is free.
    pub closed spec fn wf(&self) -> bool {
        self.lock <==> self.data is None
    }

    pub fn new(data: T) -> (r: Self)
        ensures
            r.wf(),
            !r.locked(),
            r.value() == data,
    {
        Mutex { lock: false, data: Some(data), id: Ghost(arbitrary()) }
    }

    /// Snapshot of the lock flag.
    pub fn is_locked(&self) -> (r: bool)
        ensures
            r == self.locked(),
    {
        self.lock
    }

    /// Takes the lock if it is free.
    pub fn try_lock(&mut self) -> (r: Option<MutexGuard<T>>)
        requires
            old(self).wf(),
        ensures
            final(self).wf(),
            final(self).locked(),
            final(self).id() == old(self).id(),
            r is Some <==> grants(old(self).locked()),
            r is Some ==> r->Some_0.value() == old(self).value() && r->Some_0.id() == old(self).id(),
            r is None ==> *final(self) == *old(self),
    {
        if self.is_locked() {
            None
        } else {
            self.lock = true;
            match self.data.take() {
                Some(data) => Some(MutexGuard { data, id: self.id }),
                None => None,
            }
        }
    }

    /// Takes the lock; it must be free.
    pub fn lock(&mut self) -> (r: MutexGuard<T>)
        requires
            old(self).wf(),
            !old(self).locked(),
        ensures
            final(self).wf(),
            final(self).locked(),
            final(self).id() == old(self).id(),
            r.value() == old(self).value(),
            r.id() == old(self).id(),
    {
        let guard = self.try_lock();
        guard.unwrap()
    }

    /// Releases the lock, putting back the payload its guard holds.
    pub fn unlock(&mut self, guard: MutexGuard<T>)
        requires
            old(self).wf(),
            old(self).locked(),
            guard.id() == old(self).id(),
        ensures
            final(self).wf(),
            !final(self).locked(),
            final(self).id() == old(self).id(),
            final(self).value() == guard.value(),
    {
        self.lock = false;
        self.data = Some(guard.data);
    }

    /// Direct access to the payload through exclusive ownership of the
    /// lock; none while a guard holds it.
    pub fn get_mut(&mut self) -> (r: Option<&mut T>)
        requires
            old(self).wf(),
        ensures
            final(self).wf(),
            final(self).id() == old(self).id(),
            final(self).locked() == old(self).locked(),
            r is Some <==> !old(self).locked(),
            r is Some ==> *r->Some_0 == old(self).value(),
            r is Some ==> final(self).value() == *final(r->Some_0),
            r is None ==> *final(self) == *old(self),
    {
        self.data.as_mut()
    }
}

/// Whether an acquisition attempt on a lock whose flag reads `locked` is
/// granted.  A granted attempt leaves the flag set.
pub open spec fn grants(locked: bool) -> bool {
    !locked
}

/// How many of `n` acquisition attempts, made one after another with no
/// release in between, are granted on a lock whose flag reads `locked`.
pub open spec fn grants_in(locked: bool, n: nat) -> nat
    decreases n,
{
    if n == 0 {
        0
    } else {
        (if grants(locked) { 1nat } else { 0nat }) + grants_in(true, (n - 1) as nat)
    }
}

/// At most one holder: of any run of acquisition attempts without a release
/// in between at most one is granted, none on a held lock and exactly one
/// on a free one.  While the lock is held its payload is out in the one
/// guard that took it; while it is free the payload is back in the lock.
pub proof fn lemma_mutual_exclusion<T>(m: &Mutex<T>, n: nat)
    requires
        m.wf(),
    ensures
        m.locked() <==> !m.available(),
        grants_in(m.locked(), n) <= 1,
        m.locked() ==> grants_in(m.locked(), n) == 0,
        !m.locked() && n > 0 ==> grants_in(m.locked(), n) == 1,
{
    lemma_held_grants_nothing(n);
}

proof fn lemma_held_grants_nothing(n: nat)
    ensures
        grants_in(true, n) == 0,
    decreases n,
{
    if n > 0 {
        lemma_held_grants_nothing((n - 1) as nat);
    }
}

impl<T> MutexGuard<T> {
    /// Identity of the lock that granted the guard.
    pub closed spec fn id(&self) -> int {
        self.id@
    }

    pub closed spec fn value(&self) -> T {
        self.data
    }
}

impl<T> core::ops::Deref for MutexGuard<T> {
    type Target = T;

    fn deref(&self) -> (r: &T)
        ensures
            *r == self.value(),
    {
        &self.data
    }
}

impl<T> core::ops::DerefMut for MutexGuard<T> {
    fn deref_mut(&mut self) -> (r: &mut T)
        ensures
            *r == old(self).value(),
            final(self).value() == *final(r),
            final(self).id() == old(self).id(),
    {
        &mut self.data
    }
}

} // verus!
