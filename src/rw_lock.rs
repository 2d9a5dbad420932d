use vstd::prelude::*;

verus! {

/// State word of a write-locked lock.
pub const WRITER: isize = -1;

/// Largest number of readers the lock admits at once.
pub const MAX_READERS: isize = isize::MAX;

/// Abstract state of a reader/writer lock.
pub enum RwState {
    Unlocked,
    Read(nat),
    Write,
}

/// Decodes the sign-based state word: positive counts readers, `WRITER`
/// marks the one writer.
pub open spec fn decode(word: int) -> RwState {
    if word == 0 {
        RwState::Unlocked
    } else if word > 0 {
        RwState::Read(word as nat)
    } else {
        RwState::Write
    }
}

/// Whether a writer may enter from the given state word.
pub open spec fn admits_writer(word: int) -> bool {
    word == 0
}

/// Whether one more reader may enter from the given state word.
pub open spec fn admits_reader(word: int) -> bool {
    0 <= word < MAX_READERS
}

/// Number of readers recorded by a state word (zero when write-locked).
pub open spec fn readers_of(word: int) -> nat {
    if word > 0 { word as nat } else { 0 }
}

/// Shared/exclusive lock over a payload.
///
/// Readers are counted in the state word; a writer takes the payload out of
/// the lock and holds it in its guard until it is released.  There is no
/// fairness between readers and writers: an unbroken run of readers keeps a
/// writer out.
pub struct RWLock<T> {
    lock: isize,
    data: Option<T>,
    id: Ghost<int>,
}

/// Proof of shared access to an `RWLock`'s payload.
///
/// The registration is given back with `RWLock::release_read`; a guard
/// dropped instead stays counted as a reader.
#[must_use]
pub struct RWLockReadGuard {
    id: Ghost<int>,
}

/// Proof of exclusive access; owns the payload while the lock is write-locked.
///
/// The lock is released by handing the guard back to
/// `RWLock::release_write`; a guard dropped instead takes the payload with it
/// and leaves the lock write-locked.
#[must_use]
pub struct RWLockWriteGuard<T> {
    data: T,
    id: Ghost<int>,
}

impl<T> RWLock<T> {
    /// Identity of the lock; its guards carry the same one.
    pub closed spec fn id(&self) -> int {
        self.id@
    }

    /// The raw state word.
    pub closed spec fn word(&self) -> int {
        self.lock as int
    }

    /// The abstract state.
    pub open spec fn state(&self) -> RwState {
        decode(self.word())
    }

    /// The payload while no writer holds it.
    pub closed spec fn value(&self) -> T {
        self.data->Some_0
    }

    /// The state word is a reader count in range or the writer mark, and the
    /// payload sits in the lock exactly when no writer holds it.
    pub closed spec fn wf(&self) -> bool {
        &&& WRITER <= self.lock <= MAX_READERS
        &&& (self.lock == WRITER <==> self.data is None)
    }

    pub open spec fn is_write_locked(&self) -> bool {
        self.word() == WRITER
    }

    pub open spec fn readers(&self) -> nat {
        readers_of(self.word())
    }

    pub fn new(data: T) -> (r: Self)
        ensures
            r.wf(),
            r.word() == 0,
            r.value() == data,
    {
        RWLock { lock: 0, data: Some(data), id: Ghost(arbitrary()) }
    }

    /// Moves the state word from "unlocked" to "write-locked"; any other
    /// state refuses the request.  On success the payload leaves the lock.
    fn enter_writer(&mut self) -> (r: Option<T>)
        requires
            old(self).wf(),
        ensures
            final(self).wf(),
            final(self).id() == old(self).id(),
            r is Some <==> admits_writer(old(self).word()),
            r is Some ==> r->Some_0 == old(self).value() && final(self).word() == WRITER,
            r is None ==> *final(self) == *old(self),
    {
        if self.lock == 0 {
            self.lock = WRITER;
            self.data.take()
        } else {
            None
        }
    }

    /// Requests write access and reports whether it was granted.  A granted
    /// request leaves the lock write-locked with no guard to release it, as
    /// a writer that never gives the lock back would.
    pub fn write_request(&mut self) -> (r: bool)
        requires
            old(self).wf(),
        ensures
            final(self).wf(),
            final(self).id() == old(self).id(),
            r == admits_writer(old(self).word()),
            r ==> final(self).word() == WRITER,
            !r ==> *final(self) == *old(self),
    {
        let granted = self.enter_writer();
        granted.is_some()
    }

    /// Takes the lock for writing if it is unlocked; fails while any reader
    /// or writer is outstanding.
    pub fn try_write(&mut self) -> (r: Option<RWLockWriteGuard<T>>)
        requires
            old(self).wf(),
        ensures
            final(self).wf(),
            final(self).id() == old(self).id(),
            r is Some <==> admits_writer(old(self).word()),
            r is Some ==> r->Some_0.value() == old(self).value() && r->Some_0.id() == old(self).id(),
            final(self).word() == after_write_attempt(old(self).word()),
            r is None ==> *final(self) == *old(self),
    {
        match self.enter_writer() {
            Some(data) => Some(RWLockWriteGuard { data, id: self.id }),
            None => None,
        }
    }

    /// Takes the lock for writing.  With nothing else able to release the
    /// lock in between, a lock that is not free would be waited on forever,
    /// so the lock must be free.
    pub fn write(&mut self) -> (r: RWLockWriteGuard<T>)
        requires
            old(self).wf(),
            admits_writer(old(self).word()),
        ensures
            final(self).wf(),
            final(self).id() == old(self).id(),
            final(self).word() == WRITER,
            r.value() == old(self).value(),
            r.id() == old(self).id(),
    {
        let guard = self.try_write();
        guard.unwrap()
    }

    /// Registers one more reader.  The count is raised first, then checked
    /// against a writer and the reader ceiling and rolled back if refused.
    /// Returns the new reader count, or -1 when refused.
    pub fn read_request(&mut self) -> (r: isize)
        requires
            old(self).wf(),
        ensures
            final(self).wf(),
            final(self).id() == old(self).id(),
            admits_reader(old(self).word()) ==> r == old(self).word() + 1
                && final(self).word() == old(self).word() + 1
                && final(self).value() == old(self).value(),
            !admits_reader(old(self).word()) ==> r == -1 && *final(self) == *old(self),
    {
        let prev = self.lock;
        if prev >= MAX_READERS {
            return -1;
        }
        self.lock = prev + 1;
        if prev < 0 {
            self.lock = prev;
            -1
        } else {
            prev + 1
        }
    }

    /// Registers a reader unless a writer holds the lock or the reader
    /// ceiling is reached.
    pub fn try_read(&mut self) -> (r: Option<RWLockReadGuard>)
        requires
            old(self).wf(),
        ensures
            final(self).wf(),
            final(self).id() == old(self).id(),
            r is Some <==> admits_reader(old(self).word()),
            r is Some ==> final(self).word() == old(self).word() + 1
                && final(self).value() == old(self).value() && r->Some_0.id() == old(self).id(),
            r is None ==> *final(self) == *old(self),
    {
        let n = self.read_request();
        if n >= 0 {
            Some(RWLockReadGuard { id: self.id })
        } else {
            None
        }
    }

    /// Registers a reader; the lock must admit one, as nothing could
    /// release a writer while this call waits.
    pub fn read(&mut self) -> (r: RWLockReadGuard)
        requires
            old(self).wf(),
            admits_reader(old(self).word()),
        ensures
            final(self).wf(),
            final(self).id() == old(self).id(),
            final(self).word() == old(self).word() + 1,
            final(self).value() == old(self).value(),
            r.id() == old(self).id(),
    {
        let guard = self.try_read();
        guard.unwrap()
    }

    /// Shared access to the payload while a reader is registered.
    pub fn read_value(&self, guard: &RWLockReadGuard) -> (r: &T)
        requires
            self.wf(),
            self.readers() > 0,
            guard.id() == self.id(),
        ensures
            *r == self.value(),
    {
        self.data.as_ref().unwrap()
    }

    /// Gives a reader's registration back.
    pub fn release_read(&mut self, guard: RWLockReadGuard)
        requires
            old(self).wf(),
            old(self).readers() > 0,
            guard.id() == old(self).id(),
        ensures
            final(self).wf(),
            final(self).id() == old(self).id(),
            final(self).word() == old(self).word() - 1,
            final(self).value() == old(self).value(),
    {
        self.lock = self.lock - 1;
    }

    /// Gives the writer's access back, with the payload it now holds.
    pub fn release_write(&mut self, guard: RWLockWriteGuard<T>)
        requires
            old(self).wf(),
            old(self).is_write_locked(),
            guard.id() == old(self).id(),
        ensures
            final(self).wf(),
            final(self).id() == old(self).id(),
            final(self).word() == 0,
            final(self).value() == guard.value(),
    {
        self.lock = 0;
        self.data = Some(guard.data);
    }
}

/// The state word after one write attempt on `word`.
pub open spec fn after_write_attempt(word: int) -> int {
    if admits_writer(word) { WRITER as int } else { word }
}

/// How many of `n` write attempts, made one after another with no release in
/// between, are granted on a lock whose state word is `word`.
pub open spec fn writers_admitted(word: int, n: nat) -> nat
    decreases n,
{
    if n == 0 {
        0
    } else {
        (if admits_writer(word) { 1nat } else { 0nat }) + writers_admitted(
            after_write_attempt(word),
            (n - 1) as nat,
        )
    }
}

/// A run of write attempts with no release in between admits at most one
/// writer, and none while a reader or a writer is outstanding.
pub proof fn lemma_one_writer(word: int, n: nat)
    ensures
        writers_admitted(word, n) <= 1,
        !admits_writer(word) ==> writers_admitted(word, n) == 0,
    decreases n,
{
    if n > 0 {
        lemma_one_writer(after_write_attempt(word), (n - 1) as nat);
    }
}

/// Readers and a writer are never admitted together: a write-locked lock
/// counts no readers and admits neither a reader nor another writer, and a
/// lock with a reader registered admits no writer.
pub proof fn lemma_reader_writer_exclusive<T>(l: &RWLock<T>)
    requires
        l.wf(),
    ensures
        l.is_write_locked() ==> l.readers() == 0,
        l.is_write_locked() ==> !admits_reader(l.word()) && !admits_writer(l.word()),
        l.readers() > 0 ==> !admits_writer(l.word()),
        l.state() is Write <==> l.is_write_locked(),
{
}

impl RWLockReadGuard {
    /// Identity of the lock that registered the reader.
    pub closed spec fn id(&self) -> int {
        self.id@
    }
}

impl<T> RWLockWriteGuard<T> {
    /// Identity of the lock that granted the guard.
    pub closed spec fn id(&self) -> int {
        self.id@
    }

    pub closed spec fn value(&self) -> T {
        self.data
    }
}

impl<T> core::ops::Deref for RWLockWriteGuard<T> {
    type Target = T;

    fn deref(&self) -> (r: &T)
        ensures
            *r == self.value(),
    {
        &self.data
    }
}

impl<T> core::ops::DerefMut for RWLockWriteGuard<T> {
    fn deref_mut(&mut self) -> (r: &mut T)
        ensures
            *r == old(self).value(),
            final(self).value() == *final(r),
            final(self).id() == old(self).id(),
    {
        &mut self.data
    }
}

} // verus!
