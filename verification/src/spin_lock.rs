//! A spin lock with a single holder.

use vstd::prelude::*;

verus! {

/// A value behind a lock. While the lock is held the value is with the
/// guard.
pub struct Mutex<T> {
    data: Option<T>,
    locked: bool,
}

/// The handle of the one holder of a lock, with the value in it.
pub struct MutexGuard<T> {
    data: T,
}

impl<T> View for MutexGuard<T> {
    type V = T;

    closed spec fn view(&self) -> T {
        self.data
    }
}

impl<T> MutexGuard<T> {
    /// Reads the protected value.
    pub fn get(&self) -> (data: &T)
        ensures
            *data == self@,
    {
        &self.data
    }

    /// Hands out the protected value for mutation.
    pub fn get_mut(&mut self) -> (data: &mut T)
        ensures
            *data == old(self)@,
            final(self)@ == *final(data),
    {
        &mut self.data
    }
}

impl<T> Mutex<T> {
    /// Whether the lock is held.
    pub closed spec fn locked(&self) -> bool {
        self.locked
    }

    /// The value in the mutex; none while a guard has it.
    pub closed spec fn content(&self) -> Option<T> {
        self.data
    }

    /// The value is in the mutex exactly while the lock is free.
    pub open spec fn wf(&self) -> bool {
        self.locked() <==> self.content() is None
    }

    /// Creates an unlocked mutex around a value.
    pub fn new(val: T) -> (mutex: Self)
        ensures
            mutex.wf(),
            !mutex.locked(),
            mutex.content() == Some(val),
    {
        Mutex { data: Some(val), locked: false }
    }

    /// Swaps the lock flag from free to held. Returns `Ok` with the old
    /// flag when the swap took place and `Err` with the flag found
    /// otherwise.
    fn cas_strong(&mut self) -> (res: Result<bool, bool>)
        ensures
            final(self).content() == old(self).content(),
            final(self).locked(),
            !old(self).locked() ==> res == Ok::<bool, bool>(false),
            old(self).locked() ==> res == Err::<bool, bool>(true),
    {
        if self.locked {
            Err(true)
        } else {
            self.locked = true;
            Ok(false)
        }
    }

    /// The weak form of the swap. With one owner at a time nothing can
    /// disturb it, so it succeeds exactly when the strong form does.
    fn cas_weak(&mut self) -> (res: Result<bool, bool>)
        ensures
            final(self).content() == old(self).content(),
            final(self).locked(),
            !old(self).locked() ==> res == Ok::<bool, bool>(false),
            old(self).locked() ==> res == Err::<bool, bool>(true),
    {
        if self.locked {
            Err(true)
        } else {
            self.locked = true;
            Ok(false)
        }
    }

    /// One attempt to take the lock: returns the guard when the lock was
    /// free, and fails at once when it is held.
    pub fn try_lock(&mut self) -> (res: Result<MutexGuard<T>, ()>)
        requires
            old(self).wf(),
        ensures
            final(self).wf(),
            final(self).locked(),
            old(self).locked() ==> res is Err,
            !old(self).locked() ==> res is Ok && Some(res->Ok_0@) == old(self).content(),
    {
        if self.cas_strong().is_ok() {
            let data: T = self.data.take().unwrap();
            Ok(MutexGuard { data })
        } else {
            Err(())
        }
    }

    /// Takes the lock and returns the guard.
    pub fn lock(&mut self) -> (guard: MutexGuard<T>)
        requires
            old(self).wf(),
            !old(self).locked(),
        ensures
            final(self).wf(),
            final(self).locked(),
            Some(guard@) == old(self).content(),
    {
        let swapped = self.cas_weak();
        assert(swapped is Ok);
        let data: T = self.data.take().unwrap();
        MutexGuard { data }
    }

    /// Releases the lock: the value comes back with the guard.
    pub fn unlock(&mut self, guard: MutexGuard<T>)
        requires
            old(self).locked(),
        ensures
            final(self).wf(),
            !final(self).locked(),
            final(self).content() == Some(guard@),
    {
        self.data = Some(guard.data);
        self.locked = false;
    }
}

} // verus!
