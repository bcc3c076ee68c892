//! The capability bridge: a host implementation handed to the foreign runtime
//! as one value with a lifecycle. It is constructed, registered,
//! invoked any number of times one call at a time, and released by a single
//! drop.

use vstd::prelude::*;

verus! {

/// Where a capability is in its lifecycle.
#[derive(Clone, Copy, Debug, PartialEq, Eq, Structural)]
pub enum Phase {
    /// Built on the host side and not handed to the foreign runtime.
    Constructed,
    /// Handed to the foreign runtime, which may invoke it.
    Registered,
    /// Released by the drop entry point; nothing may reach it any more.
    Dropped,
}

/// A use of the bridge that its lifecycle rules out.
#[derive(Clone, Copy, Debug, PartialEq, Eq, Structural)]
pub enum BridgeError {
    /// The capability is not registered with the foreign runtime.
    NotRegistered,
    /// The capability is registered already.
    AlreadyRegistered,
    /// A method of the capability is running already.
    Reentrant,
    /// The capability has been dropped.
    Dropped,
}

/// A capability with its lifecycle state; the foreign runtime holds it
/// behind one pointer.
pub struct Capability<T> {
    inner: Option<T>,
    phase: Phase,
    in_call: bool,
    drops: u64,
}

/// The error that a call on a capability in the given state meets, if any.
pub open spec fn call_error(phase: Phase, in_call: bool) -> Option<BridgeError> {
    match phase {
        Phase::Dropped => Some(BridgeError::Dropped),
        Phase::Constructed => Some(BridgeError::NotRegistered),
        Phase::Registered => if in_call {
            Some(BridgeError::Reentrant)
        } else {
            None
        },
    }
}

/// The outcome of an entry point, given the error that entering the call
/// met, if any: that error, or success.
pub open spec fn entry_outcome<R>(err: Option<BridgeError>, r: Result<R, BridgeError>) -> bool {
    match err {
        Some(e) => r == Err::<R, BridgeError>(e),
        None => r is Ok,
    }
}

/// What every entry point keeps: the capability stays well formed, in its
/// phase, with no method running and no extra drop; the call is refused
/// with the lifecycle's error, or made.
pub open spec fn entered<T, R>(
    before: Capability<T>,
    after: Capability<T>,
    r: Result<R, BridgeError>,
) -> bool {
    &&& after.wf()
    &&& entry_outcome(call_error(before.phase(), before.in_call()), r)
    &&& after.phase() == before.phase()
    &&& after.in_call() == before.in_call()
    &&& after.drops() == before.drops()
    &&& r is Err ==> after.value() == before.value()
}

impl<T> Capability<T> {
    /// The lifecycle phase.
    pub closed spec fn phase(&self) -> Phase {
        self.phase
    }

    /// Whether a method of the capability is running.
    pub closed spec fn in_call(&self) -> bool {
        self.in_call
    }

    /// How many times the drop entry point has released the capability.
    pub closed spec fn drops(&self) -> nat {
        self.drops as nat
    }

    /// The boxed implementation, while it has not been dropped.
    pub closed spec fn value(&self) -> T {
        self.inner.unwrap()
    }

    /// The state that every capability keeps: it is dropped exactly when the
    /// drop entry point has run, which happens at most once, and a call runs
    /// only on a registered capability.
    pub closed spec fn wf(&self) -> bool {
        &&& self.drops <= 1
        &&& (self.phase == Phase::Dropped) <==> (self.drops == 1)
        &&& (self.phase == Phase::Dropped) <==> self.inner is None
        &&& self.in_call ==> self.phase == Phase::Registered
    }

    /// Boxes an implementation.
    pub fn new(value: T) -> (r: Self)
        ensures
            r.wf(),
            r.phase() == Phase::Constructed,
            !r.in_call(),
            r.drops() == 0,
            r.value() == value,
    {
        Capability { inner: Some(value), phase: Phase::Constructed, in_call: false, drops: 0 }
    }

    /// The lifecycle phase.
    pub fn current_phase(&self) -> (r: Phase)
        ensures
            r == self.phase(),
    {
        self.phase
    }

    /// How many times the drop entry point has released the capability.
    pub fn drop_count(&self) -> (r: u64)
        ensures
            r == self.drops(),
    {
        self.drops
    }

    /// Whether a method of the capability is running.
    pub fn is_in_call(&self) -> (r: bool)
        ensures
            r == self.in_call(),
    {
        self.in_call
    }

    /// The error that a call would meet now, if any.
    pub fn call_check(&self) -> (r: Option<BridgeError>)
        ensures
            r == call_error(self.phase(), self.in_call()),
    {
        match self.phase {
            Phase::Dropped => Some(BridgeError::Dropped),
            Phase::Constructed => Some(BridgeError::NotRegistered),
            Phase::Registered => if self.in_call {
                Some(BridgeError::Reentrant)
            } else {
                None
            },
        }
    }

    /// Hands the capability to the foreign runtime.
    pub fn register(&mut self) -> (r: Result<(), BridgeError>)
        requires
            old(self).wf(),
        ensures
            final(self).wf(),
            r == (match old(self).phase() {
                Phase::Constructed => Ok(()),
                Phase::Registered => Err(BridgeError::AlreadyRegistered),
                Phase::Dropped => Err(BridgeError::Dropped),
            }),
            final(self).phase() == (if r is Ok {
                Phase::Registered
            } else {
                old(self).phase()
            }),
            final(self).in_call() == old(self).in_call(),
            final(self).drops() == old(self).drops(),
            final(self).value() == old(self).value(),
    {
        match self.phase {
            Phase::Constructed => {
                self.phase = Phase::Registered;
                Ok(())
            },
            Phase::Registered => Err(BridgeError::AlreadyRegistered),
            Phase::Dropped => Err(BridgeError::Dropped),
        }
    }

    /// Takes the capability back from the foreign runtime. Refused while one
    /// of its methods runs.
    pub fn deregister(&mut self) -> (r: Result<(), BridgeError>)
        requires
            old(self).wf(),
        ensures
            final(self).wf(),
            r == (match old(self).phase() {
                Phase::Registered => if old(self).in_call() {
                    Err(BridgeError::Reentrant)
                } else {
                    Ok(())
                },
                Phase::Constructed => Err(BridgeError::NotRegistered),
                Phase::Dropped => Err(BridgeError::Dropped),
            }),
            final(self).phase() == (if r is Ok {
                Phase::Constructed
            } else {
                old(self).phase()
            }),
            final(self).in_call() == old(self).in_call(),
            final(self).drops() == old(self).drops(),
            final(self).value() == old(self).value(),
    {
        match self.phase {
            Phase::Registered => {
                if self.in_call {
                    Err(BridgeError::Reentrant)
                } else {
                    self.phase = Phase::Constructed;
                    Ok(())
                }
            },
            Phase::Constructed => Err(BridgeError::NotRegistered),
            Phase::Dropped => Err(BridgeError::Dropped),
        }
    }

    /// Enters a method of the capability on behalf of the foreign runtime.
    /// Refused unless it is registered and no method of it is running, so a
    /// method can never be entered from inside another.
    pub fn begin_call(&mut self) -> (r: Result<(), BridgeError>)
        requires
            old(self).wf(),
        ensures
            final(self).wf(),
            r == (match call_error(old(self).phase(), old(self).in_call()) {
                Some(e) => Err(e),
                None => Ok(()),
            }),
            final(self).in_call() == (r is Ok || old(self).in_call()),
            final(self).phase() == old(self).phase(),
            final(self).drops() == old(self).drops(),
            final(self).value() == old(self).value(),
    {
        match self.phase {
            Phase::Dropped => Err(BridgeError::Dropped),
            Phase::Constructed => Err(BridgeError::NotRegistered),
            Phase::Registered => {
                if self.in_call {
                    Err(BridgeError::Reentrant)
                } else {
                    self.in_call = true;
                    Ok(())
                }
            },
        }
    }

    /// Leaves the running method.
    pub fn end_call(&mut self)
        requires
            old(self).wf(),
        ensures
            final(self).wf(),
            !final(self).in_call(),
            final(self).phase() == old(self).phase(),
            final(self).drops() == old(self).drops(),
            final(self).value() == old(self).value(),
    {
        self.in_call = false;
    }

    /// The implementation, while it has not been dropped.
    pub fn get(&self) -> (r: Option<&T>)
        requires
            self.wf(),
        ensures
            r is Some <==> self.phase() != Phase::Dropped,
            r matches Some(v) ==> *v == self.value(),
    {
        self.inner.as_ref()
    }

    /// The implementation, for the method that is running.
    pub fn get_mut(&mut self) -> (r: &mut T)
        requires
            old(self).wf(),
            old(self).in_call(),
        ensures
            *r == old(self).value(),
            final(self).wf(),
            final(self).value() == *final(r),
            final(self).phase() == old(self).phase(),
            final(self).in_call() == old(self).in_call(),
            final(self).drops() == old(self).drops(),
    {
        self.inner.as_mut().unwrap()
    }

    /// The implementation, while it has not been dropped.
    pub fn value_ref(&self) -> (r: &T)
        requires
            self.wf(),
            self.phase() != Phase::Dropped,
        ensures
            *r == self.value(),
    {
        self.inner.as_ref().unwrap()
    }

    /// Runs `f` as one method call of the foreign runtime: `f` takes the
    /// implementation and gives back its new value with a result. Refused,
    /// without running `f`, unless the capability is registered and no
    /// method of it is running; otherwise `f` runs exactly once.
    pub fn with_instance<R, F: FnOnce(T) -> (T, R)>(&mut self, f: F) -> (r: Result<R, BridgeError>)
        requires
            old(self).wf(),
            call_error(old(self).phase(), old(self).in_call()) is None ==> f.requires(
                (old(self).value(),),
            ),
        ensures
            final(self).wf(),
            entry_outcome(call_error(old(self).phase(), old(self).in_call()), r),
            final(self).phase() == old(self).phase(),
            final(self).in_call() == old(self).in_call(),
            final(self).drops() == old(self).drops(),
            r matches Ok(v) ==> f.ensures((old(self).value(),), (final(self).value(), v)),
            r is Err ==> final(self).value() == old(self).value(),
    {
        self.begin_call()?;
        let value = self.inner.take().unwrap();
        let (value, result) = f(value);
        self.inner = Some(value);
        self.in_call = false;
        Ok(result)
    }

    /// The drop entry point: releases the capability and hands the
    /// implementation back so that it is dropped. It runs once: a second
    /// drop, or a drop while a method runs, is refused.
    pub fn release(&mut self) -> (r: Result<T, BridgeError>)
        requires
            old(self).wf(),
        ensures
            final(self).wf(),
            old(self).phase() == Phase::Dropped ==> r == Err::<T, BridgeError>(BridgeError::Dropped),
            old(self).phase() != Phase::Dropped && old(self).in_call() ==> r == Err::<
                T,
                BridgeError,
            >(BridgeError::Reentrant),
            old(self).phase() != Phase::Dropped && !old(self).in_call() ==> r == Ok::<
                T,
                BridgeError,
            >(old(self).value()),
            final(self).phase() == (if r is Ok {
                Phase::Dropped
            } else {
                old(self).phase()
            }),
            final(self).drops() == (if r is Ok {
                old(self).drops() + 1
            } else {
                old(self).drops()
            }),
            final(self).in_call() == old(self).in_call(),
    {
        if self.in_call {
            return Err(BridgeError::Reentrant);
        }
        match self.inner.take() {
            Some(v) => {
                self.phase = Phase::Dropped;
                self.drops = self.drops + 1;
                Ok(v)
            },
            None => Err(BridgeError::Dropped),
        }
    }
}

/// A capability is released at most once: its drop count is at most one,
/// and it is one exactly when the capability is dropped, whatever sequence of
/// registrations and deregistrations came before.
pub proof fn lemma_released_at_most_once<T>(c: &Capability<T>)
    requires
        c.wf(),
    ensures
        c.drops() <= 1,
        (c.phase() == Phase::Dropped) <==> (c.drops() == 1),
{
}

/// While a method of a capability runs, entering a method of it again is
/// refused as re-entrant, and so are deregistering it and releasing it.
pub proof fn lemma_no_reentry<T>(c: &Capability<T>)
    requires
        c.wf(),
        c.in_call(),
    ensures
        c.phase() == Phase::Registered,
        call_error(c.phase(), c.in_call()) == Some(BridgeError::Reentrant),
{
}

} // verus!
