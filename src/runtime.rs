//! The runtime guard: the one record of which thread, if any, holds the
//! foreign runtime.
//!
//! Policy: initialising again on the thread that holds the runtime succeeds
//! and hands out another handle to the same runtime; initialising on any other
//! thread while it is held fails. The holder releases it with `shutdown`,
//! after which any thread may initialise it.

use crate::message_manager::{after_quit, calls_before_quit, MessageManager};
use vstd::prelude::*;

verus! {

/// The thread id that no thread carries; it marks the runtime as free.
pub const INVALID_THREAD_ID: u64 = 0;

/// Whether `thread` may initialise the runtime while `holder` holds it.
pub open spec fn init_allowed(holder: u64, thread: u64) -> bool {
    holder == INVALID_THREAD_ID || holder == thread
}

/// The holder after `thread` has tried to initialise the runtime.
pub open spec fn holder_after_init(holder: u64, thread: u64) -> u64 {
    if holder == INVALID_THREAD_ID {
        thread
    } else {
        holder
    }
}

/// The holder after `thread` has asked to shut the runtime down.
pub open spec fn holder_after_shutdown(holder: u64, thread: u64) -> u64 {
    if holder == thread {
        INVALID_THREAD_ID
    } else {
        holder
    }
}

/// Why the runtime could not be initialised.
#[derive(Clone, Copy, Debug, PartialEq, Eq, Structural)]
pub enum InitialiseError {
    /// Another thread holds the runtime.
    JuceAlreadyInitialised,
}

/// The process-wide phase register: which thread holds the runtime.
pub struct Runtime {
    message_thread: u64,
}

impl Runtime {
    /// The thread that holds the runtime, or `INVALID_THREAD_ID`.
    pub closed spec fn holder(&self) -> u64 {
        self.message_thread
    }

    /// A runtime that no thread holds.
    pub fn new() -> (r: Self)
        ensures
            r.holder() == INVALID_THREAD_ID,
    {
        Runtime { message_thread: INVALID_THREAD_ID }
    }

    /// Whether some thread holds the runtime.
    pub fn is_initialised(&self) -> (r: bool)
        ensures
            r == (self.holder() != INVALID_THREAD_ID),
    {
        self.message_thread != INVALID_THREAD_ID
    }

    /// The thread that holds the runtime.
    pub fn message_thread(&self) -> (r: Option<u64>)
        ensures
            r == (if self.holder() == INVALID_THREAD_ID {
                None
            } else {
                Some(self.holder())
            }),
    {
        if self.message_thread == INVALID_THREAD_ID {
            None
        } else {
            Some(self.message_thread)
        }
    }

    /// Releases the runtime if `thread` holds it. Returns whether it did, in
    /// which case the caller tears the foreign runtime down.
    pub fn shutdown(&mut self, thread: u64) -> (r: bool)
        requires
            thread != INVALID_THREAD_ID,
        ensures
            r == (old(self).holder() == thread),
            final(self).holder() == holder_after_shutdown(old(self).holder(), thread),
    {
        if self.message_thread == thread {
            self.message_thread = INVALID_THREAD_ID;
            true
        } else {
            false
        }
    }
}

/// A handle to the runtime, held on the thread that initialised it.
#[derive(Debug)]
pub struct JUCE {
    thread: u64,
}

impl JUCE {
    /// The thread on which this handle was handed out.
    pub closed spec fn spec_thread(&self) -> u64 {
        self.thread
    }

    fn get(thread: u64) -> (r: Self)
        ensures
            r.spec_thread() == thread,
    {
        JUCE { thread }
    }

    /// The thread on which this handle was handed out.
    pub fn thread(&self) -> (r: u64)
        ensures
            r == self.spec_thread(),
    {
        self.thread
    }

    /// Initialises the runtime on `thread` unless another thread holds it.
    /// On the holding thread it succeeds again and changes nothing.
    pub fn try_initialise(runtime: &mut Runtime, thread: u64) -> (r: Result<Self, InitialiseError>)
        requires
            thread != INVALID_THREAD_ID,
        ensures
            r is Ok <==> init_allowed(old(runtime).holder(), thread),
            r is Err ==> r == Err::<Self, InitialiseError>(InitialiseError::JuceAlreadyInitialised),
            r matches Ok(j) ==> j.spec_thread() == thread,
            final(runtime).holder() == holder_after_init(old(runtime).holder(), thread),
    {
        if runtime.message_thread == INVALID_THREAD_ID {
            runtime.message_thread = thread;
            Ok(JUCE::get(thread))
        } else if runtime.message_thread == thread {
            Ok(JUCE::get(thread))
        } else {
            Err(InitialiseError::JuceAlreadyInitialised)
        }
    }

    /// Initialises the runtime on `thread`, which must not be held by
    /// another thread.
    pub fn initialise(runtime: &mut Runtime, thread: u64) -> (r: Self)
        requires
            thread != INVALID_THREAD_ID,
            init_allowed(old(runtime).holder(), thread),
        ensures
            r.spec_thread() == thread,
            final(runtime).holder() == thread,
    {
        match JUCE::try_initialise(runtime, thread) {
            Ok(j) => j,
            Err(_) => {
                assert(false);
                JUCE::get(thread)
            },
        }
    }

    /// Whether `thread` is the thread that holds the runtime.
    pub fn is_this_the_message_thread(runtime: &Runtime, thread: u64) -> (r: bool)
        ensures
            r == (runtime.holder() == thread),
    {
        runtime.message_thread == thread
    }

    /// Runs the event loop on the holding thread: hands out the posted items
    /// up to the first stop request.
    pub fn run<M>(runtime: &Runtime, thread: u64, messages: &mut MessageManager<M>) -> (r: Vec<M>)
        requires
            thread != INVALID_THREAD_ID,
            runtime.holder() == thread,
        ensures
            r@ == calls_before_quit(old(messages).pending()),
            final(messages).pending() == after_quit(old(messages).pending()),
            final(messages).stop_requested() == old(messages).stop_requested(),
    {
        messages.run_dispatch_loop()
    }

    /// Asks the event loop to stop.
    pub fn quit<M>(messages: &mut MessageManager<M>)
        ensures
            final(messages).pending() == old(messages).pending().push(
                crate::message_manager::Message::Quit,
            ),
            final(messages).stop_requested(),
    {
        messages.stop_dispatch_loop()
    }
}

/// Initialising twice on one thread succeeds both times and leaves the
/// runtime where the first call left it; while that thread holds the
/// runtime, initialising on any other thread fails.
pub proof fn lemma_initialise_idempotent(holder: u64, thread: u64, other: u64)
    requires
        thread != INVALID_THREAD_ID,
        other != INVALID_THREAD_ID,
        other != thread,
        init_allowed(holder, thread),
    ensures
        init_allowed(holder_after_init(holder, thread), thread),
        holder_after_init(holder_after_init(holder, thread), thread) == holder_after_init(
            holder,
            thread,
        ),
        !init_allowed(holder_after_init(holder, thread), other),
{
}

/// Once the holding thread has shut the runtime down, any other thread may
/// initialise it.
pub proof fn lemma_shutdown_frees_runtime(holder: u64, thread: u64, other: u64)
    requires
        thread != INVALID_THREAD_ID,
        other != INVALID_THREAD_ID,
        holder == thread,
    ensures
        init_allowed(holder_after_shutdown(holder, thread), other),
        holder_after_init(holder_after_shutdown(holder, thread), other) == other,
{
}

} // verus!
