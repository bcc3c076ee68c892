//! Applications driven by the runtime's event loop. A handle posts work for
//! the affine thread: messages for the app, closures to run with it, timer
//! requests, and the request to quit. On the affine thread, entry points
//! hand the posted work to the app one call at a time.
//!
//! Methods that change the app take it by value and give back its new
//! value, so that each entry point can state that the app now is what the
//! method returned.

use crate::bridge::{entered, BridgeError, Capability};
use crate::message_manager::{Message, MessageManager};
use crate::runtime::{Runtime, INVALID_THREAD_ID};
use crate::string::JuceString;
use core::marker::PhantomData;
use vstd::prelude::*;

verus! {

/// An application run by the event loop.
pub trait App: Sized {
    /// The name of the application.
    fn name(&self) -> JuceString;

    /// The version of the application.
    fn version(&self) -> JuceString;

    /// Called when the application starts.
    fn initialise(self, handle: AppHandle<Self>) -> Self;

    /// Called when the application is shutting down.
    fn shutdown(self) -> Self;

    /// Called each time one of the application's timers fires.
    fn timer_callback(self, handle: AppHandle<Self>, timer: AppTimerId) -> Self;
}

/// An application that takes messages of type `M`.
pub trait On<M>: App {
    /// Handles a message sent through an `AppHandle`.
    fn on(self, message: M) -> Self;
}

/// The id of one of an application's timers.
#[derive(Clone, Copy, Debug, PartialEq, Eq, Structural)]
pub struct AppTimerId(pub i32);

/// Work that a handle posts for the affine thread: messages of type `M`,
/// closures of type `F`.
#[derive(Debug)]
pub enum AppMessage<M, F> {
    /// A message for the application's `On::on`.
    Deliver(M),
    /// A closure to run with the application.
    Run(F),
    /// Start a timer that fires every `interval` milliseconds.
    StartTimer { id: i32, interval: i32 },
    /// Stop a timer.
    StopTimer(i32),
}

/// The state an application's handles share: the next timer id.
pub struct AppState {
    timer_id: i32,
}

impl AppState {
    /// The id that the next timer gets.
    pub closed spec fn next_id(&self) -> i32 {
        self.timer_id
    }

    /// Timer ids start at zero.
    pub fn new() -> (r: Self)
        ensures
            r.next_id() == 0,
    {
        AppState { timer_id: 0 }
    }
}

/// The interval of a timer in milliseconds, as the event loop takes it:
/// durations beyond `i32::MAX` milliseconds are held to `i32::MAX`.
pub open spec fn spec_timer_interval(millis: u128) -> i32 {
    if millis <= i32::MAX as u128 {
        millis as i32
    } else {
        i32::MAX
    }
}

/// Converts a timer interval to the event loop's millisecond count.
pub fn timer_interval(millis: u128) -> (r: i32)
    ensures
        r == spec_timer_interval(millis),
{
    if millis <= i32::MAX as u128 {
        millis as i32
    } else {
        i32::MAX
    }
}

/// A handle through which any thread posts work for an application.
pub struct AppHandle<A> {
    _marker: PhantomData<A>,
}

/// The handle that entry points give the application.
pub closed spec fn spec_handle<A>() -> AppHandle<A> {
    AppHandle { _marker: PhantomData }
}

impl<A> Clone for AppHandle<A> {
    fn clone(&self) -> (r: Self) {
        AppHandle { _marker: PhantomData }
    }
}

impl<A> AppHandle<A> {
    /// A handle for the application.
    pub fn new() -> (r: Self)
        ensures
            r == spec_handle::<A>(),
    {
        AppHandle { _marker: PhantomData }
    }

    /// Sends a message that the application receives through `On::on` on the
    /// affine thread.
    pub fn send<M, F>(&self, messages: &mut MessageManager<AppMessage<M, F>>, message: M)
        ensures
            final(messages).pending() == old(messages).pending().push(
                Message::Call(AppMessage::Deliver(message)),
            ),
            final(messages).stop_requested() == old(messages).stop_requested(),
    {
        messages.call_async(AppMessage::Deliver(message));
    }

    /// Starts a timer that fires every `interval_millis` milliseconds, and
    /// returns its id. Ids are handed out in turn, wrapping past `i32::MAX`.
    pub fn start_timer<M, F>(
        &self,
        state: &mut AppState,
        messages: &mut MessageManager<AppMessage<M, F>>,
        interval_millis: u128,
    ) -> (r: AppTimerId)
        ensures
            r == AppTimerId(old(state).next_id()),
            final(state).next_id() == old(state).next_id().wrapping_add(1),
            final(messages).pending() == old(messages).pending().push(
                Message::Call(
                    AppMessage::StartTimer {
                        id: old(state).next_id(),
                        interval: spec_timer_interval(interval_millis),
                    },
                ),
            ),
            final(messages).stop_requested() == old(messages).stop_requested(),
    {
        let timer_id = state.timer_id;
        state.timer_id = state.timer_id.wrapping_add(1);
        let interval = timer_interval(interval_millis);
        messages.call_async(AppMessage::StartTimer { id: timer_id, interval });
        AppTimerId(timer_id)
    }

    /// Stops a timer.
    pub fn stop_timer<M, F>(&self, messages: &mut MessageManager<AppMessage<M, F>>, timer: AppTimerId)
        ensures
            final(messages).pending() == old(messages).pending().push(
                Message::Call(AppMessage::StopTimer(timer.0)),
            ),
            final(messages).stop_requested() == old(messages).stop_requested(),
    {
        messages.call_async(AppMessage::StopTimer(timer.0));
    }

    /// Posts a closure to run with the application on the affine thread.
    pub fn call_on_main_thread<M, F>(&self, messages: &mut MessageManager<AppMessage<M, F>>, func: F)
        ensures
            final(messages).pending() == old(messages).pending().push(
                Message::Call(AppMessage::Run(func)),
            ),
            final(messages).stop_requested() == old(messages).stop_requested(),
    {
        messages.call_async(AppMessage::Run(func));
    }

    /// Asks the application to quit: the event loop stops after the work
    /// posted so far.
    pub fn quit<M, F>(self, messages: &mut MessageManager<AppMessage<M, F>>)
        ensures
            final(messages).pending() == old(messages).pending().push(Message::Quit),
            final(messages).stop_requested(),
    {
        messages.stop_dispatch_loop();
    }

    /// Whether the application has been asked to quit.
    pub fn is_quitting<M, F>(&self, messages: &MessageManager<AppMessage<M, F>>) -> (r: bool)
        ensures
            r == messages.stop_requested(),
    {
        messages.has_stop_message_been_sent()
    }
}

/// The calling thread holds the runtime, as every entry point into the
/// application requires.
pub open spec fn on_message_thread(runtime: &Runtime, thread: u64) -> bool {
    thread != INVALID_THREAD_ID && runtime.holder() == thread
}

/// Entry point: the name of the application.
pub fn get_application_name<A: App>(runtime: &Runtime, thread: u64, app: &mut Capability<A>) -> (r:
    Result<JuceString, BridgeError>)
    requires
        old(app).wf(),
        on_message_thread(runtime, thread),
    ensures
        entered(*old(app), *final(app), r),
        final(app).value() == old(app).value(),
        r matches Ok(v) ==> call_ensures(A::name, (&old(app).value(),), v),
{
    app.begin_call()?;
    let v = app.value_ref().name();
    app.end_call();
    Ok(v)
}

/// Entry point: the version of the application.
pub fn get_application_version<A: App>(runtime: &Runtime, thread: u64, app: &mut Capability<A>) -> (r:
    Result<JuceString, BridgeError>)
    requires
        old(app).wf(),
        on_message_thread(runtime, thread),
    ensures
        entered(*old(app), *final(app), r),
        final(app).value() == old(app).value(),
        r matches Ok(v) ==> call_ensures(A::version, (&old(app).value(),), v),
{
    app.begin_call()?;
    let v = app.value_ref().version();
    app.end_call();
    Ok(v)
}

/// Entry point: the application starts; it then is what `initialise`
/// returned.
pub fn initialise<A: App>(runtime: &Runtime, thread: u64, app: &mut Capability<A>) -> (r: Result<
    (),
    BridgeError,
>)
    requires
        old(app).wf(),
        on_message_thread(runtime, thread),
    ensures
        entered(*old(app), *final(app), r),
        r is Ok ==> call_ensures(
            A::initialise,
            (old(app).value(), spec_handle::<A>()),
            final(app).value(),
        ),
{
    let start = |a: A| -> (p: (A, ()))
        ensures
            call_ensures(A::initialise, (a, spec_handle::<A>()), p.0),
        { (a.initialise(AppHandle::new()), ()) };
    app.with_instance(start)
}

/// Entry point: the application shuts down; it then is what `shutdown`
/// returned.
pub fn shutdown<A: App>(runtime: &Runtime, thread: u64, app: &mut Capability<A>) -> (r: Result<
    (),
    BridgeError,
>)
    requires
        old(app).wf(),
        on_message_thread(runtime, thread),
    ensures
        entered(*old(app), *final(app), r),
        r is Ok ==> call_ensures(A::shutdown, (old(app).value(),), final(app).value()),
{
    let stop = |a: A| -> (p: (A, ()))
        ensures
            call_ensures(A::shutdown, (a,), p.0),
        { (a.shutdown(), ()) };
    app.with_instance(stop)
}

/// Entry point: one of the application's timers fired; the application then
/// is what `timer_callback` returned.
pub fn timer_callback<A: App>(
    runtime: &Runtime,
    thread: u64,
    app: &mut Capability<A>,
    timer: AppTimerId,
) -> (r: Result<(), BridgeError>)
    requires
        old(app).wf(),
        on_message_thread(runtime, thread),
    ensures
        entered(*old(app), *final(app), r),
        r is Ok ==> call_ensures(
            A::timer_callback,
            (old(app).value(), spec_handle::<A>(), timer),
            final(app).value(),
        ),
{
    let fire = move |a: A| -> (p: (A, ()))
        ensures
            call_ensures(A::timer_callback, (a, spec_handle::<A>(), timer), p.0),
        { (a.timer_callback(AppHandle::new(), timer), ()) };
    app.with_instance(fire)
}

/// Entry point: a message posted by `AppHandle::send` reaches the
/// application's `On::on`, which receives exactly that message; the
/// application then is what `on` returned.
pub fn deliver<M, A: On<M>>(runtime: &Runtime, thread: u64, app: &mut Capability<A>, message: M) -> (r:
    Result<(), BridgeError>)
    requires
        old(app).wf(),
        on_message_thread(runtime, thread),
    ensures
        entered(*old(app), *final(app), r),
        r is Ok ==> call_ensures(A::on, (old(app).value(), message), final(app).value()),
{
    let receive = move |a: A| -> (p: (A, ()))
        ensures
            call_ensures(A::on, (a, message), p.0),
        { (a.on(message), ()) };
    app.with_instance(receive)
}

/// Entry point: a closure posted by `AppHandle::call_on_main_thread` runs
/// once with the application and a handle to it; the application then is
/// what the closure returned. Refused, without running it, while another
/// call into the application is running.
pub fn run_on_app<A: App, F: FnOnce(A, AppHandle<A>) -> A>(
    runtime: &Runtime,
    thread: u64,
    app: &mut Capability<A>,
    func: F,
) -> (r: Result<(), BridgeError>)
    requires
        old(app).wf(),
        on_message_thread(runtime, thread),
        forall|a: A| func.requires((a, spec_handle::<A>())),
    ensures
        entered(*old(app), *final(app), r),
        r is Ok ==> func.ensures((old(app).value(), spec_handle::<A>()), final(app).value()),
{
    let run = move |a: A| -> (p: (A, ()))
        requires
            func.requires((a, spec_handle::<A>())),
        ensures
            func.ensures((a, spec_handle::<A>()), p.0),
        { (func(a, AppHandle::new()), ()) };
    app.with_instance(run)
}

} // verus!
