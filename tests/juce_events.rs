use cxx_juce::application::{self, timer_interval, App, AppHandle, AppMessage, AppState, AppTimerId, On};
use cxx_juce::bridge::{BridgeError, Capability};
use cxx_juce::string::JuceString;
use cxx_juce::message_manager::MessageManager;
use cxx_juce::runtime::{InitialiseError, Runtime, JUCE};

const THREAD_A: u64 = 1;
const THREAD_B: u64 = 2;

#[test]
fn initialising_juce_twice_on_the_same_thread_should_not_panic() {
    let mut runtime = Runtime::new();
    let _juce = JUCE::initialise(&mut runtime, THREAD_A);
    let _juce = JUCE::initialise(&mut runtime, THREAD_A);
}

#[test]
fn juce_cant_be_initialised_simultaneously_on_two_different_threads() {
    let mut runtime = Runtime::new();
    let _juce = JUCE::initialise(&mut runtime, THREAD_A);

    assert!(JUCE::try_initialise(&mut runtime, THREAD_B).is_err());
}

#[test]
fn juce_can_run_on_a_different_thread_after_finishing_on_another() {
    let mut runtime = Runtime::new();
    assert!(JUCE::try_initialise(&mut runtime, THREAD_A).is_ok());
    assert!(runtime.shutdown(THREAD_A));
    assert!(JUCE::try_initialise(&mut runtime, THREAD_B).is_ok());
    assert!(runtime.shutdown(THREAD_B));
}

#[test]
fn second_thread_succeeds_once_the_first_lets_go() {
    let mut runtime = Runtime::new();
    let juce = JUCE::try_initialise(&mut runtime, THREAD_A).unwrap();
    assert_eq!(juce.thread(), THREAD_A);
    assert!(matches!(
        JUCE::try_initialise(&mut runtime, THREAD_B),
        Err(InitialiseError::JuceAlreadyInitialised)
    ));
    assert!(!runtime.shutdown(THREAD_B));
    assert_eq!(runtime.message_thread(), Some(THREAD_A));
    assert!(runtime.shutdown(THREAD_A));
    assert!(!runtime.is_initialised());
    let juce = JUCE::try_initialise(&mut runtime, THREAD_B).unwrap();
    assert_eq!(juce.thread(), THREAD_B);
    assert!(JUCE::is_this_the_message_thread(&runtime, THREAD_B));
    assert!(!JUCE::is_this_the_message_thread(&runtime, THREAD_A));
}

#[test]
fn posted_work_is_dispatched_in_order_until_quit() {
    let mut runtime = Runtime::new();
    let _juce = JUCE::initialise(&mut runtime, THREAD_A);
    let mut messages = MessageManager::new();
    messages.call_async(1);
    messages.call_async(2);
    JUCE::quit(&mut messages);
    messages.call_async(3);
    assert!(messages.has_stop_message_been_sent());
    assert_eq!(JUCE::run(&runtime, THREAD_A, &mut messages), vec![1, 2]);
    assert_eq!(messages.num_pending(), 1);
    assert_eq!(messages.dispatch_next(), Some(3));
    assert_eq!(messages.dispatch_next(), None);
}

#[test]
fn dispatch_loop_without_quit_drains_the_queue() {
    let mut messages = MessageManager::new();
    assert!(!messages.has_stop_message_been_sent());
    messages.call_async("a");
    messages.call_async("b");
    assert_eq!(messages.run_dispatch_loop(), vec!["a", "b"]);
    assert_eq!(messages.num_pending(), 0);
    messages.stop_dispatch_loop();
    assert_eq!(messages.dispatch_next(), None);
    assert_eq!(messages.num_pending(), 0);
}

struct Counter;

#[test]
fn timers_get_ids_in_turn_and_intervals_in_milliseconds() {
    let handle: AppHandle<Counter> = AppHandle::new();
    let mut state = AppState::new();
    let mut messages: MessageManager<AppMessage<u8, u16>> = MessageManager::new();
    assert_eq!(handle.start_timer(&mut state, &mut messages, 250), AppTimerId(0));
    assert_eq!(handle.start_timer(&mut state, &mut messages, u128::MAX), AppTimerId(1));
    handle.stop_timer(&mut messages, AppTimerId(0));
    handle.send(&mut messages, 9);
    handle.call_on_main_thread(&mut messages, 10);
    assert!(!handle.is_quitting(&messages));
    let posted = messages.run_dispatch_loop();
    assert_eq!(posted.len(), 5);
    assert!(matches!(posted[0], AppMessage::StartTimer { id: 0, interval: 250 }));
    assert!(matches!(posted[1], AppMessage::StartTimer { id: 1, interval: i32::MAX }));
    assert!(matches!(posted[2], AppMessage::StopTimer(0)));
    assert!(matches!(posted[3], AppMessage::Deliver(9)));
    assert!(matches!(posted[4], AppMessage::Run(10)));
    handle.clone().quit(&mut messages);
    assert!(handle.is_quitting(&messages));
}

#[test]
fn timer_interval_is_held_to_the_largest_count() {
    assert_eq!(timer_interval(0), 0);
    assert_eq!(timer_interval(1000), 1000);
    assert_eq!(timer_interval(i32::MAX as u128), i32::MAX);
    assert_eq!(timer_interval(i32::MAX as u128 + 1), i32::MAX);
}

struct Recorder {
    started: bool,
    received: Vec<u32>,
    timers: Vec<AppTimerId>,
}

impl App for Recorder {
    fn name(&self) -> JuceString {
        JuceString::new("Recorder")
    }

    fn version(&self) -> JuceString {
        JuceString::new("1.0")
    }

    fn initialise(mut self, _handle: AppHandle<Self>) -> Self {
        self.started = true;
        self
    }

    fn shutdown(mut self) -> Self {
        self.started = false;
        self
    }

    fn timer_callback(mut self, _handle: AppHandle<Self>, timer: AppTimerId) -> Self {
        self.timers.push(timer);
        self
    }
}

impl On<u32> for Recorder {
    fn on(mut self, message: u32) -> Self {
        self.received.push(message);
        self
    }
}

#[test]
fn app_entry_points_reach_the_app_one_call_at_a_time() {
    let mut runtime = Runtime::new();
    let _juce = JUCE::initialise(&mut runtime, THREAD_A);
    let rt = &runtime;
    let mut app = Capability::new(Recorder { started: false, received: vec![], timers: vec![] });
    assert_eq!(application::initialise(rt, THREAD_A, &mut app), Err(BridgeError::NotRegistered));
    app.register().unwrap();
    assert_eq!(application::get_application_name(rt, THREAD_A, &mut app).unwrap().as_str(), "Recorder");
    assert_eq!(application::get_application_version(rt, THREAD_A, &mut app).unwrap().as_str(), "1.0");
    assert_eq!(application::initialise(rt, THREAD_A, &mut app), Ok(()));
    assert_eq!(application::deliver(rt, THREAD_A, &mut app, 7_u32), Ok(()));
    assert_eq!(application::timer_callback(rt, THREAD_A, &mut app, AppTimerId(3)), Ok(()));
    assert_eq!(
        application::run_on_app(rt, THREAD_A, &mut app, |mut a: Recorder, _h| {
            a.received.push(9);
            a
        }),
        Ok(())
    );
    app.begin_call().unwrap();
    assert_eq!(application::deliver(rt, THREAD_A, &mut app, 8_u32), Err(BridgeError::Reentrant));
    app.end_call();
    assert_eq!(application::shutdown(rt, THREAD_A, &mut app), Ok(()));
    let state = app.get().unwrap();
    assert!(!state.started);
    assert_eq!(state.received, vec![7, 9]);
    assert_eq!(state.timers, vec![AppTimerId(3)]);
}
