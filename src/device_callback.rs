//! The audio-callback capability: a host implementation that the foreign
//! runtime's audio thread invokes around and for each block of samples.
//!
//! Each method takes the implementation by value and gives back its new
//! value, so that each entry point can state that the capability now holds
//! what the method returned.

use crate::bridge::{entered, BridgeError, Capability};
use crate::buffer::AudioSampleBuffer;
use vstd::prelude::*;

verus! {

/// Receives audio callbacks, with samples of type `S`. Callbacks come on the
/// audio thread, so implementations are `Send`.
pub trait AudioIODeviceCallback<S>: Send + Sized {
    /// Called when the audio device is about to start.
    fn about_to_start(self) -> Self;

    /// Processes a block: reads `input`, and gives back `output` written.
    fn process_block(self, input: &AudioSampleBuffer<S>, output: AudioSampleBuffer<S>) -> (
        Self,
        AudioSampleBuffer<S>,
    );

    /// Called when the audio device has stopped.
    fn stopped(self) -> Self;
}

/// Entry point: the device is about to start.
pub fn about_to_start<S, C: AudioIODeviceCallback<S>>(callback: &mut Capability<C>) -> (r: Result<
    (),
    BridgeError,
>)
    requires
        old(callback).wf(),
    ensures
        entered(*old(callback), *final(callback), r),
        r is Ok ==> call_ensures(C::about_to_start, (old(callback).value(),), final(callback).value()),
{
    let start = |c: C| -> (p: (C, ()))
        ensures
            call_ensures(C::about_to_start, (c,), p.0),
        { (c.about_to_start(), ()) };
    callback.with_instance(start)
}

/// Entry point: one block of audio. The implementation reads `input` and
/// gives back the output buffer, which then replaces `output`.
pub fn process_block<S: Copy, C: AudioIODeviceCallback<S>>(
    callback: &mut Capability<C>,
    input: &AudioSampleBuffer<S>,
    output: &mut AudioSampleBuffer<S>,
) -> (r: Result<(), BridgeError>)
    requires
        old(callback).wf(),
    ensures
        entered(*old(callback), *final(callback), r),
        r is Err ==> *final(output) == *old(output),
        r is Ok ==> call_ensures(
            C::process_block,
            (old(callback).value(), input, *old(output)),
            (final(callback).value(), *final(output)),
        ),
{
    if let Some(e) = callback.call_check() {
        return Err(e);
    }
    let mut taken = AudioSampleBuffer::new(0, 0, output.silence_value());
    core::mem::swap(output, &mut taken);
    let process = move |c: C| -> (p: (C, AudioSampleBuffer<S>))
        ensures
            call_ensures(C::process_block, (c, input, taken), p),
        { c.process_block(input, taken) };
    match callback.with_instance(process) {
        Ok(written) => {
            *output = written;
            Ok(())
        },
        Err(e) => {
            assert(false);
            Err(e)
        },
    }
}

/// Entry point: the device has stopped.
pub fn stopped<S, C: AudioIODeviceCallback<S>>(callback: &mut Capability<C>) -> (r: Result<
    (),
    BridgeError,
>)
    requires
        old(callback).wf(),
    ensures
        entered(*old(callback), *final(callback), r),
        r is Ok ==> call_ensures(C::stopped, (old(callback).value(),), final(callback).value()),
{
    let stop = |c: C| -> (p: (C, ()))
        ensures
            call_ensures(C::stopped, (c,), p.0),
        { (c.stopped(), ()) };
    callback.with_instance(stop)
}

} // verus!
