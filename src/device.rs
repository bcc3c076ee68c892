//! The device-type capability: a host implementation of a kind of audio
//! driver, invoked by the foreign runtime through fixed entry points that
//! each run one method of it through the capability bridge; and the same
//! for the audio devices that such a driver creates.
//!
//! Methods that only read take `&self`; methods that change the
//! implementation take it by value and give back its new value, so that each
//! entry point can state that the capability now holds what the method
//! returned.

use crate::array::{IntArray, JuceArray, StringArray};
use crate::bridge::{entered, BridgeError, Capability};
use crate::string::JuceString;
use crate::{diagnostic_from_result, diagnostic_matches, JuceError};
use vstd::prelude::*;

verus! {

/// A kind of audio driver that the host implements.
pub trait AudioDeviceType: Sized {
    /// The name of the kind of driver.
    fn name(&self) -> String;

    /// Refreshes the driver's list of known devices.
    fn scan_for_devices(self) -> Self;

    /// The known input devices.
    fn input_devices(&self) -> StringArray;

    /// The known output devices.
    fn output_devices(&self) -> StringArray;

    /// The index of the default device.
    fn default_device_index(&self, for_input: bool) -> i32;

    /// Whether inputs and outputs are chosen separately.
    fn has_separate_inputs_and_outputs(&self) -> bool;
}

/// An audio device that the host implements, with sample rates of type `R`.
pub trait AudioDevice<R>: Sized {
    /// The name of the device.
    fn name(&self) -> &str;

    /// The name of the kind of driver the device belongs to.
    fn device_type_name(&self) -> &str;

    /// The current sample rate.
    fn sample_rate(&self) -> R;

    /// The current buffer size in samples.
    fn buffer_size(&self) -> i32;

    /// The sample rates the device offers.
    fn available_sample_rates(&self) -> JuceArray<R>;

    /// The buffer sizes the device offers.
    fn available_buffer_sizes(&self) -> IntArray;

    /// Opens the device for processing at the given rate and buffer size.
    fn open(self, sample_rate: R, buffer_size: i32) -> (Self, Result<(), JuceError>);

    /// Closes the device.
    fn close(self) -> Self;

    /// The number of active input channels.
    fn input_channels(&self) -> i32;

    /// The number of active output channels.
    fn output_channels(&self) -> i32;
}

/// Entry point: the name of the kind of driver.
pub fn name<T: AudioDeviceType>(device_type: &mut Capability<T>) -> (r: Result<String, BridgeError>)
    requires
        old(device_type).wf(),
    ensures
        entered(*old(device_type), *final(device_type), r),
        final(device_type).value() == old(device_type).value(),
        r matches Ok(v) ==> call_ensures(T::name, (&old(device_type).value(),), v),
{
    device_type.begin_call()?;
    let v = device_type.value_ref().name();
    device_type.end_call();
    Ok(v)
}

/// Entry point: refreshes the driver's list of known devices; the
/// capability then holds what `scan_for_devices` returned.
pub fn scan_for_devices<T: AudioDeviceType>(device_type: &mut Capability<T>) -> (r: Result<
    (),
    BridgeError,
>)
    requires
        old(device_type).wf(),
    ensures
        entered(*old(device_type), *final(device_type), r),
        r is Ok ==> call_ensures(
            T::scan_for_devices,
            (old(device_type).value(),),
            final(device_type).value(),
        ),
{
    let scan = |t: T| -> (p: (T, ()))
        ensures
            call_ensures(T::scan_for_devices, (t,), p.0),
        { (t.scan_for_devices(), ()) };
    device_type.with_instance(scan)
}

/// Entry point: the known input devices when `input` holds, else the known
/// output devices, exactly as the implementation lists them.
pub fn get_device_names<T: AudioDeviceType>(device_type: &mut Capability<T>, input: bool) -> (r:
    Result<StringArray, BridgeError>)
    requires
        old(device_type).wf(),
    ensures
        entered(*old(device_type), *final(device_type), r),
        final(device_type).value() == old(device_type).value(),
        r matches Ok(names) ==> if input {
            call_ensures(T::input_devices, (&old(device_type).value(),), names)
        } else {
            call_ensures(T::output_devices, (&old(device_type).value(),), names)
        },
{
    device_type.begin_call()?;
    let names = if input {
        device_type.value_ref().input_devices()
    } else {
        device_type.value_ref().output_devices()
    };
    device_type.end_call();
    Ok(names)
}

/// Entry point: the index of the default input or output device.
pub fn default_device_index<T: AudioDeviceType>(device_type: &mut Capability<T>, for_input: bool) -> (r: Result<i32, BridgeError>)
    requires
        old(device_type).wf(),
    ensures
        entered(*old(device_type), *final(device_type), r),
        final(device_type).value() == old(device_type).value(),
        r matches Ok(v) ==> call_ensures(T::default_device_index, (&old(device_type).value(), for_input), v),
{
    device_type.begin_call()?;
    let v = device_type.value_ref().default_device_index(for_input);
    device_type.end_call();
    Ok(v)
}

/// Entry point: whether inputs and outputs are chosen separately.
pub fn has_separate_inputs_and_outputs<T: AudioDeviceType>(device_type: &mut Capability<T>) -> (r: Result<bool, BridgeError>)
    requires
        old(device_type).wf(),
    ensures
        entered(*old(device_type), *final(device_type), r),
        final(device_type).value() == old(device_type).value(),
        r matches Ok(v) ==> call_ensures(T::has_separate_inputs_and_outputs, (&old(device_type).value(),), v),
{
    device_type.begin_call()?;
    let v = device_type.value_ref().has_separate_inputs_and_outputs();
    device_type.end_call();
    Ok(v)
}

/// Entry point: the name of the device, as a foreign string.
pub fn device_name<R, D: AudioDevice<R>>(device: &mut Capability<D>) -> (r: Result<JuceString, BridgeError>)
    requires
        old(device).wf(),
    ensures
        entered(*old(device), *final(device), r),
        final(device).value() == old(device).value(),
        r matches Ok(v) ==> exists|s: &str| call_ensures(D::name, (&old(device).value(),), s) && v@ == s@,
{
    device.begin_call()?;
    let v = JuceString::new(device.value_ref().name());
    device.end_call();
    Ok(v)
}

/// Entry point: the name of the device's kind of driver, as a foreign string.
pub fn device_type_name<R, D: AudioDevice<R>>(device: &mut Capability<D>) -> (r: Result<JuceString, BridgeError>)
    requires
        old(device).wf(),
    ensures
        entered(*old(device), *final(device), r),
        final(device).value() == old(device).value(),
        r matches Ok(v) ==> exists|s: &str| call_ensures(D::device_type_name, (&old(device).value(),), s) && v@ == s@,
{
    device.begin_call()?;
    let v = JuceString::new(device.value_ref().device_type_name());
    device.end_call();
    Ok(v)
}

/// Entry point: the current sample rate, as the implementation reports it.
pub fn device_sample_rate<R, D: AudioDevice<R>>(device: &mut Capability<D>) -> (r: Result<R, BridgeError>)
    requires
        old(device).wf(),
    ensures
        entered(*old(device), *final(device), r),
        final(device).value() == old(device).value(),
        r matches Ok(v) ==> call_ensures(D::sample_rate, (&old(device).value(),), v),
{
    device.begin_call()?;
    let v = device.value_ref().sample_rate();
    device.end_call();
    Ok(v)
}

/// Entry point: the current buffer size, as the implementation reports it.
pub fn device_buffer_size<R, D: AudioDevice<R>>(device: &mut Capability<D>) -> (r: Result<i32, BridgeError>)
    requires
        old(device).wf(),
    ensures
        entered(*old(device), *final(device), r),
        final(device).value() == old(device).value(),
        r matches Ok(v) ==> call_ensures(D::buffer_size, (&old(device).value(),), v),
{
    device.begin_call()?;
    let v = device.value_ref().buffer_size();
    device.end_call();
    Ok(v)
}

/// Entry point: the sample rates the device offers.
pub fn device_available_sample_rates<R, D: AudioDevice<R>>(device: &mut Capability<D>) -> (r: Result<JuceArray<R>, BridgeError>)
    requires
        old(device).wf(),
    ensures
        entered(*old(device), *final(device), r),
        final(device).value() == old(device).value(),
        r matches Ok(v) ==> call_ensures(D::available_sample_rates, (&old(device).value(),), v),
{
    device.begin_call()?;
    let v = device.value_ref().available_sample_rates();
    device.end_call();
    Ok(v)
}

/// Entry point: the buffer sizes the device offers.
pub fn device_available_buffer_sizes<R, D: AudioDevice<R>>(device: &mut Capability<D>) -> (r: Result<IntArray, BridgeError>)
    requires
        old(device).wf(),
    ensures
        entered(*old(device), *final(device), r),
        final(device).value() == old(device).value(),
        r matches Ok(v) ==> call_ensures(D::available_buffer_sizes, (&old(device).value(),), v),
{
    device.begin_call()?;
    let v = device.value_ref().available_buffer_sizes();
    device.end_call();
    Ok(v)
}

/// `open`, called on `before` with `sample_rate` and `buffer_size`, gave back
/// `after` and a result that the foreign idiom writes as `diagnostic`.
pub open spec fn opened<R, D: AudioDevice<R>>(
    before: D,
    sample_rate: R,
    buffer_size: i32,
    after: D,
    diagnostic: Seq<char>,
) -> bool {
    exists|res: Result<(), JuceError>|
        #![trigger diagnostic_matches(res, diagnostic)]
        call_ensures(D::open, (before, sample_rate, buffer_size), (after, res))
            && diagnostic_matches(res, diagnostic)
}

/// Entry point: opens the device with exactly the given rate and buffer
/// size, and reports the outcome in the foreign idiom: an empty diagnostic
/// if `open` succeeded, the error's text otherwise. The capability then
/// holds the device that `open` gave back.
pub fn device_open<R, D: AudioDevice<R>>(
    device: &mut Capability<D>,
    sample_rate: R,
    buffer_size: i32,
) -> (r: Result<JuceString, BridgeError>)
    requires
        old(device).wf(),
    ensures
        entered(*old(device), *final(device), r),
        r matches Ok(d) ==> opened(old(device).value(), sample_rate, buffer_size, final(device).value(), d@),
{
    let open = move |t: D| -> (p: (D, Result<(), JuceError>))
        ensures
            call_ensures(D::open, (t, sample_rate, buffer_size), p),
        { t.open(sample_rate, buffer_size) };
    let res = device.with_instance(open)?;
    let ghost outcome = res;
    assert(call_ensures(D::open, (old(device).value(), sample_rate, buffer_size), (device.value(), outcome)));
    let d = diagnostic_from_result(res);
    assert(diagnostic_matches(outcome, d@));
    assert(opened(old(device).value(), sample_rate, buffer_size, device.value(), d@));
    Ok(d)
}

/// Entry point: closes the device; the capability then holds what `close`
/// returned.
pub fn device_close<R, D: AudioDevice<R>>(device: &mut Capability<D>) -> (r: Result<
    (),
    BridgeError,
>)
    requires
        old(device).wf(),
    ensures
        entered(*old(device), *final(device), r),
        r is Ok ==> call_ensures(D::close, (old(device).value(),), final(device).value()),
{
    let close = |t: D| -> (p: (D, ()))
        ensures
            call_ensures(D::close, (t,), p.0),
        { (t.close(), ()) };
    device.with_instance(close)
}

} // verus!
