use cxx_juce::array::{IntArray, JuceArray, StringArray};
use cxx_juce::bridge::{BridgeError, Capability, Phase};
use cxx_juce::buffer::{AudioSampleBuffer, InputAudioSampleBuffer, OutputAudioSampleBuffer};
use cxx_juce::channels::{ChannelCount, ChannelSelection};
use cxx_juce::device::{self, AudioDevice, AudioDeviceType};
use cxx_juce::device_callback::{about_to_start, process_block, stopped, AudioIODeviceCallback};
use cxx_juce::device_manager::AudioDeviceManager;
use cxx_juce::runtime::{Runtime, JUCE};
use cxx_juce::string::JuceString;
use cxx_juce::{diagnostic_from_result, result_from_diagnostic, JuceError};

fn strings(items: &[&str]) -> StringArray {
    let mut array = StringArray::new();
    for item in items {
        array.add(JuceString::from(*item));
    }
    array
}

#[derive(Default)]
struct MockAudioDeviceType {
    input_devices: Vec<&'static str>,
    output_devices: Vec<&'static str>,
}

impl AudioDeviceType for MockAudioDeviceType {
    fn name(&self) -> String {
        "Test".to_string()
    }

    fn scan_for_devices(mut self) -> Self {
        self.input_devices = vec!["Microphone", "Headset"];
        self.output_devices = vec!["Speakers", "Headphones"];
        self
    }

    fn input_devices(&self) -> StringArray {
        strings(&self.input_devices)
    }

    fn output_devices(&self) -> StringArray {
        strings(&self.output_devices)
    }

    fn default_device_index(&self, _for_input: bool) -> i32 {
        0
    }

    fn has_separate_inputs_and_outputs(&self) -> bool {
        true
    }
}

#[test]
fn can_query_a_registered_device_type() {
    let mut device_type = Capability::new(MockAudioDeviceType::default());
    assert_eq!(device::name(&mut device_type), Err(BridgeError::NotRegistered));
    assert_eq!(device_type.register(), Ok(()));

    assert_eq!(device::name(&mut device_type), Ok("Test".to_string()));
    assert_eq!(device::scan_for_devices(&mut device_type), Ok(()));

    let inputs = device::get_device_names(&mut device_type, true).unwrap();
    assert_eq!(inputs.as_slice(), ["Microphone", "Headset"].map(JuceString::new));
    let outputs = device::get_device_names(&mut device_type, false).unwrap();
    assert_eq!(outputs.as_slice(), ["Speakers", "Headphones"].map(JuceString::new));
    assert_eq!(device::default_device_index(&mut device_type, true), Ok(0));
    assert_eq!(device::has_separate_inputs_and_outputs(&mut device_type), Ok(true));
    assert!(!device_type.is_in_call());
}

#[test]
fn drop_entry_point_runs_once_after_deregistration() {
    let mut capability = Capability::new(MockAudioDeviceType::default());
    assert_eq!(capability.register(), Ok(()));
    assert_eq!(capability.register(), Err(BridgeError::AlreadyRegistered));
    assert_eq!(capability.deregister(), Ok(()));
    assert_eq!(capability.deregister(), Err(BridgeError::NotRegistered));
    assert!(capability.release().is_ok());
    assert_eq!(capability.drop_count(), 1);
    assert_eq!(capability.current_phase(), Phase::Dropped);
    assert!(matches!(capability.release(), Err(BridgeError::Dropped)));
    assert_eq!(capability.drop_count(), 1);
    assert_eq!(capability.begin_call(), Err(BridgeError::Dropped));
    assert_eq!(capability.register(), Err(BridgeError::Dropped));
    assert!(capability.get().is_none());
}

#[test]
fn reentering_a_running_capability_is_refused() {
    let mut capability = Capability::new(5_u32);
    capability.register().unwrap();
    assert_eq!(capability.call_check(), None);
    assert_eq!(capability.begin_call(), Ok(()));
    *capability.get_mut() += 1;
    assert_eq!(capability.call_check(), Some(BridgeError::Reentrant));
    assert_eq!(capability.with_instance(|n| (n, ())), Err(BridgeError::Reentrant));
    assert_eq!(capability.begin_call(), Err(BridgeError::Reentrant));
    assert_eq!(capability.deregister(), Err(BridgeError::Reentrant));
    assert!(matches!(capability.release(), Err(BridgeError::Reentrant)));
    assert_eq!(device::scan_for_devices(&mut Capability::new(MockAudioDeviceType::default())), Err(BridgeError::NotRegistered));
    capability.end_call();
    assert_eq!(capability.get(), Some(&6));
    assert_eq!(capability.begin_call(), Ok(()));
    capability.end_call();
    assert!(matches!(capability.release(), Ok(6)));
}

#[test]
fn callbacks_are_released_once_when_removed() {
    let mut runtime = Runtime::new();
    let juce = JUCE::initialise(&mut runtime, 1);
    let mut manager = AudioDeviceManager::new(&juce);
    let first = manager.add_audio_callback("first");
    let second = manager.add_audio_callback("second");
    assert_ne!(first, second);
    assert!(manager.is_registered(&first));
    assert!(manager.is_registered(&second));
    manager.remove_audio_callback(first);
    assert!(!manager.is_registered(&first));
    assert!(manager.is_registered(&second));
    manager.remove_audio_callback(first);
    assert!(!manager.is_registered(&first));
    assert!(manager.is_registered(&second));
}

#[test]
fn buffer_views_report_their_geometry() {
    let mut buffer = AudioSampleBuffer::new(2, 4, 0.0_f32);
    buffer.set_sample(1, 2, 0.5);
    {
        let input = InputAudioSampleBuffer::new(&buffer);
        assert_eq!(input.channels(), 2);
        assert_eq!(input.samples(), 4);
        assert_eq!(input.index(1), &[0.0, 0.0, 0.5, 0.0]);
    }
    assert_eq!(buffer.get_read_slice(5), &[] as &[f32]);
    assert_eq!(buffer.get_read_slice(-1), &[] as &[f32]);
    {
        let mut output = OutputAudioSampleBuffer::new(&mut buffer);
        assert_eq!(output.channels(), 2);
        assert_eq!(output.samples(), 4);
        output.set(0, 0, 1.0);
        assert_eq!(output.index(0), &[1.0, 0.0, 0.0, 0.0]);
        output.clear();
        assert_eq!(output.index(0), &[0.0; 4]);
        assert_eq!(output.index(1), &[0.0; 4]);
    }
    assert_eq!(buffer.get_num_channels(), 2);
    assert_eq!(buffer.get_num_samples(), 4);
}

#[test]
fn can_configure_channel_count() {
    let input = ChannelSelection::new().with_channels(ChannelCount::Custom(4));
    let output = ChannelSelection::new().with_channels(ChannelCount::Default);

    assert_eq!(input.channels(), ChannelCount::Custom(4));
    assert_eq!(output.channels(), ChannelCount::Default);
    assert_eq!(
        ChannelSelection::new().with_channels(ChannelCount::Custom(-3)).channels(),
        ChannelCount::Custom(0)
    );
}

#[test]
fn foreign_diagnostics_map_to_results() {
    assert!(result_from_diagnostic(JuceString::default()).is_ok());
    let err = result_from_diagnostic(JuceString::new("no device")).unwrap_err();
    assert_eq!(err.message().as_str(), "no device");
    assert_eq!(diagnostic_from_result(Ok(())), JuceString::default());
    assert_eq!(
        diagnostic_from_result(Err(JuceError(JuceString::new("failed")))),
        JuceString::new("failed")
    );
}

struct Gain {
    starts: u32,
    stops: u32,
}

impl AudioIODeviceCallback<f32> for Gain {
    fn about_to_start(mut self) -> Self {
        self.starts += 1;
        self
    }

    fn process_block(
        self,
        input: &AudioSampleBuffer<f32>,
        mut output: AudioSampleBuffer<f32>,
    ) -> (Self, AudioSampleBuffer<f32>) {
        {
            let input = InputAudioSampleBuffer::new(input);
            let mut view = OutputAudioSampleBuffer::new(&mut output);
            for c in 0..view.channels() {
                for i in 0..view.samples() {
                    let s = input.index(c)[i] * 2.0;
                    view.set(c, i, s);
                }
            }
        }
        (self, output)
    }

    fn stopped(mut self) -> Self {
        self.stops += 1;
        self
    }
}

#[test]
fn audio_callbacks_run_through_their_entry_points() {
    let mut callback = Capability::new(Gain { starts: 0, stops: 0 });
    let mut input = AudioSampleBuffer::new(1, 2, 0.0_f32);
    input.set_sample(0, 1, 0.25);
    let mut output = AudioSampleBuffer::new(1, 2, 0.0_f32);
    assert_eq!(process_block(&mut callback, &input, &mut output), Err(BridgeError::NotRegistered));
    callback.register().unwrap();
    assert_eq!(about_to_start(&mut callback), Ok(()));
    assert_eq!(process_block(&mut callback, &input, &mut output), Ok(()));
    assert_eq!(output.get_read_slice(0), &[0.0, 0.5]);
    assert_eq!(stopped(&mut callback), Ok(()));
    let gain = callback.get().unwrap();
    assert_eq!((gain.starts, gain.stops), (1, 1));
}

#[test]
fn with_instance_runs_once_per_entry() {
    let mut counter = Capability::new(0_u32);
    assert_eq!(counter.with_instance(|n| (n, n + 1)), Err(BridgeError::NotRegistered));
    counter.register().unwrap();
    assert_eq!(counter.with_instance(|n| (n + 1, n + 1)), Ok(1));
    assert_eq!(*counter.value_ref(), 1);
    assert!(!counter.is_in_call());
    assert_eq!(counter.get(), Some(&1));
}

struct MockAudioDevice {
    name: String,
    driver: String,
    sample_rate: f64,
    buffer_size: i32,
    open: bool,
}

impl AudioDevice<f64> for MockAudioDevice {
    fn name(&self) -> &str {
        &self.name
    }

    fn device_type_name(&self) -> &str {
        &self.driver
    }

    fn sample_rate(&self) -> f64 {
        self.sample_rate
    }

    fn buffer_size(&self) -> i32 {
        self.buffer_size
    }

    fn available_sample_rates(&self) -> JuceArray<f64> {
        JuceArray::from_slice(&[44100.0, 48000.0])
    }

    fn available_buffer_sizes(&self) -> IntArray {
        IntArray::from_slice(&[128, 256, 512])
    }

    fn open(mut self, sample_rate: f64, buffer_size: i32) -> (Self, Result<(), JuceError>) {
        if buffer_size <= 0 {
            return (self, Err(JuceError(JuceString::new("bad buffer size"))));
        }
        self.sample_rate = sample_rate;
        self.buffer_size = buffer_size;
        self.open = true;
        (self, Ok(()))
    }

    fn close(mut self) -> Self {
        self.open = false;
        self
    }

    fn input_channels(&self) -> i32 {
        2
    }

    fn output_channels(&self) -> i32 {
        2
    }
}

fn mock_device() -> MockAudioDevice {
    MockAudioDevice {
        name: "Microphone / Speakers".to_string(),
        driver: "Test".to_string(),
        sample_rate: 44100.0,
        buffer_size: 128,
        open: false,
    }
}

#[test]
fn opened_device_reports_what_was_set() {
    let mut device = Capability::new(mock_device());
    device.register().unwrap();
    assert_eq!(device::device_open(&mut device, 48000.0, 512), Ok(JuceString::default()));
    assert_eq!(device::device_sample_rate(&mut device), Ok(48000.0));
    assert_eq!(device::device_buffer_size(&mut device), Ok(512));
    assert!(device.get().unwrap().open);
    assert_eq!(device::device_close(&mut device), Ok(()));
    assert!(!device.get().unwrap().open);
}

#[test]
fn failed_open_reports_its_diagnostic() {
    let mut device = Capability::new(mock_device());
    device.register().unwrap();
    assert_eq!(device::device_open(&mut device, 48000.0, 0), Ok(JuceString::new("bad buffer size")));
    assert_eq!(device::device_buffer_size(&mut device), Ok(128));
}

#[test]
fn device_names_and_offers_reach_the_host() {
    let mut device = Capability::new(mock_device());
    device.register().unwrap();
    assert_eq!(device::device_name(&mut device).unwrap().as_str(), "Microphone / Speakers");
    assert_eq!(device::device_type_name(&mut device).unwrap().as_str(), "Test");
    assert_eq!(device::device_available_sample_rates(&mut device).unwrap().to_vec(), vec![44100.0, 48000.0]);
    assert_eq!(device::device_available_buffer_sizes(&mut device).unwrap().to_vec(), vec![128, 256, 512]);
}
