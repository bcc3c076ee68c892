use cxx_juce::layout::{check_fields, mirror_matches, FieldLayout, Layout, Mirror, MirroredType};

#[test]
fn every_mirror_has_its_declared_size_and_alignment() {
    assert!(mirror_matches::<Mirror<8, 1>>(&MirroredType::JuceString.declared_layout()));
    assert!(mirror_matches::<Mirror<8, 1>>(&MirroredType::CharPointerUtf8.declared_layout()));
    assert!(mirror_matches::<Mirror<8, 2>>(&MirroredType::Array.declared_layout()));
    assert!(mirror_matches::<Mirror<8, 2>>(&MirroredType::StringArray.declared_layout()));
    assert!(mirror_matches::<Mirror<8, 5>>(&MirroredType::BigInteger.declared_layout()));
    assert!(mirror_matches::<Mirror<8, 1>>(&MirroredType::File.declared_layout()));
    assert!(mirror_matches::<Mirror<8, 2>>(&MirroredType::FileSearchPath.declared_layout()));
    assert!(mirror_matches::<Mirror<8, 1>>(&MirroredType::Time.declared_layout()));
    assert!(mirror_matches::<Mirror<8, 2>>(&MirroredType::MidiBuffer.declared_layout()));
    assert!(mirror_matches::<Mirror<8, 3>>(&MirroredType::MidiMessage.declared_layout()));
    assert!(mirror_matches::<Mirror<8, 3>>(&MirroredType::MidiFile.declared_layout()));
    assert!(mirror_matches::<Mirror<4, 5>>(&MirroredType::IirCoefficients.declared_layout()));
    assert!(mirror_matches::<Mirror<4, 9>>(&MirroredType::SingleThreadedIirFilter.declared_layout()));
    assert!(mirror_matches::<Mirror<8, 16>>(&MirroredType::AudioDeviceSetup.declared_layout()));
    assert!(mirror_matches::<Mirror<8, 2>>(&MirroredType::MidiDeviceInfo.declared_layout()));
    assert!(mirror_matches::<Mirror<8, 12>>(&MirroredType::PluginDescription.declared_layout()));
    assert!(mirror_matches::<Mirror<8, 2>>(&MirroredType::AudioPluginFormatManager.declared_layout()));
    assert!(mirror_matches::<Mirror<1, 1>>(&MirroredType::LeakedObjectDetector.declared_layout()));
}

#[test]
fn a_mismatched_mirror_is_caught() {
    assert!(!mirror_matches::<Mirror<4, 2>>(&Layout { size: 8, align: 8 }));
    assert!(!mirror_matches::<Mirror<8, 2>>(&Layout { size: 8, align: 8 }));
}

#[test]
fn declared_layouts_fill_whole_words() {
    let layout = MirroredType::SingleThreadedIirFilter.declared_layout();
    assert!(layout.is_valid());
    assert_eq!(layout.unit_count(), 9);
    assert_eq!(MirroredType::AudioDeviceSetup.declared_layout().unit_count(), 16);
    assert!(!Layout { size: 12, align: 8 }.is_valid());
    assert!(!Layout { size: 12, align: 3 }.is_valid());
}

#[test]
fn declared_fields_fit_their_layouts() {
    for t in [MirroredType::AudioDeviceSetup, MirroredType::MidiDeviceInfo, MirroredType::PluginDescription] {
        assert!(check_fields(&t.declared_layout(), &t.declared_fields()));
    }
    assert_eq!(MirroredType::AudioDeviceSetup.declared_fields().len(), 8);
    assert!(MirroredType::Time.declared_fields().is_empty());
}

#[test]
fn overlapping_or_misaligned_fields_are_caught() {
    let layout = Layout { size: 16, align: 8 };
    let overlap = vec![
        FieldLayout { offset: 0, size: 8, align: 8 },
        FieldLayout { offset: 4, size: 4, align: 4 },
    ];
    assert!(!check_fields(&layout, &overlap));
    let misaligned = vec![FieldLayout { offset: 2, size: 4, align: 4 }];
    assert!(!check_fields(&layout, &misaligned));
    let too_far = vec![FieldLayout { offset: 12, size: 8, align: 4 }];
    assert!(!check_fields(&layout, &too_far));
}
