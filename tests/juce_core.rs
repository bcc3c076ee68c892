use cxx_juce::array::{IntArray, JuceArray, StringArray};
use cxx_juce::file::{File, FileSearchPath};
use cxx_juce::string::JuceString;
use cxx_juce::time::Time;

fn strings(items: &[&str]) -> StringArray {
    let mut array = StringArray::new();
    for item in items {
        array.add(JuceString::from(*item));
    }
    array
}

#[test]
fn string_array_iter() {
    let mut array = StringArray::new();
    array.add("Hello".into());
    array.add("World".into());
    array.add("!".into());

    assert_eq!(array.len(), 3);

    let mut iter = array.into_iter();
    assert_eq!(iter.next(), Some(JuceString::new("Hello")));
    assert_eq!(iter.next(), Some(JuceString::new("World")));
    assert_eq!(iter.next(), Some(JuceString::new("!")));
    assert_eq!(iter.next(), None);
}

#[test]
fn array_from_slice() {
    let array = [1, 2, 3];
    let array = IntArray::from_slice(array.as_slice());

    assert_eq!(array.len(), 3);
    assert_eq!(array.as_slice(), &[1, 2, 3]);
}

#[test]
fn string_array_as_slice() {
    let array = strings(&["Hello", "World", "!"]);

    assert_eq!(array.as_slice(), ["Hello", "World", "!"].map(JuceString::new));
}

#[test]
fn get_at_index() {
    let array = IntArray::from_slice(&[1, 2, 3]);

    assert_eq!(array.get(0), Some(&1));
    assert_eq!(array.get(1), Some(&2));
    assert_eq!(array.get(2), Some(&3));
    assert_eq!(array.get(3), None);
}

#[test]
fn get_ref_at_index() {
    let array = strings(&["A", "B", "C"]);

    assert_eq!(array.get(0), Some(&JuceString::from("A")));
    assert_eq!(array.get(1), Some(&JuceString::from("B")));
    assert_eq!(array.get(2), Some(&JuceString::from("C")));
    assert_eq!(array.get(3), None);
}

#[test]
fn negative_index_is_out_of_bounds() {
    let array = IntArray::from_slice(&[7]);
    assert_eq!(array.get(-1), None);
    assert!(!array.is_empty());
    assert!(IntArray::new().is_empty());
}

#[test]
fn round_trip_of_empty_buffer() {
    let empty: [i32; 0] = [];
    let array = IntArray::from_slice(&empty);
    assert_eq!(array.len(), 0);
    assert_eq!(array.to_vec(), Vec::<i32>::new());
}

#[test]
fn round_trip_of_one_element() {
    let array = IntArray::from_slice(&[42]);
    assert_eq!(array.len(), 1);
    assert_eq!(array.to_vec(), vec![42]);
}

#[test]
fn round_trip_of_many_elements() {
    let input: Vec<i32> = (0..1000).map(|i| i * 3 - 500).collect();
    let array = IntArray::from_slice(&input);
    assert_eq!(array.len(), 1000);
    assert_eq!(array.to_vec(), input);
}

#[test]
fn round_trip_of_floating_point_samples() {
    let input = [0.25_f64, -1.5, 48000.0];
    let array = JuceArray::from_slice(&input);
    assert_eq!(array.to_vec(), input.to_vec());
}

#[test]
fn array_from_vec_keeps_order() {
    let array = JuceArray::from_vec(vec![3_u8, 1, 2]);
    assert_eq!(array.as_slice(), &[3, 1, 2]);
}

#[test]
fn construct_a_juce_string() {
    let string = JuceString::new("Hello JUCE 🧃");
    assert_eq!(string.as_str(), "Hello JUCE 🧃");
}

#[test]
fn string_reads_back_hello() {
    let string = JuceString::new("Hello");
    assert_eq!(string.as_str(), "Hello");
    assert_eq!(string.into_string(), "Hello".to_string());
}

#[test]
fn compare_strings() {
    assert_eq!(JuceString::default(), JuceString::default());
    assert_eq!(JuceString::new("Hello"), JuceString::new("Hello"));

    assert_ne!(JuceString::new("World"), JuceString::new("Hello"));
}

#[test]
fn empty_and_cloned_strings() {
    assert!(JuceString::default().is_empty());
    let s = JuceString::new("x");
    assert!(!s.is_empty());
    assert_eq!(s.clone(), s);
}

#[test]
fn create_file_search_path() {
    let mut search_path = FileSearchPath::new();
    search_path.add(&File::from_absolute_path("/foo/bar"));
    search_path.add(&File::from_absolute_path("/bar/foo"));

    assert_eq!(search_path.len(), 2);

    assert_eq!(search_path.get(0), Some(File::from_absolute_path("/foo/bar")));
    assert_eq!(search_path.get(1), Some(File::from_absolute_path("/bar/foo")));
    assert_eq!(search_path.get(2), None);
}

#[test]
fn search_path_skips_a_directory_it_has() {
    let mut search_path = FileSearchPath::new();
    assert!(search_path.add(&File::from_absolute_path("/a")));
    assert!(!search_path.add(&File::from_absolute_path("/a")));
    assert!(search_path.contains(&File::from_absolute_path("/a")));
    assert_eq!(search_path.len(), 1);
    assert_eq!(search_path.get(-1), None);

    let mut iter = search_path.into_iter();
    assert_eq!(iter.next().map(|f| f.get_full_path_name().as_str().to_string()), Some("/a".to_string()));
    assert_eq!(iter.next(), None);
}

#[test]
fn time_milliseconds_and_epoch_offsets() {
    assert_eq!(Time::new(100).to_milliseconds(), 100);
    assert_eq!(Time::from_epoch_offset(false, 100).to_milliseconds(), 100);
    assert_eq!(Time::from_epoch_offset(true, 100).to_milliseconds(), -100);
    assert_eq!(Time::from_epoch_offset(true, 100).epoch_offset(), (true, 100));
    assert_eq!(Time::new(0).epoch_offset(), (false, 0));
    assert_eq!(Time::new(i64::MIN).epoch_offset(), (true, 1_u64 << 63));
}
