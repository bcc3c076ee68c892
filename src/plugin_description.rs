//! Descriptions of plugins, a structurally mirrored type: the host reads and
//! writes its fields directly, at the offsets the foreign type declares.

use crate::array::JuceArray;
use crate::string::JuceString;
use crate::time::Time;
use vstd::prelude::*;

verus! {

/// Description of a plugin.
#[derive(Debug)]
pub struct PluginDescription {
    /// The name of the plugin.
    pub name: JuceString,
    /// A longer, more descriptive name.
    pub descriptive_name: JuceString,
    /// The name of the plugin's format.
    pub plugin_format_name: JuceString,
    /// The category of the plugin.
    pub category: JuceString,
    /// The plugin's manufacturer.
    pub manufacturer_name: JuceString,
    /// The version of the plugin.
    pub version: JuceString,
    /// The file or identifier that the plugin is loaded from.
    pub file_or_identifier: JuceString,
    /// When the plugin's file was last modified.
    pub last_file_mod_time: Time,
    /// When this description was last updated.
    pub last_info_update_time: Time,
    /// An identifier kept for old hosts.
    deprecated_uid: i32,
    /// The plugin's unique identifier.
    pub unique_id: i32,
    /// Whether the plugin is an instrument.
    pub is_instrument: bool,
    /// The number of input channels.
    pub num_input_channels: i32,
    /// The number of output channels.
    pub num_output_channels: i32,
    /// Whether the plugin shares its container with others.
    pub has_shared_container: bool,
    /// Whether the plugin has an ARA extension.
    pub has_ara_extension: bool,
}

/// The text fields of a description, in declaration order.
pub closed spec fn text_fields(d: &PluginDescription) -> Seq<Seq<char>> {
    seq![d.name@, d.descriptive_name@, d.plugin_format_name@, d.category@, d.manufacturer_name@, d.version@, d.file_or_identifier@]
}

/// The other fields of a description, in declaration order.
pub closed spec fn value_fields(d: &PluginDescription) -> (Time, Time, i32, i32, bool, i32, i32, bool, bool) {
    (d.last_file_mod_time, d.last_info_update_time, d.deprecated_uid, d.unique_id, d.is_instrument, d.num_input_channels, d.num_output_channels, d.has_shared_container, d.has_ara_extension)
}

impl PluginDescription {
    /// A description with empty text, times at the epoch, zero counts and
    /// identifiers, and every flag clear.
    pub fn new() -> (r: Self)
        ensures
            text_fields(&r) == Seq::new(7, |i: int| Seq::<char>::empty()),
            value_fields(&r) == (Time::spec_new(0), Time::spec_new(0), 0i32, 0i32, false, 0i32, 0i32, false, false),
    {
        let r = PluginDescription {
            name: JuceString::default(),
            descriptive_name: JuceString::default(),
            plugin_format_name: JuceString::default(),
            category: JuceString::default(),
            manufacturer_name: JuceString::default(),
            version: JuceString::default(),
            file_or_identifier: JuceString::default(),
            last_file_mod_time: Time::new(0),
            last_info_update_time: Time::new(0),
            deprecated_uid: 0,
            unique_id: 0,
            is_instrument: false,
            num_input_channels: 0,
            num_output_channels: 0,
            has_shared_container: false,
            has_ara_extension: false,
        };
        assert(text_fields(&r) =~= Seq::new(7, |i: int| Seq::<char>::empty()));
        r
    }

    /// Sets: the name of the plugin.
    pub fn with_name(self, value: &str) -> (r: Self)
        ensures
            text_fields(&r) == text_fields(&self).update(0, value@),
            value_fields(&r) == value_fields(&self),
    {
        let mut d = self;
        d.name = JuceString::new(value);
        assert(text_fields(&d) =~= text_fields(&self).update(0, value@));
        d
    }

    /// Sets: a longer, more descriptive name.
    pub fn with_descriptive_name(self, value: &str) -> (r: Self)
        ensures
            text_fields(&r) == text_fields(&self).update(1, value@),
            value_fields(&r) == value_fields(&self),
    {
        let mut d = self;
        d.descriptive_name = JuceString::new(value);
        assert(text_fields(&d) =~= text_fields(&self).update(1, value@));
        d
    }

    /// Sets: the name of the plugin's format.
    pub fn with_plugin_format_name(self, value: &str) -> (r: Self)
        ensures
            text_fields(&r) == text_fields(&self).update(2, value@),
            value_fields(&r) == value_fields(&self),
    {
        let mut d = self;
        d.plugin_format_name = JuceString::new(value);
        assert(text_fields(&d) =~= text_fields(&self).update(2, value@));
        d
    }

    /// Sets: the category of the plugin.
    pub fn with_category(self, value: &str) -> (r: Self)
        ensures
            text_fields(&r) == text_fields(&self).update(3, value@),
            value_fields(&r) == value_fields(&self),
    {
        let mut d = self;
        d.category = JuceString::new(value);
        assert(text_fields(&d) =~= text_fields(&self).update(3, value@));
        d
    }

    /// Sets: the plugin's manufacturer.
    pub fn with_manufacturer_name(self, value: &str) -> (r: Self)
        ensures
            text_fields(&r) == text_fields(&self).update(4, value@),
            value_fields(&r) == value_fields(&self),
    {
        let mut d = self;
        d.manufacturer_name = JuceString::new(value);
        assert(text_fields(&d) =~= text_fields(&self).update(4, value@));
        d
    }

    /// Sets: the version of the plugin.
    pub fn with_version(self, value: &str) -> (r: Self)
        ensures
            text_fields(&r) == text_fields(&self).update(5, value@),
            value_fields(&r) == value_fields(&self),
    {
        let mut d = self;
        d.version = JuceString::new(value);
        assert(text_fields(&d) =~= text_fields(&self).update(5, value@));
        d
    }

    /// Sets: the file or identifier that the plugin is loaded from.
    pub fn with_file_or_identifier(self, value: &str) -> (r: Self)
        ensures
            text_fields(&r) == text_fields(&self).update(6, value@),
            value_fields(&r) == value_fields(&self),
    {
        let mut d = self;
        d.file_or_identifier = JuceString::new(value);
        assert(text_fields(&d) =~= text_fields(&self).update(6, value@));
        d
    }

    /// Sets: when the plugin's file was last modified.
    pub fn with_last_file_mod_time(self, value: Time) -> (r: Self)
        ensures
            text_fields(&r) == text_fields(&self),
            value_fields(&r) == (value, value_fields(&self).1, value_fields(&self).2, value_fields(&self).3, value_fields(&self).4, value_fields(&self).5, value_fields(&self).6, value_fields(&self).7, value_fields(&self).8),
    {
        let mut d = self;
        d.last_file_mod_time = value;
        d
    }

    /// Sets: when this description was last updated.
    pub fn with_last_info_update_time(self, value: Time) -> (r: Self)
        ensures
            text_fields(&r) == text_fields(&self),
            value_fields(&r) == (value_fields(&self).0, value, value_fields(&self).2, value_fields(&self).3, value_fields(&self).4, value_fields(&self).5, value_fields(&self).6, value_fields(&self).7, value_fields(&self).8),
    {
        let mut d = self;
        d.last_info_update_time = value;
        d
    }

    /// Sets: the plugin's unique identifier.
    pub fn with_unique_id(self, value: i32) -> (r: Self)
        ensures
            text_fields(&r) == text_fields(&self),
            value_fields(&r) == (value_fields(&self).0, value_fields(&self).1, value_fields(&self).2, value, value_fields(&self).4, value_fields(&self).5, value_fields(&self).6, value_fields(&self).7, value_fields(&self).8),
    {
        let mut d = self;
        d.unique_id = value;
        d
    }

    /// Sets: whether the plugin is an instrument.
    pub fn with_is_instrument(self, value: bool) -> (r: Self)
        ensures
            text_fields(&r) == text_fields(&self),
            value_fields(&r) == (value_fields(&self).0, value_fields(&self).1, value_fields(&self).2, value_fields(&self).3, value, value_fields(&self).5, value_fields(&self).6, value_fields(&self).7, value_fields(&self).8),
    {
        let mut d = self;
        d.is_instrument = value;
        d
    }

    /// Sets: the number of input channels.
    pub fn with_num_input_channels(self, value: i32) -> (r: Self)
        ensures
            text_fields(&r) == text_fields(&self),
            value_fields(&r) == (value_fields(&self).0, value_fields(&self).1, value_fields(&self).2, value_fields(&self).3, value_fields(&self).4, value, value_fields(&self).6, value_fields(&self).7, value_fields(&self).8),
    {
        let mut d = self;
        d.num_input_channels = value;
        d
    }

    /// Sets: the number of output channels.
    pub fn with_num_output_channels(self, value: i32) -> (r: Self)
        ensures
            text_fields(&r) == text_fields(&self),
            value_fields(&r) == (value_fields(&self).0, value_fields(&self).1, value_fields(&self).2, value_fields(&self).3, value_fields(&self).4, value_fields(&self).5, value, value_fields(&self).7, value_fields(&self).8),
    {
        let mut d = self;
        d.num_output_channels = value;
        d
    }

    /// Sets: whether the plugin shares its container with others.
    pub fn with_has_shared_container(self, value: bool) -> (r: Self)
        ensures
            text_fields(&r) == text_fields(&self),
            value_fields(&r) == (value_fields(&self).0, value_fields(&self).1, value_fields(&self).2, value_fields(&self).3, value_fields(&self).4, value_fields(&self).5, value_fields(&self).6, value, value_fields(&self).8),
    {
        let mut d = self;
        d.has_shared_container = value;
        d
    }

    /// Sets: whether the plugin has an ARA extension.
    pub fn with_has_ara_extension(self, value: bool) -> (r: Self)
        ensures
            text_fields(&r) == text_fields(&self),
            value_fields(&r) == (value_fields(&self).0, value_fields(&self).1, value_fields(&self).2, value_fields(&self).3, value_fields(&self).4, value_fields(&self).5, value_fields(&self).6, value_fields(&self).7, value),
    {
        let mut d = self;
        d.has_ara_extension = value;
        d
    }

    /// When the plugin's file was last modified.
    pub fn last_file_mod_time(&self) -> (r: Time)
        ensures
            r == value_fields(self).0,
    {
        self.last_file_mod_time
    }
}

impl Clone for PluginDescription {
    fn clone(&self) -> (r: Self)
        ensures
            text_fields(&r) == text_fields(self),
            value_fields(&r) == value_fields(self),
    {
        let r = PluginDescription {
            name: self.name.clone(),
            descriptive_name: self.descriptive_name.clone(),
            plugin_format_name: self.plugin_format_name.clone(),
            category: self.category.clone(),
            manufacturer_name: self.manufacturer_name.clone(),
            version: self.version.clone(),
            file_or_identifier: self.file_or_identifier.clone(),
            last_file_mod_time: self.last_file_mod_time,
            last_info_update_time: self.last_info_update_time,
            deprecated_uid: self.deprecated_uid,
            unique_id: self.unique_id,
            is_instrument: self.is_instrument,
            num_input_channels: self.num_input_channels,
            num_output_channels: self.num_output_channels,
            has_shared_container: self.has_shared_container,
            has_ara_extension: self.has_ara_extension,
        };
        assert(text_fields(&r) =~= text_fields(self));
        r
    }
}

/// An owned list of plugin descriptions.
pub type OwnedArrayPluginDescription = JuceArray<PluginDescription>;

/// Information about a MIDI device.
#[derive(Debug)]
pub struct MidiDeviceInfo {
    /// The name of the device.
    pub name: JuceString,
    /// The identifier of the device.
    pub identifier: JuceString,
}

impl MidiDeviceInfo {
    /// A device with an empty name and identifier.
    pub fn new() -> (r: Self)
        ensures
            r.name@ == Seq::<char>::empty(),
            r.identifier@ == Seq::<char>::empty(),
    {
        MidiDeviceInfo { name: JuceString::default(), identifier: JuceString::default() }
    }
}

impl Clone for MidiDeviceInfo {
    fn clone(&self) -> (r: Self)
        ensures
            r.name@ == self.name@,
            r.identifier@ == self.identifier@,
    {
        MidiDeviceInfo { name: self.name.clone(), identifier: self.identifier.clone() }
    }
}

} // verus!
