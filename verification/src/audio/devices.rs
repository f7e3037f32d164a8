//! Audio input devices and the deterministic device selector.

use vstd::prelude::*;

use crate::text::contains_seq;
use crate::text::str_contains;

verus! {

/// Ghost model of one input device: its index and human name as character
/// sequences.
pub ghost struct DeviceModel {
    pub index: Seq<char>,
    pub name: Seq<char>,
}

/// Represents an available audio input device.
///
/// Contains the device index and human-readable name for audio input
/// selection.
#[derive(Debug, Clone)]
pub struct AudioInputDevice {
    index: String,
    name: String,
}

impl View for AudioInputDevice {
    type V = DeviceModel;

    closed spec fn view(&self) -> DeviceModel {
        DeviceModel { index: self.index@, name: self.name@ }
    }
}

impl AudioInputDevice {
    /// Creates a new device handle from its index and name.
    pub fn new(index: String, name: String) -> (d: Self)
        ensures
            d@ == (DeviceModel { index: index@, name: name@ }),
    {
        AudioInputDevice { index, name }
    }

    /// The index identifier used by the audio system.
    pub fn get_index(&self) -> (r: &String)
        ensures
            r@ == self@.index,
    {
        &self.index
    }

    /// The human-readable name of the device.
    pub fn get_name(&self) -> (r: &String)
        ensures
            r@ == self@.name,
    {
        &self.name
    }
}

/// The sentinel device used when nothing from the catalog is chosen: both
/// index and name read "default".  The catalog query never produces it; only
/// the selector synthesizes it.
pub open spec fn default_model() -> DeviceModel {
    DeviceModel { index: "default"@, name: "default"@ }
}

impl Default for AudioInputDevice {
    /// The sentinel "default" device.
    fn default() -> (d: Self)
        ensures
            d@ == default_model(),
    {
        AudioInputDevice::new(String::from_str("default"), String::from_str("default"))
    }
}

/// Type alias for a collection of audio input devices.
pub type AudioInputDevices = Vec<AudioInputDevice>;

/// The ghost models of a sequence of devices.
pub open spec fn models(devices: Seq<AudioInputDevice>) -> Seq<DeviceModel> {
    devices.map_values(|d: AudioInputDevice| d@)
}

/// The first device of the catalog whose name contains `preferred`, in
/// catalog order.
pub open spec fn spec_first_match(devices: Seq<DeviceModel>, preferred: Seq<char>) -> Option<
    DeviceModel,
>
    decreases devices.len(),
{
    if devices.len() == 0 {
        None
    } else if contains_seq(devices.first().name, preferred) {
        Some(devices.first())
    } else {
        spec_first_match(devices.drop_first(), preferred)
    }
}

/// The selection policy: an empty preference always yields the sentinel;
/// otherwise the first catalog entry whose name contains the preference, or
/// the sentinel when none does.
pub open spec fn spec_select(devices: Seq<DeviceModel>, preferred: Seq<char>) -> DeviceModel {
    if preferred.len() == 0 {
        default_model()
    } else {
        match spec_first_match(devices, preferred) {
            Some(d) => d,
            None => default_model(),
        }
    }
}

/// When no device name contains `preferred`, nothing is ever matched.
pub proof fn lemma_no_match_is_none(devices: Seq<DeviceModel>, preferred: Seq<char>)
    requires
        forall|k: int| 0 <= k < devices.len() ==> !contains_seq(#[trigger] devices[k].name, preferred),
    ensures
        spec_first_match(devices, preferred) is None,
    decreases devices.len(),
{
    if devices.len() > 0 {
        lemma_no_match_is_none(devices.drop_first(), preferred);
    }
}

/// When device `i` is the first whose name contains `preferred`, it is the
/// match.
pub proof fn lemma_first_match_at(devices: Seq<DeviceModel>, preferred: Seq<char>, i: int)
    requires
        0 <= i < devices.len(),
        contains_seq(devices[i].name, preferred),
        forall|k: int| 0 <= k < i ==> !contains_seq(#[trigger] devices[k].name, preferred),
    ensures
        spec_first_match(devices, preferred) == Some(devices[i]),
    decreases devices.len(),
{
    if i > 0 {
        lemma_first_match_at(devices.drop_first(), preferred, i - 1);
    }
}

/// Law: a preference that no device name contains selects the sentinel.
pub proof fn lemma_select_no_match(devices: Seq<DeviceModel>, preferred: Seq<char>)
    requires
        forall|k: int| 0 <= k < devices.len() ==> !contains_seq(#[trigger] devices[k].name, preferred),
    ensures
        spec_select(devices, preferred) == default_model(),
{
    lemma_no_match_is_none(devices, preferred);
}

/// Law: with a non-empty preference, the first device whose name contains it
/// is selected, even when later devices match too.
pub proof fn lemma_select_first_match(devices: Seq<DeviceModel>, preferred: Seq<char>, i: int)
    requires
        preferred.len() > 0,
        0 <= i < devices.len(),
        contains_seq(devices[i].name, preferred),
        forall|k: int| 0 <= k < i ==> !contains_seq(#[trigger] devices[k].name, preferred),
    ensures
        spec_select(devices, preferred) == devices[i],
{
    lemma_first_match_at(devices, preferred, i);
}

/// Law: an empty preference selects the sentinel, whatever the catalog holds.
pub proof fn lemma_select_empty_preference(devices: Seq<DeviceModel>)
    ensures
        spec_select(devices, Seq::<char>::empty()) == default_model(),
{
}

/// Scans the catalog in order and returns the first device whose name
/// contains `preferred`; the sentinel when the preference is empty or nothing
/// matches.
pub fn select_device(devices: &AudioInputDevices, preferred: &str) -> (d: AudioInputDevice)
    ensures
        d@ == spec_select(models(devices@), preferred@),
{
    if preferred.unicode_len() == 0 {
        return AudioInputDevice::default();
    }
    let n = devices.len();
    let mut i: usize = 0;
    while i < n
        invariant
            n == devices@.len(),
            i <= n,
            preferred@.len() > 0,
            forall|k: int|
                0 <= k < i ==> !contains_seq(#[trigger] models(devices@)[k].name, preferred@),
        decreases n - i,
    {
        if str_contains(devices[i].get_name().as_str(), preferred) {
            proof {
                lemma_first_match_at(models(devices@), preferred@, i as int);
            }
            return AudioInputDevice::new(devices[i].get_index().clone(), devices[i].get_name().clone());
        }
        i += 1;
    }
    proof {
        lemma_no_match_is_none(models(devices@), preferred@);
    }
    AudioInputDevice::default()
}

} // verus!
