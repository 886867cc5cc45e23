//! Output-device registry, modelled over plain values.
//!
//! The host-audio layer enumerates the machine's devices and hands the
//! registry one `AudioDevice` per device: a summary plus the full list of
//! supported configuration ranges. Everything the pipeline decides from
//! that data — support checks, scoring, picking a device — is verified here.
use vstd::prelude::*;
use vstd::string::StrSliceExecFns;
use crate::format::{AudioFormat, SampleFormat};

verus! {

/// One supported output configuration range of a device: a channel count,
/// a sample-rate interval, and the encoding the device takes.
#[derive(Debug, Clone, Copy, PartialEq, Eq, Structural)]
pub struct SupportedConfigRange {
    pub channels: u16,
    pub min_sample_rate: u32,
    pub max_sample_rate: u32,
    pub sample_format: SampleFormat,
}

/// Summary of an output device.
#[derive(Debug, Clone)]
pub struct DeviceInfo {
    pub name: String,
    pub index: usize,
    pub is_default: bool,
    pub supported_formats: Vec<String>,
    pub max_channels: u16,
    pub max_sample_rate: u32,
}

/// A device as the registry sees it.
pub struct AudioDevice {
    pub info: DeviceInfo,
    pub configs: Vec<SupportedConfigRange>,
}

/// A configuration range carries the format when the channel counts agree
/// and the rate lies within the range. (Encodings are negotiated separately;
/// the host layer converts.)
pub open spec fn config_carries(config: SupportedConfigRange, format: AudioFormat) -> bool {
    &&& config.channels == format.channels
    &&& config.min_sample_rate <= format.sample_rate <= config.max_sample_rate
}

impl AudioDevice {
    pub fn new(info: DeviceInfo, configs: Vec<SupportedConfigRange>) -> (r: Self)
        ensures
            r.info == info,
            r.configs == configs,
    {
        Self { info, configs }
    }

    pub fn info(&self) -> (r: &DeviceInfo)
        ensures
            r == &self.info,
    {
        &self.info
    }

    /// Whether some supported configuration range carries the format.
    pub open spec fn spec_supports_format(self, format: AudioFormat) -> bool {
        exists|i: int| 0 <= i < self.configs@.len()
            && config_carries(#[trigger] self.configs@[i], format)
    }

    pub fn supports_format(&self, format: &AudioFormat) -> (r: bool)
        ensures
            r == self.spec_supports_format(*format),
    {
        let mut i: usize = 0;
        while i < self.configs.len()
            invariant
                i <= self.configs@.len(),
                forall|j: int| 0 <= j < i ==> !config_carries(#[trigger] self.configs@[j], *format),
            decreases self.configs@.len() - i,
        {
            let c = self.configs[i];
            if c.channels == format.channels
                && c.min_sample_rate <= format.sample_rate
                && format.sample_rate <= c.max_sample_rate
            {
                return true;
            }
            i = i + 1;
        }
        false
    }

    pub open spec fn spec_score(self, format: AudioFormat) -> int {
        spec_device_score(self.configs@, format)
    }

    /// Score the device against a format: the best of its ranges' scores.
    pub fn score(&self, format: &AudioFormat) -> (r: i32)
        ensures
            r == self.spec_score(*format),
    {
        let mut best: i32 = i32::MIN;
        let mut i: usize = 0;
        while i < self.configs.len()
            invariant
                i <= self.configs@.len(),
                best == spec_device_score(self.configs@.take(i as int), *format),
            decreases self.configs@.len() - i,
        {
            let sc = score_config(&self.configs[i], format);
            proof {
                assert(self.configs@.take(i as int + 1).drop_last() =~= self.configs@.take(
                    i as int,
                ));
                assert(self.configs@.take(i as int + 1).last() == self.configs@[i as int]);
            }
            if sc >= best {
                best = sc;
            }
            i = i + 1;
        }
        proof {
            assert(self.configs@.take(self.configs@.len() as int) =~= self.configs@);
        }
        best
    }
}

/// The score of a configuration range against a wanted format:
/// +100 for the exact channel count, else −10 per channel of mismatch;
/// +50 when the rate lies in the supported range;
/// +30 when the sample encoding matches exactly. Higher is better.
pub open spec fn spec_score_config(config: SupportedConfigRange, format: AudioFormat) -> int {
    let channel_part = if config.channels == format.channels {
        100
    } else {
        let d = if config.channels >= format.channels {
            config.channels - format.channels
        } else {
            format.channels - config.channels
        };
        -10 * d
    };
    let rate_part: int = if config.min_sample_rate <= format.sample_rate
        && format.sample_rate <= config.max_sample_rate {
        50
    } else {
        0
    };
    let encoding_part: int = if config.sample_format == format.sample_format {
        30
    } else {
        0
    };
    channel_part + rate_part + encoding_part
}

pub fn score_config(config: &SupportedConfigRange, format: &AudioFormat) -> (score: i32)
    ensures
        score == spec_score_config(*config, *format),
{
    let mut score: i32 = 0;
    if config.channels == format.channels {
        score = score + 100;
    } else {
        let d: u16 = if config.channels >= format.channels {
            config.channels - format.channels
        } else {
            format.channels - config.channels
        };
        score = score - 10 * (d as i32);
    }
    if config.min_sample_rate <= format.sample_rate && format.sample_rate <= config.max_sample_rate {
        score = score + 50;
    }
    if config.sample_format == format.sample_format {
        score = score + 30;
    }
    score
}

/// A device's score against a format: its best configuration range's score;
/// a device without configuration ranges scores rock bottom.
pub open spec fn spec_device_score(configs: Seq<SupportedConfigRange>, format: AudioFormat) -> int
    decreases configs.len(),
{
    if configs.len() == 0 {
        i32::MIN as int
    } else {
        let rest = spec_device_score(configs.drop_last(), format);
        let last = spec_score_config(configs.last(), format);
        if last >= rest {
            last
        } else {
            rest
        }
    }
}

/// The device score is at least every one of its ranges' scores.
proof fn lemma_device_score_dominates(configs: Seq<SupportedConfigRange>, format: AudioFormat, i: int)
    requires
        0 <= i < configs.len(),
    ensures
        spec_device_score(configs, format) >= spec_score_config(configs[i], format),
    decreases configs.len(),
{
    if i < configs.len() - 1 {
        lemma_device_score_dominates(configs.drop_last(), format, i);
    }
}

/// A device that supports a format scores above zero: the carrying range
/// alone is worth at least 150.
pub proof fn lemma_supporting_device_scores_positive(d: AudioDevice, format: AudioFormat)
    requires
        d.spec_supports_format(format),
    ensures
        d.spec_score(format) > 0,
{
    let i = choose|i: int| 0 <= i < d.configs@.len() && config_carries(#[trigger] d.configs@[i], format);
    assert(spec_score_config(d.configs@[i], format) >= 150);
    lemma_device_score_dominates(d.configs@, format, i);
}

/// The registry: the devices the host layer last enumerated, and which of
/// them is the host default.
pub struct DeviceManager {
    pub devices: Vec<AudioDevice>,
    pub default_device: Option<usize>,
}

impl DeviceManager {
    pub open spec fn wf(self) -> bool {
        self.default_device is Some ==> self.default_device->0 < self.devices@.len()
    }

    /// An empty registry; the host layer fills it with `set_devices`.
    pub fn new() -> (r: Self)
        ensures
            r.wf(),
            r.devices@.len() == 0,
            r.default_device is None,
    {
        Self { devices: Vec::new(), default_device: None }
    }

    /// Replace the enumeration: the devices found, and the position of the
    /// host default among them, if any.
    pub fn set_devices(&mut self, devices: Vec<AudioDevice>, default_device: Option<usize>)
        requires
            default_device is Some ==> default_device->0 < devices@.len(),
        ensures
            final(self).wf(),
            final(self).devices == devices,
            final(self).default_device == default_device,
    {
        self.devices = devices;
        self.default_device = default_device;
    }

    pub fn devices(&self) -> (r: &Vec<AudioDevice>)
        ensures
            r == &self.devices,
    {
        &self.devices
    }

    pub fn device_count(&self) -> (r: usize)
        ensures
            r == self.devices@.len(),
    {
        self.devices.len()
    }

    pub open spec fn spec_default_device(self) -> Option<AudioDevice> {
        if self.default_device is Some && self.default_device->0 < self.devices@.len() {
            Some(self.devices@[self.default_device->0 as int])
        } else {
            None
        }
    }

    pub fn default_device(&self) -> (r: Option<&AudioDevice>)
        requires
            self.wf(),
        ensures
            match r {
                Some(d) => self.spec_default_device() == Some(*d),
                None => self.spec_default_device() is None,
            },
    {
        match self.default_device {
            Some(idx) => Some(&self.devices[idx]),
            None => None,
        }
    }

    /// The position of the host default in the enumeration, if any.
    pub fn default_device_index(&self) -> (r: Option<usize>)
        requires
            self.wf(),
        ensures
            r is Some <==> self.spec_default_device() is Some,
            r is Some ==> r->0 < self.devices@.len() && self.spec_default_device() == Some(
                self.devices@[r->0 as int],
            ),
    {
        self.default_device
    }

    pub fn get_device(&self, index: usize) -> (r: Option<&AudioDevice>)
        ensures
            index < self.devices@.len() ==> r == Some(&self.devices@[index as int]),
            index >= self.devices@.len() ==> r is None,
    {
        if index < self.devices.len() {
            Some(&self.devices[index])
        } else {
            None
        }
    }

    /// Whether any enumerated device at a position below `n` supports the
    /// format.
    pub open spec fn spec_some_device_supports_below(self, format: AudioFormat, n: int) -> bool {
        exists|i: int| 0 <= i < n
            && (#[trigger] self.devices@[i]).spec_supports_format(format)
    }

    /// The position of the highest-scoring device that supports the
    /// format, the earliest among equal scores; nothing when no device
    /// supports it. (A supporting device always scores above zero.)
    pub fn find_best_index_for_format(&self, format: &AudioFormat) -> (r: Option<usize>)
        ensures
            match r {
                Some(i) => {
                    &&& i < self.devices@.len()
                    &&& self.devices@[i as int].spec_supports_format(*format)
                    &&& self.devices@[i as int].spec_score(*format) > 0
                    &&& forall|j: int| 0 <= j < self.devices@.len()
                        && (#[trigger] self.devices@[j]).spec_supports_format(*format)
                        ==> self.devices@[j].spec_score(*format)
                            <= self.devices@[i as int].spec_score(*format)
                    &&& forall|j: int| 0 <= j < i
                        && (#[trigger] self.devices@[j]).spec_supports_format(*format)
                        ==> self.devices@[j].spec_score(*format)
                            < self.devices@[i as int].spec_score(*format)
                },
                None => !self.spec_some_device_supports_below(*format, self.devices@.len() as int),
            },
    {
        let mut best: Option<usize> = None;
        let mut best_score: i32 = 0;
        let mut i: usize = 0;
        while i < self.devices.len()
            invariant
                i <= self.devices@.len(),
                match best {
                    Some(b) => {
                        &&& b < i
                        &&& self.devices@[b as int].spec_supports_format(*format)
                        &&& best_score == self.devices@[b as int].spec_score(*format)
                        &&& best_score > 0
                        &&& forall|j: int| 0 <= j < i
                            && (#[trigger] self.devices@[j]).spec_supports_format(*format)
                            ==> self.devices@[j].spec_score(*format) <= best_score
                        &&& forall|j: int| 0 <= j < b
                            && (#[trigger] self.devices@[j]).spec_supports_format(*format)
                            ==> self.devices@[j].spec_score(*format) < best_score
                    },
                    None => !self.spec_some_device_supports_below(*format, i as int),
                },
            decreases self.devices@.len() - i,
        {
            if self.devices[i].supports_format(format) {
                proof {
                    lemma_supporting_device_scores_positive(self.devices@[i as int], *format);
                }
                let sc = self.devices[i].score(format);
                let take_it = match best {
                    Some(_) => sc > best_score,
                    None => true,
                };
                if take_it {
                    best = Some(i);
                    best_score = sc;
                }
            }
            i = i + 1;
        }
        best
    }

    /// The highest-scoring device that supports the format, per
    /// `find_best_index_for_format`.
    pub fn find_best_device_for_format(&self, format: &AudioFormat) -> (r: Option<&AudioDevice>)
        ensures
            match r {
                Some(d) => {
                    &&& d.spec_supports_format(*format)
                    &&& exists|i: int| {
                        &&& 0 <= i < self.devices@.len()
                        &&& #[trigger] self.devices@[i] == *d
                        &&& forall|j: int| 0 <= j < self.devices@.len()
                            && (#[trigger] self.devices@[j]).spec_supports_format(*format)
                            ==> self.devices@[j].spec_score(*format)
                                <= self.devices@[i].spec_score(*format)
                    }
                },
                None => !self.spec_some_device_supports_below(*format, self.devices@.len() as int),
            },
    {
        match self.find_best_index_for_format(format) {
            Some(i) => Some(&self.devices[i]),
            None => None,
        }
    }

    /// The first device with the given name.
    pub fn get_device_by_name(&self, name: &str) -> (r: Option<&AudioDevice>)
        ensures
            match r {
                Some(d) => d.info.name@ == name@,
                None => forall|i: int| 0 <= i < self.devices@.len()
                    ==> (#[trigger] self.devices@[i]).info.name@ != name@,
            },
    {
        let mut i: usize = 0;
        while i < self.devices.len()
            invariant
                i <= self.devices@.len(),
                forall|j: int| 0 <= j < i ==> (#[trigger] self.devices@[j]).info.name@ != name@,
            decreases self.devices@.len() - i,
        {
            if str_eq(self.devices[i].info.name.as_str(), name) {
                return Some(&self.devices[i]);
            }
            i = i + 1;
        }
        None
    }
}

impl Default for DeviceManager {
    fn default() -> (r: Self)
        ensures
            r.wf(),
            r.devices@.len() == 0,
    {
        DeviceManager::new()
    }
}

/// Character-for-character string equality.
pub fn str_eq(a: &str, b: &str) -> (r: bool)
    ensures
        r == (a@ == b@),
{
    let len_a = a.unicode_len();
    let len_b = b.unicode_len();
    if len_a != len_b {
        proof {
            assert(a@ != b@) by {
                assert(a@.len() != b@.len());
            }
        }
        return false;
    }
    let mut i: usize = 0;
    while i < len_a
        invariant
            len_a == a@.len(),
            len_a == b@.len(),
            i <= len_a,
            forall|j: int| 0 <= j < i ==> a@[j] == b@[j],
        decreases len_a - i,
    {
        if a.get_char(i) != b.get_char(i) {
            return false;
        }
        i = i + 1;
    }
    proof {
        assert(a@ =~= b@);
    }
    true
}

} // verus!
