//! The DSP chain: an ordered list of processors over interleaved samples.
//!
//! Samples cross this layer as opaque 32-bit words — the bit patterns of the
//! host's float samples. The chain's bookkeeping (order, names, enabled
//! flags, parameters) and its identity paths are verified here; the numeric
//! kernels (volume scaling, gain, biquads, sinc interpolation) run in the
//! host layer, which consults these parameters.
use vstd::prelude::*;
use vstd::string::StrSliceExecFns;
use crate::device::str_eq;
use crate::eq::{spec_clamp, Equalizer};
use crate::errors::AudioError;
use crate::resampler::copy_words;
use crate::resampler_engine::ResamplerEngine;

verus! {

/// Hands samples through untouched; always enabled.
pub struct PassthroughProcessor;

impl PassthroughProcessor {
    /// The identity map on sample words.
    pub fn process(&self, input: &Vec<u32>) -> (r: Vec<u32>)
        ensures
            r@ == input@,
    {
        copy_words(input)
    }
}

/// A linear volume scaler. The multiplier is kept in hundredths, in
/// [0, 200] — that is, [0.0, 2.0]; values above 100 amplify.
pub struct VolumeProcessor {
    pub volume_percent: u32,
    pub enabled: bool,
}

impl VolumeProcessor {
    pub fn new(initial_volume_percent: i64) -> (r: Self)
        ensures
            r.volume_percent == spec_clamp(initial_volume_percent as int, 0, 200),
            r.enabled,
    {
        Self { volume_percent: clamp_percent(initial_volume_percent), enabled: true }
    }

    /// Set the multiplier, clamped into [0, 200] hundredths.
    pub fn set_volume(&mut self, volume_percent: i64)
        ensures
            final(self).volume_percent == spec_clamp(volume_percent as int, 0, 200),
            final(self).enabled == old(self).enabled,
    {
        self.volume_percent = clamp_percent(volume_percent);
    }

    pub fn get_volume(&self) -> (r: u32)
        ensures
            r == self.volume_percent,
    {
        self.volume_percent
    }

    /// Back to unity gain.
    pub fn reset(&mut self)
        ensures
            final(self).volume_percent == 100,
            final(self).enabled == old(self).enabled,
    {
        self.volume_percent = 100;
    }
}

/// Clamp a requested volume into [0, 200] hundredths.
pub fn clamp_percent(v: i64) -> (r: u32)
    ensures
        r == spec_clamp(v as int, 0, 200),
{
    if v < 0 {
        0
    } else if v > 200 {
        200
    } else {
        v as u32
    }
}

/// A fixed gain in whole decibels.
pub struct GainProcessor {
    pub gain_db: i32,
    pub enabled: bool,
}

impl GainProcessor {
    pub fn new(gain_db: i32) -> (r: Self)
        ensures
            r.gain_db == gain_db,
            r.enabled,
    {
        Self { gain_db, enabled: true }
    }

    pub fn set_gain_db(&mut self, gain_db: i32)
        ensures
            final(self).gain_db == gain_db,
            final(self).enabled == old(self).enabled,
    {
        self.gain_db = gain_db;
    }

    pub fn get_gain_db(&self) -> (r: i32)
        ensures
            r == self.gain_db,
    {
        self.gain_db
    }

    pub fn reset(&mut self)
        ensures
            final(self).gain_db == 0,
            final(self).enabled == old(self).enabled,
    {
        self.gain_db = 0;
    }
}

/// The closed set of processors a chain can hold.
pub enum Processor {
    Passthrough(PassthroughProcessor),
    Volume(VolumeProcessor),
    Gain(GainProcessor),
    Equalizer(Equalizer),
    Resampler(ResamplerEngine),
}

impl Processor {
    pub open spec fn spec_name(self) -> Seq<char> {
        match self {
            Processor::Passthrough(_) => "Passthrough"@,
            Processor::Volume(_) => "Volume"@,
            Processor::Gain(_) => "Gain"@,
            Processor::Equalizer(_) => "Equalizer"@,
            Processor::Resampler(_) => "Resampler"@,
        }
    }

    pub fn get_name(&self) -> (r: &'static str)
        ensures
            r@ == self.spec_name(),
    {
        match self {
            Processor::Passthrough(_) => "Passthrough",
            Processor::Volume(_) => "Volume",
            Processor::Gain(_) => "Gain",
            Processor::Equalizer(_) => "Equalizer",
            Processor::Resampler(_) => "Resampler",
        }
    }

    pub open spec fn spec_is_enabled(self) -> bool {
        match self {
            Processor::Passthrough(_) => true,
            Processor::Volume(v) => v.enabled,
            Processor::Gain(g) => g.enabled,
            Processor::Equalizer(e) => e.enabled,
            Processor::Resampler(r) => r.enabled,
        }
    }

    pub fn is_enabled(&self) -> (r: bool)
        ensures
            r == self.spec_is_enabled(),
    {
        match self {
            Processor::Passthrough(_) => true,
            Processor::Volume(v) => v.enabled,
            Processor::Gain(g) => g.enabled,
            Processor::Equalizer(e) => e.enabled,
            Processor::Resampler(r) => r.enabled,
        }
    }

    /// Enable or disable; the passthrough stage ignores the request.
    pub fn set_enabled(&mut self, enabled: bool)
        ensures
            final(self).spec_is_enabled() == (*old(self) is Passthrough || enabled),
            final(self).spec_name() == old(self).spec_name(),
    {
        match self {
            Processor::Passthrough(_) => {}
            Processor::Volume(v) => v.enabled = enabled,
            Processor::Gain(g) => g.enabled = enabled,
            Processor::Equalizer(e) => e.enabled = enabled,
            Processor::Resampler(r) => r.enabled = enabled,
        }
    }

    /// Return the stage to its neutral settings: unity volume, zero gain,
    /// flat bands; the passthrough and resampler stages have none.
    pub fn reset(&mut self)
        ensures
            final(self).spec_name() == old(self).spec_name(),
            *final(self) is Volume ==> (*final(self))->Volume_0.volume_percent == 100,
            *final(self) is Gain ==> (*final(self))->Gain_0.gain_db == 0,
            *final(self) is Equalizer ==> forall|i: int|
                0 <= i < (*final(self))->Equalizer_0.bands@.len()
                    ==> (#[trigger] (*final(self))->Equalizer_0.bands@[i]).gain_db == 0,
    {
        match self {
            Processor::Passthrough(_) => {}
            Processor::Volume(v) => v.reset(),
            Processor::Gain(g) => g.reset(),
            Processor::Equalizer(e) => e.reset(),
            Processor::Resampler(_) => {}
        }
    }
}

/// The ordered chain. Disabled, or with no enabled processor, it is an
/// identity on the sample stream.
pub struct DSPChain {
    pub processors: Vec<Processor>,
    pub enabled: bool,
}

impl DSPChain {
    /// The chain passes samples through untouched: it is disabled, or no
    /// processor in it is enabled (an empty chain included).
    pub open spec fn spec_is_identity(self) -> bool {
        ||| !self.enabled
        ||| forall|i: int| 0 <= i < self.processors@.len()
            ==> !(#[trigger] self.processors@[i]).spec_is_enabled()
    }

    pub fn new() -> (r: Self)
        ensures
            r.processors@.len() == 0,
            r.enabled,
    {
        Self { processors: Vec::new(), enabled: true }
    }

    pub fn add_processor(&mut self, processor: Processor)
        ensures
            final(self).processors@ == old(self).processors@.push(processor),
            final(self).enabled == old(self).enabled,
    {
        self.processors.push(processor);
    }

    /// Remove and return the first processor with the given name; nothing
    /// changes when no processor has it.
    pub fn remove_processor(&mut self, name: &str) -> (r: Option<Processor>)
        ensures
            final(self).enabled == old(self).enabled,
            match r {
                Some(p) => exists|j: int| {
                    &&& 0 <= j < old(self).processors@.len()
                    &&& (#[trigger] old(self).processors@[j]).spec_name() == name@
                    &&& forall|k: int| 0 <= k < j
                        ==> (#[trigger] old(self).processors@[k]).spec_name() != name@
                    &&& final(self).processors@ == old(self).processors@.remove(j)
                },
                None => {
                    &&& final(self).processors@ == old(self).processors@
                    &&& forall|j: int| 0 <= j < old(self).processors@.len()
                        ==> (#[trigger] old(self).processors@[j]).spec_name() != name@
                },
            },
    {
        let mut i: usize = 0;
        while i < self.processors.len()
            invariant
                i <= self.processors@.len(),
                self.processors@ == old(self).processors@,
                self.enabled == old(self).enabled,
                forall|k: int| 0 <= k < i
                    ==> (#[trigger] self.processors@[k]).spec_name() != name@,
            decreases self.processors@.len() - i,
        {
            if str_eq(self.processors[i].get_name(), name) {
                proof {
                    assert((old(self).processors@[i as int]).spec_name() == name@);
                }
                let p = self.processors.remove(i);
                return Some(p);
            }
            i = i + 1;
        }
        None
    }

    /// The identity path of the chain: when the chain is disabled or no
    /// processor is enabled, the output is a word-for-word copy of the
    /// input — a bytewise copy of the sample stream. Otherwise nothing is
    /// returned and the host layer must run the enabled kernels in order.
    pub fn process_identity(&self, input: &Vec<u32>) -> (r: Option<Vec<u32>>)
        ensures
            r is Some <==> self.spec_is_identity(),
            r is Some ==> r->Some_0@ == input@,
    {
        if !self.enabled {
            return Some(copy_words(input));
        }
        let mut i: usize = 0;
        while i < self.processors.len()
            invariant
                i <= self.processors@.len(),
                self.enabled,
                forall|j: int| 0 <= j < i
                    ==> !(#[trigger] self.processors@[j]).spec_is_enabled(),
            decreases self.processors@.len() - i,
        {
            if self.processors[i].is_enabled() {
                return None;
            }
            i = i + 1;
        }
        Some(copy_words(input))
    }

    /// Return every stage to its neutral settings.
    pub fn reset(&mut self)
        ensures
            final(self).processors@.len() == old(self).processors@.len(),
            final(self).enabled == old(self).enabled,
            forall|i: int| 0 <= i < final(self).processors@.len()
                ==> (#[trigger] final(self).processors@[i]).spec_name()
                    == old(self).processors@[i].spec_name(),
    {
        let n = self.processors.len();
        let mut i: usize = 0;
        while i < n
            invariant
                i <= n,
                n == self.processors@.len(),
                self.processors@.len() == old(self).processors@.len(),
                self.enabled == old(self).enabled,
                forall|j: int| 0 <= j < self.processors@.len()
                    ==> (#[trigger] self.processors@[j]).spec_name()
                        == old(self).processors@[j].spec_name(),
            decreases n - i,
        {
            let mut p = self.processors.remove(i);
            p.reset();
            self.processors.insert(i, p);
            i = i + 1;
        }
    }

    pub fn set_enabled(&mut self, enabled: bool)
        ensures
            final(self).enabled == enabled,
            final(self).processors@ == old(self).processors@,
    {
        self.enabled = enabled;
    }

    pub fn is_enabled(&self) -> (r: bool)
        ensures
            r == self.enabled,
    {
        self.enabled
    }

    pub fn processor_count(&self) -> (r: usize)
        ensures
            r == self.processors@.len(),
    {
        self.processors.len()
    }

    /// Borrow one stage, for the host layer's kernel loop.
    pub fn get_processor(&self, index: usize) -> (r: Option<&Processor>)
        ensures
            index < self.processors@.len() ==> r == Some(&self.processors@[index as int]),
            index >= self.processors@.len() ==> r is None,
    {
        if index < self.processors.len() {
            Some(&self.processors[index])
        } else {
            None
        }
    }

    /// The stages' names, in chain order.
    pub fn get_processor_names(&self) -> (r: Vec<String>)
        ensures
            r@.len() == self.processors@.len(),
            forall|i: int| 0 <= i < r@.len() ==> (#[trigger] r@[i])@
                == self.processors@[i].spec_name(),
    {
        let mut names: Vec<String> = Vec::new();
        let mut i: usize = 0;
        while i < self.processors.len()
            invariant
                i <= self.processors@.len(),
                names@.len() == i,
                forall|j: int| 0 <= j < i ==> (#[trigger] names@[j])@
                    == self.processors@[j].spec_name(),
            decreases self.processors@.len() - i,
        {
            names.push(self.processors[i].get_name().to_owned());
            i = i + 1;
        }
        names
    }
}

impl Default for DSPChain {
    fn default() -> (r: Self)
        ensures
            r.processors@.len() == 0,
            r.enabled,
    {
        DSPChain::new()
    }
}

/// Law: an empty chain, a disabled chain, and a chain of disabled stages are
/// all identities on the sample stream.
pub proof fn lemma_identity_cases(c: DSPChain)
    ensures
        c.processors@.len() == 0 ==> c.spec_is_identity(),
        !c.enabled ==> c.spec_is_identity(),
{
}

} // verus!
