//! Parametric equalizer: band and preset management.
//!
//! Gains are whole decibels, Q factors are thousandths; the biquad filter
//! kernels that consume these parameters run in the host layer, which works
//! in the host's float sample domain.
use vstd::prelude::*;
use crate::device::str_eq;
use crate::errors::AudioError;

verus! {

pub open spec fn spec_clamp(x: int, lo: int, hi: int) -> int {
    if x < lo {
        lo
    } else if x > hi {
        hi
    } else {
        x
    }
}

/// One peaking band: center frequency in Hz, gain in dB (kept in
/// [-20, 20]), and Q in thousandths.
#[derive(Debug, Clone, Copy, PartialEq, Eq, Structural)]
pub struct EQBand {
    pub frequency: u32,
    pub gain_db: i32,
    pub q_milli: u32,
}

impl EQBand {
    pub fn new(frequency: u32, gain_db: i32, q_milli: u32) -> (r: Self)
        ensures
            r.frequency == frequency,
            r.gain_db == gain_db,
            r.q_milli == q_milli,
    {
        Self { frequency, gain_db, q_milli }
    }

    /// Set the gain, clamped to [-20, 20] dB.
    pub fn set_gain(&mut self, gain_db: i32)
        ensures
            final(self).gain_db == spec_clamp(gain_db as int, -20, 20),
            final(self).frequency == old(self).frequency,
            final(self).q_milli == old(self).q_milli,
    {
        self.gain_db = if gain_db < -20 {
            -20
        } else if gain_db > 20 {
            20
        } else {
            gain_db
        };
    }

    pub fn reset(&mut self)
        ensures
            final(self).gain_db == 0,
            final(self).frequency == old(self).frequency,
            final(self).q_milli == old(self).q_milli,
    {
        self.gain_db = 0;
    }
}

impl Default for EQBand {
    /// 1 kHz, flat, Q = 1.
    fn default() -> (r: Self)
        ensures
            r.frequency == 1000,
            r.gain_db == 0,
            r.q_milli == 1000,
    {
        EQBand::new(1000, 0, 1000)
    }
}

/// A named set of band settings.
#[derive(Debug, Clone)]
pub struct EQPreset {
    pub name: String,
    pub bands: Vec<EQBand>,
}

/// The ten standard octave-band center frequencies.
pub open spec fn spec_ten_band_frequencies() -> Seq<u32> {
    seq![32u32, 64u32, 125u32, 250u32, 500u32, 1000u32, 2000u32, 4000u32, 8000u32, 16000u32]
}

/// Band `i` of a built-in preset: the standard frequency, the given gain,
/// Q = 1.414.
pub open spec fn spec_preset_band(i: int, gain: int) -> EQBand {
    EQBand {
        frequency: spec_ten_band_frequencies()[i],
        gain_db: gain as i32,
        q_milli: 1414,
    }
}

/// The built-in presets' names, in storage order.
pub open spec fn spec_builtin_name(p: int) -> Seq<char> {
    if p == 1 {
        "Bass Boost"@
    } else if p == 2 {
        "Vocal"@
    } else if p == 3 {
        "Rock"@
    } else if p == 4 {
        "Classical"@
    } else {
        "Flat"@
    }
}

/// The built-in presets' gain tables, in storage order.
pub open spec fn spec_builtin_gains(p: int) -> Seq<int> {
    if p == 1 {
        seq![6, 4, 2, 0, 0, 0, 0, 0, 0, 0]
    } else if p == 2 {
        seq![0, 0, 0, -2, 2, 3, 2, 0, 0, 0]
    } else if p == 3 {
        seq![5, 3, 0, 0, 0, 0, 2, 4, 3, 0]
    } else if p == 4 {
        seq![4, 3, 2, 0, 0, 0, 0, 2, 3, 2]
    } else {
        seq![0, 0, 0, 0, 0, 0, 0, 0, 0, 0]
    }
}

/// `pr` is built-in preset number `p`, band for band.
pub open spec fn spec_is_builtin_preset(pr: EQPreset, p: int) -> bool {
    &&& pr.name@ == spec_builtin_name(p)
    &&& pr.bands@.len() == 10
    &&& forall|i: int| 0 <= i < 10 ==> #[trigger] pr.bands@[i] == spec_preset_band(
        i,
        spec_builtin_gains(p)[i],
    )
}

impl EQPreset {
    pub fn new(name: &str, bands: Vec<EQBand>) -> (r: Self)
        ensures
            r.name@ == name@,
            r.bands == bands,
    {
        Self { name: name.to_owned(), bands }
    }

    /// Ten flat bands at the standard frequencies, Q = 1.414.
    pub fn flat() -> (r: Self)
        ensures
            spec_is_builtin_preset(r, 0),
            r.name@ == "Flat"@,
            forall|i: int| 0 <= i < 10 ==> (#[trigger] r.bands@[i]).gain_db == 0,
    {
        let mut bands: Vec<EQBand> = Vec::new();
        bands.push(EQBand::new(32, 0, 1414));
        bands.push(EQBand::new(64, 0, 1414));
        bands.push(EQBand::new(125, 0, 1414));
        bands.push(EQBand::new(250, 0, 1414));
        bands.push(EQBand::new(500, 0, 1414));
        bands.push(EQBand::new(1000, 0, 1414));
        bands.push(EQBand::new(2000, 0, 1414));
        bands.push(EQBand::new(4000, 0, 1414));
        bands.push(EQBand::new(8000, 0, 1414));
        bands.push(EQBand::new(16000, 0, 1414));
        let r = Self { name: "Flat".to_owned(), bands };
        proof {
            assert forall|i: int| 0 <= i < 10 implies #[trigger] r.bands@[i]
                == spec_preset_band(i, spec_builtin_gains(0)[i]) by {
                assert(spec_builtin_gains(0)[i] == 0);
            }
        }
        r
    }

    /// Flat with the three lowest bands lifted.
    pub fn bass_boost() -> (r: Self)
        ensures
            spec_is_builtin_preset(r, 1),
            r.name@ == "Bass Boost"@,
    {
        let mut preset = Self::flat();
        let mut b0 = preset.bands[0];
        b0.gain_db = 6;
        preset.bands.set(0, b0);
        let mut b1 = preset.bands[1];
        b1.gain_db = 4;
        preset.bands.set(1, b1);
        let mut b2 = preset.bands[2];
        b2.gain_db = 2;
        preset.bands.set(2, b2);
        preset.name = "Bass Boost".to_owned();
        proof {
            assert(preset.bands@[0] == spec_preset_band(0, 6));
            assert(preset.bands@[1] == spec_preset_band(1, 4));
            assert(preset.bands@[2] == spec_preset_band(2, 2));
            assert forall|i: int| 0 <= i < 10 implies #[trigger] preset.bands@[i]
                == spec_preset_band(i, spec_builtin_gains(1)[i]) by {
                if i >= 3 {
                    assert(spec_builtin_gains(1)[i] == 0);
                    assert(preset.bands@[i] == spec_preset_band(i, 0));
                }
            }
        }
        preset
    }

    /// Flat with the midrange shaped for voice.
    pub fn vocal() -> (r: Self)
        ensures
            spec_is_builtin_preset(r, 2),
            r.name@ == "Vocal"@,
    {
        let mut preset = Self::flat();
        let mut b3 = preset.bands[3];
        b3.gain_db = -2;
        preset.bands.set(3, b3);
        let mut b4 = preset.bands[4];
        b4.gain_db = 2;
        preset.bands.set(4, b4);
        let mut b5 = preset.bands[5];
        b5.gain_db = 3;
        preset.bands.set(5, b5);
        let mut b6 = preset.bands[6];
        b6.gain_db = 2;
        preset.bands.set(6, b6);
        preset.name = "Vocal".to_owned();
        proof {
            assert(preset.bands@[3] == spec_preset_band(3, -2));
            assert(preset.bands@[4] == spec_preset_band(4, 2));
            assert(preset.bands@[5] == spec_preset_band(5, 3));
            assert(preset.bands@[6] == spec_preset_band(6, 2));
            assert forall|i: int| 0 <= i < 10 implies #[trigger] preset.bands@[i]
                == spec_preset_band(i, spec_builtin_gains(2)[i]) by {
                if i < 3 || i > 6 {
                    assert(spec_builtin_gains(2)[i] == 0);
                    assert(preset.bands@[i] == spec_preset_band(i, 0));
                }
            }
        }
        preset
    }

    /// Flat with lows and highs lifted.
    pub fn rock() -> (r: Self)
        ensures
            spec_is_builtin_preset(r, 3),
            r.name@ == "Rock"@,
    {
        let mut preset = Self::flat();
        let mut b0 = preset.bands[0];
        b0.gain_db = 5;
        preset.bands.set(0, b0);
        let mut b1 = preset.bands[1];
        b1.gain_db = 3;
        preset.bands.set(1, b1);
        let mut b6 = preset.bands[6];
        b6.gain_db = 2;
        preset.bands.set(6, b6);
        let mut b7 = preset.bands[7];
        b7.gain_db = 4;
        preset.bands.set(7, b7);
        let mut b8 = preset.bands[8];
        b8.gain_db = 3;
        preset.bands.set(8, b8);
        preset.name = "Rock".to_owned();
        proof {
            assert(preset.bands@[0] == spec_preset_band(0, 5));
            assert(preset.bands@[1] == spec_preset_band(1, 3));
            assert(preset.bands@[6] == spec_preset_band(6, 2));
            assert(preset.bands@[7] == spec_preset_band(7, 4));
            assert(preset.bands@[8] == spec_preset_band(8, 3));
            assert forall|i: int| 0 <= i < 10 implies #[trigger] preset.bands@[i]
                == spec_preset_band(i, spec_builtin_gains(3)[i]) by {
                if i == 2 || i == 3 || i == 4 || i == 5 || i == 9 {
                    assert(spec_builtin_gains(3)[i] == 0);
                    assert(preset.bands@[i] == spec_preset_band(i, 0));
                }
            }
        }
        preset
    }

    /// Flat with a gentle smile curve.
    pub fn classical() -> (r: Self)
        ensures
            spec_is_builtin_preset(r, 4),
            r.name@ == "Classical"@,
    {
        let mut preset = Self::flat();
        let mut b0 = preset.bands[0];
        b0.gain_db = 4;
        preset.bands.set(0, b0);
        let mut b1 = preset.bands[1];
        b1.gain_db = 3;
        preset.bands.set(1, b1);
        let mut b2 = preset.bands[2];
        b2.gain_db = 2;
        preset.bands.set(2, b2);
        let mut b7 = preset.bands[7];
        b7.gain_db = 2;
        preset.bands.set(7, b7);
        let mut b8 = preset.bands[8];
        b8.gain_db = 3;
        preset.bands.set(8, b8);
        let mut b9 = preset.bands[9];
        b9.gain_db = 2;
        preset.bands.set(9, b9);
        preset.name = "Classical".to_owned();
        proof {
            assert(preset.bands@[0] == spec_preset_band(0, 4));
            assert(preset.bands@[1] == spec_preset_band(1, 3));
            assert(preset.bands@[2] == spec_preset_band(2, 2));
            assert(preset.bands@[7] == spec_preset_band(7, 2));
            assert(preset.bands@[8] == spec_preset_band(8, 3));
            assert(preset.bands@[9] == spec_preset_band(9, 2));
            assert forall|i: int| 0 <= i < 10 implies #[trigger] preset.bands@[i]
                == spec_preset_band(i, spec_builtin_gains(4)[i]) by {
                if 3 <= i <= 6 {
                    assert(spec_builtin_gains(4)[i] == 0);
                    assert(preset.bands@[i] == spec_preset_band(i, 0));
                }
            }
        }
        preset
    }
}

/// Copy a band list.
pub fn copy_bands(v: &Vec<EQBand>) -> (r: Vec<EQBand>)
    ensures
        r@ == v@,
{
    let mut r: Vec<EQBand> = Vec::new();
    let mut i: usize = 0;
    while i < v.len()
        invariant
            i <= v@.len(),
            r@ == v@.take(i as int),
        decreases v@.len() - i,
    {
        r.push(v[i]);
        proof {
            assert(r@ =~= v@.take(i as int + 1));
        }
        i = i + 1;
    }
    proof {
        assert(v@.take(v@.len() as int) =~= v@);
    }
    r
}

/// The N-band equalizer: bands, presets, and the enabled flag. The filter
/// state (delay registers) lives beside the float kernels in the host layer.
pub struct Equalizer {
    pub bands: Vec<EQBand>,
    pub sample_rate: u32,
    pub channels: u16,
    pub enabled: bool,
    pub presets: Vec<EQPreset>,
    pub current_preset: Option<String>,
}

impl Equalizer {
    /// Band center frequencies for a band count: the standard 10-, 8- and
    /// 5-band tables; any other count is spaced by octaves from 31 Hz,
    /// capped at 20 kHz.
    pub fn default_frequencies(count: usize) -> (r: Vec<u32>)
        ensures
            r@.len() == count,
            count == 10 ==> r@ == spec_ten_band_frequencies(),
    {
        let mut freqs: Vec<u32> = Vec::new();
        if count == 10 {
            freqs.push(32);
            freqs.push(64);
            freqs.push(125);
            freqs.push(250);
            freqs.push(500);
            freqs.push(1000);
            freqs.push(2000);
            freqs.push(4000);
            freqs.push(8000);
            freqs.push(16000);
            proof {
                assert(freqs@ =~= spec_ten_band_frequencies());
            }
        } else if count == 8 {
            freqs.push(60);
            freqs.push(150);
            freqs.push(400);
            freqs.push(1000);
            freqs.push(2400);
            freqs.push(6000);
            freqs.push(12000);
            freqs.push(14000);
        } else if count == 5 {
            freqs.push(100);
            freqs.push(400);
            freqs.push(1000);
            freqs.push(4000);
            freqs.push(10000);
        } else {
            let mut f: u32 = 31;
            while freqs.len() < count
                invariant
                    freqs@.len() <= count,
                    1 <= f <= 20000,
                decreases count - freqs@.len(),
            {
                freqs.push(f);
                f = if f > 10000 { 20000 } else { f * 2 };
            }
        }
        freqs
    }

    pub fn new(sample_rate: u32, channels: u16, band_count: usize) -> (r: Self)
        ensures
            r.bands@.len() == band_count,
            r.sample_rate == sample_rate,
            r.channels == channels,
            r.enabled,
            r.presets@.len() == 5,
            forall|p: int| 0 <= p < 5 ==> spec_is_builtin_preset(#[trigger] r.presets@[p], p),
            band_count == 10 ==> forall|i: int| 0 <= i < 10 ==> {
                &&& (#[trigger] r.bands@[i]).frequency == spec_ten_band_frequencies()[i]
                &&& r.bands@[i].gain_db == 0
            },
            r.current_preset is Some,
            r.current_preset->0@ == "Flat"@,
    {
        let freqs = Self::default_frequencies(band_count);
        let mut bands: Vec<EQBand> = Vec::new();
        let mut i: usize = 0;
        while i < freqs.len()
            invariant
                i <= freqs@.len(),
                bands@.len() == i,
                forall|j: int| 0 <= j < i ==> {
                    &&& (#[trigger] bands@[j]).frequency == freqs@[j]
                    &&& bands@[j].gain_db == 0
                    &&& bands@[j].q_milli == 1414
                },
            decreases freqs@.len() - i,
        {
            bands.push(EQBand::new(freqs[i], 0, 1414));
            i = i + 1;
        }

        let mut presets: Vec<EQPreset> = Vec::new();
        presets.push(EQPreset::flat());
        presets.push(EQPreset::bass_boost());
        presets.push(EQPreset::vocal());
        presets.push(EQPreset::rock());
        presets.push(EQPreset::classical());

        Self {
            bands,
            sample_rate,
            channels,
            enabled: true,
            presets,
            current_preset: Some("Flat".to_owned()),
        }
    }

    /// Set one band's gain, clamped to [-20, 20] dB; detaches the current
    /// preset. Fails with DSPError exactly when the index is out of range.
    pub fn set_band_gain(&mut self, band_index: usize, gain_db: i32) -> (r: Result<
        (),
        AudioError,
    >)
        ensures
            r is Ok <==> band_index < old(self).bands@.len(),
            band_index < old(self).bands@.len() ==> {
                &&& final(self).bands@ == old(self).bands@.update(
                    band_index as int,
                    EQBand {
                        gain_db: spec_clamp(gain_db as int, -20, 20) as i32,
                        ..old(self).bands@[band_index as int]
                    },
                )
                &&& final(self).current_preset is None
            },
            band_index >= old(self).bands@.len() ==> {
                &&& r->Err_0 is DSPError
                &&& final(self).bands@ == old(self).bands@
                &&& final(self).current_preset == old(self).current_preset
            },
            final(self).sample_rate == old(self).sample_rate,
            final(self).channels == old(self).channels,
            final(self).enabled == old(self).enabled,
            final(self).presets@ == old(self).presets@,
    {
        if band_index >= self.bands.len() {
            return Err(AudioError::DSPError("Invalid band index".to_owned()));
        }
        let mut band = self.bands[band_index];
        band.set_gain(gain_db);
        self.bands.set(band_index, band);
        self.current_preset = None;
        Ok(())
    }

    pub fn get_band_gain(&self, band_index: usize) -> (r: Option<i32>)
        ensures
            band_index < self.bands@.len() ==> r == Some(self.bands@[band_index as int].gain_db),
            band_index >= self.bands@.len() ==> r is None,
    {
        if band_index < self.bands.len() {
            Some(self.bands[band_index].gain_db)
        } else {
            None
        }
    }

    pub fn get_bands(&self) -> (r: &Vec<EQBand>)
        ensures
            r == &self.bands,
    {
        &self.bands
    }

    /// Replace all bands at once; the count must match. Fails with DSPError
    /// exactly on a count mismatch.
    pub fn set_bands(&mut self, bands: Vec<EQBand>) -> (r: Result<(), AudioError>)
        ensures
            r is Ok <==> bands@.len() == old(self).bands@.len(),
            r is Ok ==> final(self).bands@ == bands@ && final(self).current_preset is None,
            r is Err ==> r->Err_0 is DSPError && final(self).bands@ == old(self).bands@
                && final(self).current_preset == old(self).current_preset,
            final(self).sample_rate == old(self).sample_rate,
            final(self).channels == old(self).channels,
            final(self).enabled == old(self).enabled,
            final(self).presets@ == old(self).presets@,
    {
        if bands.len() != self.bands.len() {
            return Err(AudioError::DSPError("Band count mismatch".to_owned()));
        }
        self.bands = bands;
        self.current_preset = None;
        Ok(())
    }

    /// Write the given gains into the bands, position by position as far
    /// as both lists reach, each clamped to [-20, 20] dB; when anything was
    /// written the current preset is detached.
    pub fn set_gains(&mut self, gains: &Vec<i32>)
        ensures
            final(self).bands@.len() == old(self).bands@.len(),
            forall|i: int| 0 <= i < gains@.len() && i < old(self).bands@.len()
                ==> #[trigger] final(self).bands@[i] == (EQBand {
                    gain_db: spec_clamp(gains@[i] as int, -20, 20) as i32,
                    ..old(self).bands@[i]
                }),
            forall|i: int| gains@.len() <= i < old(self).bands@.len()
                ==> #[trigger] final(self).bands@[i] == old(self).bands@[i],
            gains@.len() > 0 && old(self).bands@.len() > 0 ==> final(self).current_preset
                is None,
            gains@.len() == 0 || old(self).bands@.len() == 0 ==> final(self).current_preset
                == old(self).current_preset,
            final(self).sample_rate == old(self).sample_rate,
            final(self).channels == old(self).channels,
            final(self).enabled == old(self).enabled,
            final(self).presets@ == old(self).presets@,
    {
        let mut i: usize = 0;
        let n = self.bands.len();
        while i < gains.len() && i < n
            invariant
                n == self.bands@.len(),
                self.bands@.len() == old(self).bands@.len(),
                i <= gains@.len(),
                forall|j: int| 0 <= j < i ==> #[trigger] self.bands@[j] == (EQBand {
                    gain_db: spec_clamp(gains@[j] as int, -20, 20) as i32,
                    ..old(self).bands@[j]
                }),
                forall|j: int| i <= j < self.bands@.len()
                    ==> #[trigger] self.bands@[j] == old(self).bands@[j],
                self.sample_rate == old(self).sample_rate,
                self.channels == old(self).channels,
                self.enabled == old(self).enabled,
                self.presets@ == old(self).presets@,
                self.current_preset == old(self).current_preset,
            decreases gains@.len() - i,
        {
            let mut band = self.bands[i];
            band.set_gain(gains[i]);
            self.bands.set(i, band);
            i = i + 1;
        }
        if gains.len() > 0 && n > 0 {
            self.current_preset = None;
        }
    }

    /// Load a stored preset's bands. Fails with DSPError exactly when no
    /// preset has the name.
    pub fn apply_preset(&mut self, preset_name: &str) -> (r: Result<(), AudioError>)
        ensures
            r is Ok <==> exists|j: int| 0 <= j < old(self).presets@.len()
                && (#[trigger] old(self).presets@[j]).name@ == preset_name@,
            r is Ok ==> exists|j: int| {
                &&& 0 <= j < old(self).presets@.len()
                &&& (#[trigger] old(self).presets@[j]).name@ == preset_name@
                &&& final(self).bands@ == old(self).presets@[j].bands@
            },
            r is Ok ==> final(self).current_preset is Some
                && final(self).current_preset->0@ == preset_name@,
            r is Err ==> r->Err_0 is DSPError && final(self).bands@ == old(self).bands@
                && final(self).current_preset == old(self).current_preset,
            final(self).sample_rate == old(self).sample_rate,
            final(self).channels == old(self).channels,
            final(self).enabled == old(self).enabled,
            final(self).presets@ == old(self).presets@,
    {
        let mut i: usize = 0;
        while i < self.presets.len()
            invariant
                i <= self.presets@.len(),
                self.presets@ == old(self).presets@,
                self.bands@ == old(self).bands@,
                self.current_preset == old(self).current_preset,
                self.sample_rate == old(self).sample_rate,
                self.channels == old(self).channels,
                self.enabled == old(self).enabled,
                forall|j: int| 0 <= j < i ==> (#[trigger] self.presets@[j]).name@ != preset_name@,
            decreases self.presets@.len() - i,
        {
            if str_eq(self.presets[i].name.as_str(), preset_name) {
                proof {
                    assert((old(self).presets@[i as int]).name@ == preset_name@);
                }
                let bands = copy_bands(&self.presets[i].bands);
                self.bands = bands;
                self.current_preset = Some(preset_name.to_owned());
                return Ok(());
            }
            i = i + 1;
        }
        Err(AudioError::DSPError("Preset not found".to_owned()))
    }

    /// Store the current bands under a name, replacing a preset of that name
    /// if one exists; the new preset becomes current. Never fails.
    pub fn save_preset(&mut self, name: &str) -> (r: Result<(), AudioError>)
        ensures
            r is Ok,
            final(self).current_preset is Some && final(self).current_preset->0@ == name@,
            final(self).bands@ == old(self).bands@,
            exists|j: int| 0 <= j < final(self).presets@.len()
                && (#[trigger] final(self).presets@[j]).name@ == name@
                && final(self).presets@[j].bands@ == old(self).bands@,
            final(self).sample_rate == old(self).sample_rate,
            final(self).channels == old(self).channels,
            final(self).enabled == old(self).enabled,
    {
        let bands = copy_bands(&self.bands);
        let preset = EQPreset::new(name, bands);
        let mut i: usize = 0;
        while i < self.presets.len()
            invariant
                i <= self.presets@.len(),
                preset.name@ == name@,
                preset.bands@ == old(self).bands@,
                self.presets@ == old(self).presets@,
                self.bands@ == old(self).bands@,
                self.current_preset == old(self).current_preset,
                self.sample_rate == old(self).sample_rate,
                self.channels == old(self).channels,
                self.enabled == old(self).enabled,
            decreases self.presets@.len() - i,
        {
            if str_eq(self.presets[i].name.as_str(), name) {
                self.presets.set(i, preset);
                self.current_preset = Some(name.to_owned());
                proof {
                    assert((self.presets@[i as int]).name@ == name@);
                }
                return Ok(());
            }
            i = i + 1;
        }
        self.presets.push(preset);
        self.current_preset = Some(name.to_owned());
        proof {
            assert((self.presets@[self.presets@.len() - 1]).name@ == name@);
        }
        Ok(())
    }

    /// The stored preset names, in storage order.
    pub fn get_presets(&self) -> (r: Vec<String>)
        ensures
            r@.len() == self.presets@.len(),
            forall|i: int| 0 <= i < r@.len() ==> (#[trigger] r@[i])@ == self.presets@[i].name@,
    {
        let mut names: Vec<String> = Vec::new();
        let mut i: usize = 0;
        while i < self.presets.len()
            invariant
                i <= self.presets@.len(),
                names@.len() == i,
                forall|j: int| 0 <= j < i ==> (#[trigger] names@[j])@ == self.presets@[j].name@,
            decreases self.presets@.len() - i,
        {
            names.push(self.presets[i].name.clone());
            i = i + 1;
        }
        names
    }

    pub fn current_preset(&self) -> (r: Option<&String>)
        ensures
            r == match self.current_preset {
                Some(ref s) => Some(s),
                None => None::<&String>,
            },
    {
        self.current_preset.as_ref()
    }

    /// Flatten every band and return to the Flat preset.
    pub fn reset(&mut self)
        ensures
            final(self).bands@.len() == old(self).bands@.len(),
            forall|i: int| 0 <= i < final(self).bands@.len() ==> {
                &&& (#[trigger] final(self).bands@[i]).gain_db == 0
                &&& final(self).bands@[i].frequency == old(self).bands@[i].frequency
                &&& final(self).bands@[i].q_milli == old(self).bands@[i].q_milli
            },
            final(self).current_preset is Some && final(self).current_preset->0@ == "Flat"@,
            final(self).sample_rate == old(self).sample_rate,
            final(self).channels == old(self).channels,
            final(self).enabled == old(self).enabled,
            final(self).presets@ == old(self).presets@,
    {
        let mut i: usize = 0;
        while i < self.bands.len()
            invariant
                i <= self.bands@.len(),
                self.bands@.len() == old(self).bands@.len(),
                forall|j: int| 0 <= j < i ==> {
                    &&& (#[trigger] self.bands@[j]).gain_db == 0
                    &&& self.bands@[j].frequency == old(self).bands@[j].frequency
                    &&& self.bands@[j].q_milli == old(self).bands@[j].q_milli
                },
                forall|j: int| i <= j < self.bands@.len()
                    ==> #[trigger] self.bands@[j] == old(self).bands@[j],
                self.sample_rate == old(self).sample_rate,
                self.channels == old(self).channels,
                self.enabled == old(self).enabled,
                self.presets@ == old(self).presets@,
                self.current_preset == old(self).current_preset,
            decreases self.bands@.len() - i,
        {
            let mut band = self.bands[i];
            band.reset();
            self.bands.set(i, band);
            i = i + 1;
        }
        self.current_preset = Some("Flat".to_owned());
    }

    pub fn is_enabled(&self) -> (r: bool)
        ensures
            r == self.enabled,
    {
        self.enabled
    }

    pub fn set_enabled(&mut self, enabled: bool)
        ensures
            final(self).enabled == enabled,
            final(self).bands@ == old(self).bands@,
            final(self).sample_rate == old(self).sample_rate,
            final(self).channels == old(self).channels,
            final(self).presets@ == old(self).presets@,
            final(self).current_preset == old(self).current_preset,
    {
        self.enabled = enabled;
    }
}

impl Default for Equalizer {
    /// CD-rate stereo with the standard ten bands.
    fn default() -> (r: Self)
        ensures
            r.sample_rate == 44100,
            r.channels == 2,
            r.bands@.len() == 10,
    {
        Equalizer::new(44100, 2, 10)
    }
}

/// Law: setting a band's gain to x stores exactly clamp(x, -20, 20).
pub proof fn lemma_gain_clamped(gains: int)
    ensures
        -20 <= spec_clamp(gains, -20, 20) <= 20,
        -20 <= gains <= 20 ==> spec_clamp(gains, -20, 20) == gains,
        gains > 20 ==> spec_clamp(gains, -20, 20) == 20,
        gains < -20 ==> spec_clamp(gains, -20, 20) == -20,
{
}

} // verus!
