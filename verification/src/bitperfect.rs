//! Bit-perfect negotiation: choose the delivery format for a source format,
//! preferring the unaltered source when a device takes it natively.
use vstd::prelude::*;
use crate::device::{lemma_supporting_device_scores_positive, DeviceInfo, DeviceManager};
use crate::errors::AudioError;
use crate::format::AudioFormat;

verus! {

#[derive(Debug, Clone, Copy, PartialEq, Eq, Structural)]
pub enum BitPerfectMode {
    Disabled,
    Automatic,
    Exclusive,
    Passthrough,
}

#[derive(Debug, Clone, Copy, PartialEq, Eq, Structural)]
pub struct BitPerfectConfig {
    pub mode: BitPerfectMode,
    pub prefer_integer: bool,
    pub auto_sample_rate: bool,
    pub allow_resampling: bool,
}

impl Default for BitPerfectConfig {
    fn default() -> (r: Self)
        ensures
            r.mode == BitPerfectMode::Automatic,
            r.prefer_integer,
            r.auto_sample_rate,
            !r.allow_resampling,
    {
        Self {
            mode: BitPerfectMode::Automatic,
            prefer_integer: true,
            auto_sample_rate: true,
            allow_resampling: false,
        }
    }
}

/// Negotiates the delivery format, remembers which enumerated device it was
/// negotiated against, and whether the current path is bit-perfect.
pub struct BitPerfectManager {
    pub config: BitPerfectConfig,
    pub device_manager: DeviceManager,
    pub current_format: Option<AudioFormat>,
    pub is_bitperfect: bool,
    /// Position, in the registry's enumeration, of the device the current
    /// format was negotiated against.
    pub selected_device: Option<usize>,
}

impl BitPerfectManager {
    pub open spec fn wf(self) -> bool {
        self.device_manager.wf()
    }

    /// A format is taken bit-perfect exactly when the mode allows it and
    /// some enumerated device — the negotiator picks the best-scoring one —
    /// supports the format natively.
    pub open spec fn spec_validates(self, format: AudioFormat) -> bool {
        &&& self.config.mode != BitPerfectMode::Disabled
        &&& self.device_manager.spec_some_device_supports_below(
            format,
            self.device_manager.devices@.len() as int,
        )
    }

    /// The shared-mode delivery format, also the fallback when bit-perfect
    /// output is impossible and resampling is allowed: the default device's
    /// top rate with the source's channels and encoding; without a device,
    /// the source itself.
    pub open spec fn spec_fallback_format(self, source: AudioFormat) -> AudioFormat {
        match self.device_manager.spec_default_device() {
            Some(d) => AudioFormat {
                sample_rate: d.info.max_sample_rate,
                channels: source.channels,
                sample_format: source.sample_format,
            },
            None => source,
        }
    }

    /// The registry is handed in by the host layer, already enumerated.
    pub fn new(config: BitPerfectConfig, device_manager: DeviceManager) -> (r: Self)
        requires
            device_manager.wf(),
        ensures
            r.wf(),
            r.config == config,
            r.device_manager == device_manager,
            r.current_format is None,
            !r.is_bitperfect,
            r.selected_device is None,
    {
        Self {
            config,
            device_manager,
            current_format: None,
            is_bitperfect: false,
            selected_device: None,
        }
    }

    pub fn set_config(&mut self, config: BitPerfectConfig)
        requires
            old(self).wf(),
        ensures
            final(self).wf(),
            final(self).config == config,
            final(self).device_manager == old(self).device_manager,
            final(self).current_format == old(self).current_format,
            final(self).is_bitperfect == old(self).is_bitperfect,
            final(self).selected_device == old(self).selected_device,
    {
        self.config = config;
    }

    pub fn config(&self) -> (r: &BitPerfectConfig)
        ensures
            r == &self.config,
    {
        &self.config
    }

    pub fn is_bitperfect(&self) -> (r: bool)
        ensures
            r == self.is_bitperfect,
    {
        self.is_bitperfect
    }

    pub fn current_format(&self) -> (r: Option<AudioFormat>)
        ensures
            r == self.current_format,
    {
        self.current_format
    }

    /// Whether the format can be delivered bit-perfect right now. Never
    /// fails; the judgement is `spec_validates`.
    pub fn validate_format(&self, format: &AudioFormat) -> (r: Result<bool, AudioError>)
        requires
            self.wf(),
        ensures
            r is Ok,
            r->Ok_0 == self.spec_validates(*format),
    {
        if matches!(self.config.mode, BitPerfectMode::Disabled) {
            return Ok(false);
        }
        match self.device_manager.find_best_index_for_format(format) {
            Some(_) => Ok(true),
            None => Ok(false),
        }
    }

    /// The index of the device the format should go to: with bit-perfect
    /// disabled, or when no device supports the format, the host default;
    /// otherwise the best-scoring device that supports it.
    pub fn find_best_device(&self, format: &AudioFormat) -> (r: Option<usize>)
        requires
            self.wf(),
        ensures
            self.config.mode == BitPerfectMode::Disabled ==> r == (
                if self.device_manager.spec_default_device() is Some {
                    Some(0usize)
                } else {
                    None::<usize>
                }
            ),
            self.config.mode != BitPerfectMode::Disabled ==> match r {
                Some(idx) => {
                    ||| exists|i: int| {
                        &&& 0 <= i < self.device_manager.devices@.len()
                        &&& (#[trigger] self.device_manager.devices@[i]).spec_supports_format(
                            *format,
                        )
                        &&& self.device_manager.devices@[i].info.index == idx
                    }
                    ||| self.device_manager.spec_default_device() is Some
                        && self.device_manager.spec_default_device()->0.info.index == idx
                },
                None => {
                    &&& !self.device_manager.spec_some_device_supports_below(
                        *format,
                        self.device_manager.devices@.len() as int,
                    )
                    &&& self.device_manager.spec_default_device() is None
                },
            },
    {
        if matches!(self.config.mode, BitPerfectMode::Disabled) {
            return match self.device_manager.default_device() {
                Some(_) => Some(0),
                None => None,
            };
        }
        match self.device_manager.find_best_device_for_format(format) {
            Some(device) => Some(device.info().index),
            None => match self.device_manager.default_device() {
                Some(d) => Some(d.info().index),
                None => None,
            },
        }
    }

    /// Negotiate the delivery format for `source_format`:
    /// - with the mode Disabled, the shared-mode format of the host default
    ///   device (resampling permitted), never bit-perfect;
    /// - else, when some device takes the source natively, the source
    ///   format itself, negotiated against the best-scoring such device and
    ///   marked bit-perfect;
    /// - otherwise, with resampling disallowed, a BitPerfectError;
    /// - otherwise the fallback format (default device's top rate, source
    ///   channels and encoding), not bit-perfect.
    pub fn prepare_format(&mut self, source_format: AudioFormat) -> (r: Result<
        AudioFormat,
        AudioError,
    >)
        requires
            old(self).wf(),
        ensures
            final(self).wf(),
            final(self).config == old(self).config,
            final(self).device_manager == old(self).device_manager,
            final(self).current_format == Some(source_format),
            final(self).is_bitperfect == old(self).spec_validates(source_format),
            old(self).config.mode == BitPerfectMode::Disabled ==> r == Ok::<
                AudioFormat,
                AudioError,
            >(old(self).spec_fallback_format(source_format)),
            old(self).spec_validates(source_format) ==> {
                &&& r == Ok::<AudioFormat, AudioError>(source_format)
                &&& final(self).selected_device is Some
                &&& final(self).selected_device->0 < old(self).device_manager.devices@.len()
                &&& old(self).device_manager.devices@[
                    final(self).selected_device->0 as int
                ].spec_supports_format(source_format)
            },
            old(self).config.mode != BitPerfectMode::Disabled && !old(self).spec_validates(
                source_format,
            ) && !old(self).config.allow_resampling ==> {
                &&& r is Err
                &&& r->Err_0 is BitPerfectError
            },
            old(self).config.mode != BitPerfectMode::Disabled && !old(self).spec_validates(
                source_format,
            ) && old(self).config.allow_resampling ==> r == Ok::<AudioFormat, AudioError>(
                old(self).spec_fallback_format(source_format),
            ),
    {
        self.current_format = Some(source_format);
        if matches!(self.config.mode, BitPerfectMode::Disabled) {
            self.is_bitperfect = false;
            match self.device_manager.default_device() {
                Some(device) => {
                    self.selected_device = self.device_manager.default_device_index();
                    let target_rate = device.info().max_sample_rate;
                    Ok(AudioFormat::new(
                        target_rate,
                        source_format.channels,
                        source_format.sample_format,
                    ))
                }
                None => {
                    self.selected_device = None;
                    Ok(source_format)
                }
            }
        } else {
            match self.device_manager.find_best_index_for_format(&source_format) {
                Some(i) => {
                    self.is_bitperfect = true;
                    self.selected_device = Some(i);
                    Ok(source_format)
                }
                None => {
                    self.is_bitperfect = false;
                    if !self.config.allow_resampling {
                        self.selected_device = None;
                        return Err(
                            AudioError::BitPerfectError(
                                "Cannot achieve bit-perfect output".to_owned(),
                            ),
                        );
                    }
                    match self.device_manager.default_device() {
                        Some(device) => {
                            self.selected_device = self.device_manager.default_device_index();
                            let target_rate = device.info().max_sample_rate;
                            Ok(AudioFormat::new(
                                target_rate,
                                source_format.channels,
                                source_format.sample_format,
                            ))
                        }
                        None => {
                            self.selected_device = None;
                            Ok(source_format)
                        }
                    }
                }
            }
        }
    }

    /// Whether the device the format was negotiated against still supports
    /// it: false after a device hot-swap changed the registry or its
    /// capabilities, and while nothing is negotiated. Never fails.
    pub fn check_integrity(&self) -> (r: Result<bool, AudioError>)
        requires
            self.wf(),
        ensures
            r is Ok,
            r->Ok_0 == match (self.current_format, self.selected_device) {
                (Some(format), Some(i)) => i < self.device_manager.devices@.len()
                    && self.device_manager.devices@[i as int].spec_supports_format(format),
                _ => false,
            },
    {
        if let (Some(format), Some(i)) = (self.current_format, self.selected_device) {
            if let Some(device) = self.device_manager.get_device(i) {
                return Ok(device.supports_format(&format));
            }
        }
        Ok(false)
    }

    pub fn get_device_manager(&self) -> (r: &DeviceManager)
        ensures
            r == &self.device_manager,
    {
        &self.device_manager
    }

    pub fn get_device_manager_mut(&mut self) -> (r: &mut DeviceManager)
        ensures
            *r == old(self).device_manager,
            final(self).device_manager == *final(r),
            final(self).config == old(self).config,
            final(self).current_format == old(self).current_format,
            final(self).is_bitperfect == old(self).is_bitperfect,
            final(self).selected_device == old(self).selected_device,
    {
        &mut self.device_manager
    }

    pub fn get_diagnostics(&self) -> (r: BitPerfectDiagnostics)
        requires
            self.wf(),
        ensures
            r.mode == self.config.mode,
            r.is_active == self.is_bitperfect,
            r.current_format == self.current_format,
            r.device_count == self.device_manager.devices@.len(),
            r.default_device is Some <==> self.device_manager.spec_default_device() is Some,
    {
        let default_device = match self.device_manager.default_device() {
            Some(d) => Some(d.info().clone()),
            None => None,
        };
        BitPerfectDiagnostics {
            mode: self.config.mode,
            is_active: self.is_bitperfect,
            current_format: self.current_format,
            device_count: self.device_manager.device_count(),
            default_device,
        }
    }
}

/// A snapshot for display: the mode, whether the path is bit-perfect, the
/// negotiated format, how many devices the registry knows, and the host
/// default's summary.
#[derive(Debug, Clone)]
pub struct BitPerfectDiagnostics {
    pub mode: BitPerfectMode,
    pub is_active: bool,
    pub current_format: Option<AudioFormat>,
    pub device_count: usize,
    pub default_device: Option<DeviceInfo>,
}

/// Law: for any source format that some enumerated device reports
/// supporting — integer-encoded or not — a negotiator whose mode is not
/// Disabled validates it, so `prepare_format` returns exactly the source
/// format and marks the path bit-perfect. (A supporting device also scores
/// above zero, so the scored selection cannot pass it over.)
pub proof fn lemma_native_format_is_kept(m: BitPerfectManager, source: AudioFormat, i: int)
    requires
        m.wf(),
        m.config.mode != BitPerfectMode::Disabled,
        0 <= i < m.device_manager.devices@.len(),
        m.device_manager.devices@[i].spec_supports_format(source),
    ensures
        m.spec_validates(source),
        m.device_manager.devices@[i].spec_score(source) > 0,
{
    assert(m.device_manager.spec_some_device_supports_below(
        source,
        m.device_manager.devices@.len() as int,
    ));
    lemma_supporting_device_scores_positive(m.device_manager.devices@[i], source);
}

} // verus!
