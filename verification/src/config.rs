//! Configuration of the engine and its surroundings.
//!
//! Ratios and volumes are integers: the target fill level in thousandths,
//! volumes in hundredths. The host layer owns the file formats in which
//! these are stored and converts at the boundary.
use vstd::prelude::*;
use crate::errors::AudioError;

verus! {

/// Settings of the playback pipeline.
#[derive(Debug, Clone)]
pub struct AudioConfig {
    pub buffer_size_frames: usize,
    pub buffer_pool_size: usize,
    pub ring_buffer_size: usize,
    /// Producer target fill level of the ring, in thousandths of capacity.
    pub target_buffer_level_permille: u32,
    pub default_sample_rate: u32,
    pub default_channels: u16,
    pub default_bit_depth: u8,
    pub bitperfect: BitPerfectConfig,
    pub dsp: DSPConfig,
    pub output: OutputConfig,
}

#[derive(Debug, Clone, Copy, PartialEq, Eq, Structural)]
pub struct BitPerfectConfig {
    pub enabled: bool,
    pub prefer_integer: bool,
    pub auto_sample_rate: bool,
    pub allow_resampling: bool,
    pub exclusive_mode: bool,
}

#[derive(Debug, Clone)]
pub struct DSPConfig {
    pub enabled: bool,
    pub resampler_quality: String,
    pub eq_enabled: bool,
    pub eq_bands: Vec<EQBandConfig>,
}

/// One configured band: frequency in Hz, gain in dB, Q in thousandths.
#[derive(Debug, Clone, Copy, PartialEq, Eq, Structural)]
pub struct EQBandConfig {
    pub frequency: u32,
    pub gain_db: i32,
    pub q_milli: u32,
}

impl EQBandConfig {
    pub fn new(frequency: u32, gain_db: i32, q_milli: u32) -> (r: Self)
        ensures
            r.frequency == frequency,
            r.gain_db == gain_db,
            r.q_milli == q_milli,
    {
        Self { frequency, gain_db, q_milli }
    }
}

#[derive(Debug, Clone)]
pub struct OutputConfig {
    pub device_name: Option<String>,
    /// Volume in hundredths, [0, 200].
    pub volume_percent: u32,
    pub latency_ms: u32,
    pub exclusive_mode: bool,
}

impl Default for BitPerfectConfig {
    fn default() -> (r: Self)
        ensures
            r.enabled,
            r.prefer_integer,
            r.auto_sample_rate,
            !r.allow_resampling,
            !r.exclusive_mode,
    {
        Self {
            enabled: true,
            prefer_integer: true,
            auto_sample_rate: true,
            allow_resampling: false,
            exclusive_mode: false,
        }
    }
}

impl Default for DSPConfig {
    fn default() -> (r: Self)
        ensures
            r.enabled,
            r.resampler_quality@ == "high"@,
            !r.eq_enabled,
            r.eq_bands@.len() == 0,
    {
        Self {
            enabled: true,
            resampler_quality: "high".to_owned(),
            eq_enabled: false,
            eq_bands: Vec::new(),
        }
    }
}

impl Default for OutputConfig {
    fn default() -> (r: Self)
        ensures
            r.device_name is None,
            r.volume_percent == 100,
            r.latency_ms == 50,
            !r.exclusive_mode,
    {
        Self { device_name: None, volume_percent: 100, latency_ms: 50, exclusive_mode: false }
    }
}

/// The ceiling machine arithmetic puts on a buffer's frame count: with at
/// most 8 bytes per sample and 8 channels, sizes stay well inside usize.
pub open spec fn max_buffer_frames() -> int {
    0x1000_0000
}

impl AudioConfig {
    /// What `validate` accepts: no zero sizes or rates, a target level in
    /// (0, 1000] thousandths, a volume within [0, 200] hundredths, and a
    /// buffer size machine arithmetic can take.
    pub open spec fn spec_valid(self) -> bool {
        &&& self.buffer_size_frames != 0
        &&& self.buffer_size_frames <= max_buffer_frames()
        &&& self.buffer_pool_size != 0
        &&& self.ring_buffer_size != 0
        &&& 0 < self.target_buffer_level_permille <= 1000
        &&& self.default_sample_rate != 0
        &&& self.default_channels != 0
        &&& self.output.volume_percent <= 200
    }

    /// Accept exactly the configurations `spec_valid` describes; everything
    /// else is an InvalidParameter error.
    pub fn validate(&self) -> (r: Result<(), AudioError>)
        ensures
            r is Ok <==> self.spec_valid(),
            r is Err ==> r->Err_0 is InvalidParameter,
    {
        if self.buffer_size_frames == 0 {
            return Err(AudioError::InvalidParameter("Buffer size frames cannot be 0".to_owned()));
        }
        if self.buffer_size_frames > 0x1000_0000 {
            return Err(AudioError::InvalidParameter("Buffer size frames too large".to_owned()));
        }
        if self.buffer_pool_size == 0 {
            return Err(AudioError::InvalidParameter("Buffer pool size cannot be 0".to_owned()));
        }
        if self.ring_buffer_size == 0 {
            return Err(AudioError::InvalidParameter("Ring buffer size cannot be 0".to_owned()));
        }
        if self.target_buffer_level_permille == 0 || self.target_buffer_level_permille > 1000 {
            return Err(
                AudioError::InvalidParameter("Target buffer level must be between 0 and 1".to_owned()),
            );
        }
        if self.default_sample_rate == 0 {
            return Err(AudioError::InvalidParameter("Default sample rate cannot be 0".to_owned()));
        }
        if self.default_channels == 0 {
            return Err(AudioError::InvalidParameter("Default channels cannot be 0".to_owned()));
        }
        if self.output.volume_percent > 200 {
            return Err(AudioError::InvalidParameter("Volume must be between 0 and 2".to_owned()));
        }
        Ok(())
    }

    pub fn with_buffer_size(self, size: usize) -> (r: Self)
        ensures
            r.buffer_size_frames == size,
            r.buffer_pool_size == self.buffer_pool_size,
            r.ring_buffer_size == self.ring_buffer_size,
            r.target_buffer_level_permille == self.target_buffer_level_permille,
            r.default_sample_rate == self.default_sample_rate,
    {
        Self { buffer_size_frames: size, ..self }
    }

    pub fn with_sample_rate(self, rate: u32) -> (r: Self)
        ensures
            r.default_sample_rate == rate,
            r.buffer_size_frames == self.buffer_size_frames,
    {
        Self { default_sample_rate: rate, ..self }
    }

    pub fn with_channels(self, channels: u16) -> (r: Self)
        ensures
            r.default_channels == channels,
            r.buffer_size_frames == self.buffer_size_frames,
    {
        Self { default_channels: channels, ..self }
    }

    pub fn with_bitperfect(self, enabled: bool) -> (r: Self)
        ensures
            r.bitperfect.enabled == enabled,
            r.buffer_size_frames == self.buffer_size_frames,
    {
        let mut c = self;
        c.bitperfect.enabled = enabled;
        c
    }

    pub fn with_dsp(self, enabled: bool) -> (r: Self)
        ensures
            r.dsp.enabled == enabled,
            r.buffer_size_frames == self.buffer_size_frames,
    {
        let mut c = self;
        c.dsp.enabled = enabled;
        c
    }

    pub fn with_volume(self, volume_percent: i64) -> (r: Self)
        ensures
            r.output.volume_percent == crate::eq::spec_clamp(volume_percent as int, 0, 200),
            r.buffer_size_frames == self.buffer_size_frames,
    {
        let mut c = self;
        c.output.volume_percent = crate::dsp::clamp_percent(volume_percent);
        c
    }
}

impl Default for AudioConfig {
    fn default() -> (r: Self)
        ensures
            r.buffer_size_frames == 4096,
            r.buffer_pool_size == 16,
            r.ring_buffer_size == 65536,
            r.target_buffer_level_permille == 500,
            r.default_sample_rate == 44100,
            r.default_channels == 2,
            r.default_bit_depth == 16,
            r.output.volume_percent == 100,
            r.spec_valid(),
    {
        Self {
            buffer_size_frames: 4096,
            buffer_pool_size: 16,
            ring_buffer_size: 65536,
            target_buffer_level_permille: 500,
            default_sample_rate: 44100,
            default_channels: 2,
            default_bit_depth: 16,
            bitperfect: BitPerfectConfig::default(),
            dsp: DSPConfig::default(),
            output: OutputConfig::default(),
        }
    }
}

#[derive(Debug, Clone)]
pub struct LibraryConfig {
    pub scan_directories: Vec<String>,
    pub auto_scan: bool,
    pub scan_interval_seconds: u64,
    pub watch_changes: bool,
    pub database_path: String,
}

impl Default for LibraryConfig {
    fn default() -> (r: Self)
        ensures
            r.scan_directories@.len() == 0,
            !r.auto_scan,
            r.scan_interval_seconds == 3600,
            r.watch_changes,
            r.database_path@ == "library.db"@,
    {
        Self {
            scan_directories: Vec::new(),
            auto_scan: false,
            scan_interval_seconds: 3600,
            watch_changes: true,
            database_path: "library.db".to_owned(),
        }
    }
}

#[derive(Debug, Clone)]
pub struct IPCConfig {
    pub enabled: bool,
    pub bind_address: String,
    pub port: u16,
    pub max_connections: usize,
}

impl Default for IPCConfig {
    fn default() -> (r: Self)
        ensures
            r.enabled,
            r.bind_address@ == "127.0.0.1"@,
            r.port == 8080,
            r.max_connections == 10,
    {
        Self { enabled: true, bind_address: "127.0.0.1".to_owned(), port: 8080, max_connections: 10 }
    }
}

#[derive(Debug, Clone)]
pub struct LoggingConfig {
    pub level: String,
    pub file_enabled: bool,
    pub file_path: String,
    pub max_file_size_mb: u64,
    pub max_files: u32,
}

impl Default for LoggingConfig {
    fn default() -> (r: Self)
        ensures
            r.level@ == "info"@,
            !r.file_enabled,
            r.max_file_size_mb == 10,
            r.max_files == 5,
    {
        Self {
            level: "info".to_owned(),
            file_enabled: false,
            file_path: "player.log".to_owned(),
            max_file_size_mb: 10,
            max_files: 5,
        }
    }
}

/// The whole application's configuration.
#[derive(Debug, Clone)]
pub struct AppConfig {
    pub audio: AudioConfig,
    pub library: LibraryConfig,
    pub ipc: IPCConfig,
    pub logging: LoggingConfig,
}

impl Default for AppConfig {
    fn default() -> (r: Self)
        ensures
            r.audio.spec_valid(),
            r.ipc.port == 8080,
    {
        Self {
            audio: AudioConfig::default(),
            library: LibraryConfig::default(),
            ipc: IPCConfig::default(),
            logging: LoggingConfig::default(),
        }
    }
}

impl AppConfig {
    /// Accept exactly configurations whose audio section is valid and whose
    /// control channel has a nonzero port and connection limit.
    pub fn validate(&self) -> (r: Result<(), AudioError>)
        ensures
            r is Ok <==> self.audio.spec_valid() && self.ipc.port != 0 && self.ipc.max_connections
                != 0,
            r is Err ==> r->Err_0 is InvalidParameter,
    {
        if let Err(e) = self.audio.validate() {
            return Err(e);
        }
        if self.ipc.port == 0 {
            return Err(AudioError::InvalidParameter("IPC port cannot be 0".to_owned()));
        }
        if self.ipc.max_connections == 0 {
            return Err(AudioError::InvalidParameter("Max connections cannot be 0".to_owned()));
        }
        Ok(())
    }
}

} // verus!
