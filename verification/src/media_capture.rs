//! Media capture state (camera and microphone) and video frame bookkeeping.
use vstd::prelude::*;

use crate::call_state::clone_opt_string;

verus! {

/// Milliseconds since the Unix epoch by the system clock, or `None` when the clock
/// reads earlier than the epoch.
///
/// Calls `SystemTime::now()` (with `duration_since(UNIX_EPOCH)` and `as_millis()` to
/// convert its result). The reading depends on the machine's clock, so the contract
/// states nothing about it.
#[verifier::external_body]
pub(crate) fn system_time_millis() -> (r: Option<u128>) {
    std::time::SystemTime::now().duration_since(std::time::UNIX_EPOCH).ok().map(|d| d.as_millis())
}

/// The milliseconds a clock reading gives: the reading cut to its low 64 bits, or 0 for
/// a clock that read earlier than the Unix epoch.
pub open spec fn spec_millis_from_reading(reading: Option<u128>) -> u64 {
    match reading {
        Some(ms) => ms as u64,
        None => 0,
    }
}

/// The milliseconds a clock reading gives (see [`spec_millis_from_reading`]).
pub fn millis_from_reading(reading: Option<u128>) -> (m: u64)
    ensures
        m == spec_millis_from_reading(reading),
{
    match reading {
        Some(ms) => ms as u64,
        None => 0,
    }
}

/// The current time in milliseconds since the Unix epoch, truncated to 64 bits, or 0
/// when the clock reads earlier than the epoch: the milliseconds of a reading of the
/// system clock.
pub(crate) fn now_millis() -> (m: u64)
    ensures
        exists|reading: Option<u128>| m == spec_millis_from_reading(reading),
{
    let reading = system_time_millis();
    let m = millis_from_reading(reading);
    assert(m == spec_millis_from_reading(reading));
    m
}

/// State of media capture.
pub struct MediaCaptureState {
    /// Whether video capture is enabled.
    pub video_enabled: bool,
    /// Whether audio capture is enabled.
    pub audio_enabled: bool,
    /// Whether video capture is muted (paused but still captured).
    pub video_muted: bool,
    /// Whether audio capture is muted.
    pub audio_muted: bool,
    /// The currently selected video input device.
    pub video_device_id: Option<String>,
    /// The currently selected audio input device.
    pub audio_device_id: Option<String>,
    /// Error message if capture failed.
    pub error: Option<String>,
}

impl MediaCaptureState {
    /// Nothing enabled, nothing muted, no devices, no error.
    pub fn default() -> (r: Self)
        ensures
            !r.video_enabled,
            !r.audio_enabled,
            !r.video_muted,
            !r.audio_muted,
            r.video_device_id is None,
            r.audio_device_id is None,
            r.error is None,
    {
        MediaCaptureState {
            video_enabled: false,
            audio_enabled: false,
            video_muted: false,
            audio_muted: false,
            video_device_id: None,
            audio_device_id: None,
            error: None,
        }
    }
}

impl Clone for MediaCaptureState {
    fn clone(&self) -> (r: Self)
        ensures
            r == *self,
    {
        MediaCaptureState {
            video_enabled: self.video_enabled,
            audio_enabled: self.audio_enabled,
            video_muted: self.video_muted,
            audio_muted: self.audio_muted,
            video_device_id: clone_opt_string(&self.video_device_id),
            audio_device_id: clone_opt_string(&self.audio_device_id),
            error: clone_opt_string(&self.error),
        }
    }
}

/// Configuration for media capture.
#[derive(Clone, Copy)]
pub struct MediaCaptureConfig {
    /// Whether to enable video capture.
    pub enable_video: bool,
    /// Whether to enable audio capture.
    pub enable_audio: bool,
    /// Preferred video width.
    pub video_width: u32,
    /// Preferred video height.
    pub video_height: u32,
    /// Preferred video frame rate.
    pub video_fps: u32,
}

impl MediaCaptureConfig {
    /// Video and audio at 640x480, 30 frames per second.
    pub fn default() -> (r: Self)
        ensures
            r.enable_video,
            r.enable_audio,
            r.video_width == 640,
            r.video_height == 480,
            r.video_fps == 30,
    {
        MediaCaptureConfig {
            enable_video: true,
            enable_audio: true,
            video_width: 640,
            video_height: 480,
            video_fps: 30,
        }
    }
}

/// Manages media capture from camera and microphone.
pub struct MediaCapture {
    /// Current capture state.
    state: MediaCaptureState,
    /// Configuration.
    config: MediaCaptureConfig,
}

impl MediaCapture {
    /// The current capture state.
    pub closed spec fn spec_state(&self) -> MediaCaptureState {
        self.state
    }

    /// The configuration.
    pub closed spec fn spec_config(&self) -> MediaCaptureConfig {
        self.config
    }

    /// Create a new media capture instance.
    pub fn new(config: MediaCaptureConfig) -> (r: Self)
        ensures
            r.spec_config() == config,
            r.spec_state() == (MediaCaptureState {
                video_enabled: false,
                audio_enabled: false,
                video_muted: false,
                audio_muted: false,
                video_device_id: None,
                audio_device_id: None,
                error: None,
            }),
    {
        MediaCapture { state: MediaCaptureState::default(), config }
    }

    /// Request camera and microphone permissions (no platform request is made).
    pub fn request_permissions() {
    }

    /// Check if we have camera permission: always granted.
    pub fn has_camera_permission() -> (r: bool)
        ensures
            r,
    {
        true
    }

    /// Check if we have microphone permission: always granted.
    pub fn has_microphone_permission() -> (r: bool)
        ensures
            r,
    {
        true
    }

    /// Start video capture.
    pub fn start_video(&mut self) -> (r: Result<(), String>)
        ensures
            r is Ok,
            final(self).spec_config() == old(self).spec_config(),
            final(self).spec_state() == (MediaCaptureState {
                video_enabled: true,
                error: None,
                ..old(self).spec_state()
            }),
    {
        self.state.video_enabled = true;
        self.state.error = None;
        Ok(())
    }

    /// Stop video capture.
    pub fn stop_video(&mut self)
        ensures
            final(self).spec_config() == old(self).spec_config(),
            final(self).spec_state() == (MediaCaptureState {
                video_enabled: false,
                video_device_id: None,
                ..old(self).spec_state()
            }),
    {
        self.state.video_enabled = false;
        self.state.video_device_id = None;
    }

    /// Start audio capture.
    pub fn start_audio(&mut self) -> (r: Result<(), String>)
        ensures
            r is Ok,
            final(self).spec_config() == old(self).spec_config(),
            final(self).spec_state() == (MediaCaptureState {
                audio_enabled: true,
                error: None,
                ..old(self).spec_state()
            }),
    {
        self.state.audio_enabled = true;
        self.state.error = None;
        Ok(())
    }

    /// Stop audio capture.
    pub fn stop_audio(&mut self)
        ensures
            final(self).spec_config() == old(self).spec_config(),
            final(self).spec_state() == (MediaCaptureState {
                audio_enabled: false,
                audio_device_id: None,
                ..old(self).spec_state()
            }),
    {
        self.state.audio_enabled = false;
        self.state.audio_device_id = None;
    }

    /// Mute/unmute video.
    pub fn set_video_muted(&mut self, muted: bool)
        ensures
            final(self).spec_config() == old(self).spec_config(),
            final(self).spec_state() == (MediaCaptureState {
                video_muted: muted,
                ..old(self).spec_state()
            }),
    {
        self.state.video_muted = muted;
    }

    /// Mute/unmute audio.
    pub fn set_audio_muted(&mut self, muted: bool)
        ensures
            final(self).spec_config() == old(self).spec_config(),
            final(self).spec_state() == (MediaCaptureState {
                audio_muted: muted,
                ..old(self).spec_state()
            }),
    {
        self.state.audio_muted = muted;
    }

    /// Toggle video mute state, returning the new state.
    pub fn toggle_video_muted(&mut self) -> (r: bool)
        ensures
            r == !old(self).spec_state().video_muted,
            final(self).spec_state() == video_toggled(old(self).spec_state()),
            final(self).spec_config() == old(self).spec_config(),
            final(self).spec_state() == (MediaCaptureState {
                video_muted: r,
                ..old(self).spec_state()
            }),
    {
        self.state.video_muted = !self.state.video_muted;
        self.state.video_muted
    }

    /// Toggle audio mute state, returning the new state.
    pub fn toggle_audio_muted(&mut self) -> (r: bool)
        ensures
            r == !old(self).spec_state().audio_muted,
            final(self).spec_state() == audio_toggled(old(self).spec_state()),
            final(self).spec_config() == old(self).spec_config(),
            final(self).spec_state() == (MediaCaptureState {
                audio_muted: r,
                ..old(self).spec_state()
            }),
    {
        self.state.audio_muted = !self.state.audio_muted;
        self.state.audio_muted
    }

    /// Get current capture state.
    pub fn state(&self) -> (r: MediaCaptureState)
        ensures
            r == self.spec_state(),
    {
        self.state.clone()
    }

    /// Check if video is currently enabled.
    pub fn is_video_enabled(&self) -> (r: bool)
        ensures
            r == self.spec_state().video_enabled,
    {
        self.state.video_enabled
    }

    /// Check if audio is currently enabled.
    pub fn is_audio_enabled(&self) -> (r: bool)
        ensures
            r == self.spec_state().audio_enabled,
    {
        self.state.audio_enabled
    }

    /// Check if video is muted.
    pub fn is_video_muted(&self) -> (r: bool)
        ensures
            r == self.spec_state().video_muted,
    {
        self.state.video_muted
    }

    /// Check if audio is muted.
    pub fn is_audio_muted(&self) -> (r: bool)
        ensures
            r == self.spec_state().audio_muted,
    {
        self.state.audio_muted
    }

    /// Start the capture the configuration asks for: video, audio, or both.
    pub fn start(&mut self) -> (r: Result<(), String>)
        ensures
            r is Ok,
            final(self).spec_config() == old(self).spec_config(),
            final(self).spec_state() == (MediaCaptureState {
                video_enabled: old(self).spec_config().enable_video || old(self).spec_state().video_enabled,
                audio_enabled: old(self).spec_config().enable_audio || old(self).spec_state().audio_enabled,
                error: if old(self).spec_config().enable_video || old(self).spec_config().enable_audio {
                    None
                } else {
                    old(self).spec_state().error
                },
                ..old(self).spec_state()
            }),
    {
        if self.config.enable_video {
            self.start_video()?;
        }
        if self.config.enable_audio {
            self.start_audio()?;
        }
        Ok(())
    }

    /// Stop both video and audio capture.
    pub fn stop(&mut self)
        ensures
            final(self).spec_config() == old(self).spec_config(),
            final(self).spec_state() == (MediaCaptureState {
                video_enabled: false,
                audio_enabled: false,
                video_device_id: None,
                audio_device_id: None,
                ..old(self).spec_state()
            }),
    {
        self.stop_video();
        self.stop_audio();
    }
}

/// Video frame format.
#[derive(Clone, Copy, PartialEq, Eq, Structural, Debug)]
pub enum VideoFrameFormat {
    /// YUV420 planar format.
    Yuv420,
    /// RGBA format.
    Rgba,
    /// NV12 format (Y plane + interleaved UV).
    Nv12,
}

/// A captured video frame.
pub struct VideoFrame {
    /// YUV or RGB data depending on format.
    pub data: Vec<u8>,
    /// Frame width in pixels.
    pub width: u32,
    /// Frame height in pixels.
    pub height: u32,
    /// Timestamp in milliseconds.
    pub timestamp_ms: u64,
    /// Format of the frame data.
    pub format: VideoFrameFormat,
}

/// The number of bytes a frame of the given size and format needs.
pub open spec fn expected_frame_size(width: u32, height: u32, format: VideoFrameFormat) -> int {
    match format {
        VideoFrameFormat::Yuv420 => (width * height * 3) / 2,
        VideoFrameFormat::Rgba => width * height * 4,
        VideoFrameFormat::Nv12 => (width * height * 3) / 2,
    }
}

impl VideoFrame {
    /// Create a new video frame, stamped with the current time.
    pub fn new(data: Vec<u8>, width: u32, height: u32, format: VideoFrameFormat) -> (r: Self)
        ensures
            r.data == data,
            r.width == width,
            r.height == height,
            r.format == format,
            exists|reading: Option<u128>| r.timestamp_ms == spec_millis_from_reading(reading),
    {
        let timestamp_ms = now_millis();
        VideoFrame { data, width, height, timestamp_ms, format }
    }

    /// Check if the frame data is long enough for the frame's dimensions and format.
    pub fn is_valid(&self) -> (r: bool)
        ensures
            r == (self.data@.len() >= expected_frame_size(self.width, self.height, self.format)),
    {
        let w = self.width as u128;
        let h = self.height as u128;
        assert(w * h <= 0xffff_ffff_ffff_ffffu128 * 1) by (nonlinear_arith)
            requires
                w <= 0xffff_ffff,
                h <= 0xffff_ffff,
        ;
        let area: u128 = w * h;
        let expected_size: u128 = match self.format {
            VideoFrameFormat::Yuv420 | VideoFrameFormat::Nv12 => area * 3 / 2,
            VideoFrameFormat::Rgba => area * 4,
        };
        (self.data.len() as u128) >= expected_size
    }
}


/// The capture state with the video mute flipped.
pub open spec fn video_toggled(s: MediaCaptureState) -> MediaCaptureState {
    MediaCaptureState { video_muted: !s.video_muted, ..s }
}

/// The capture state with the audio mute flipped.
pub open spec fn audio_toggled(s: MediaCaptureState) -> MediaCaptureState {
    MediaCaptureState { audio_muted: !s.audio_muted, ..s }
}

/// Toggling the video mute twice, or the audio mute twice, gives back the state; the two
/// toggles do not affect each other.
pub proof fn law_toggle_twice_restores(s: MediaCaptureState)
    ensures
        video_toggled(video_toggled(s)) == s,
        audio_toggled(audio_toggled(s)) == s,
        video_toggled(audio_toggled(s)) == audio_toggled(video_toggled(s)),
{
}

} // verus!
