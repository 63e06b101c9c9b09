//! A builder for the argument list of an external screen-capture invocation
//! of ffmpeg: typed capture options go in through setters, and one `compile`
//! call validates the configuration and emits the ordered argument list.

use vstd::prelude::*;
use vstd::string::StrSliceExecFns;
use vstd::string::StringExecFns;

use crate::numfmt::dec_digits;
use crate::numfmt::u32_to_string;

verus! {

/// The kind of capture the emitted command produces.
#[derive(Clone, Copy, Debug, PartialEq, Eq, Structural)]
pub enum ResultType {
    MP4,
    JPG,
    PNG,
}

/// Hardware video-encoding backend used in place of software encoding.
#[derive(Clone, Copy, Debug, PartialEq, Eq, Structural)]
pub enum HwAccelType {
    VAAPI,
    NVENC,
}

/// Audio system the capture reads from when audio recording is on.
#[derive(Clone, Copy, Debug, PartialEq, Eq, Structural)]
pub enum AudioBackend {
    PULSE,
    ALSA,
    JACK,
}

/// Number of audio channels to record.
#[derive(Clone, Copy, Debug, PartialEq, Eq, Structural)]
pub enum AudioChannels {
    MONO,
    STEREO,
}

/// The audio input: which backend, which device on it, and how many channels.
#[derive(Clone, Debug)]
pub struct AudioDevice {
    pub backend: AudioBackend,
    pub identifier: String,
    pub channels: AudioChannels,
}

/// Where the capture goes: a file path, or standard output (the `"-"` marker).
#[derive(Clone, Debug)]
pub enum Output {
    STREAM,
    FILE(String),
}

/// One failure the library reports: a token no parse function recognizes,
/// a compilation on a configuration with a required field unset, or audio
/// recording requested without an audio device.
#[derive(Clone, Copy, Debug, PartialEq, Eq, Structural)]
pub enum ConfigError {
    UnrecognizedValue,
    IncompleteConfiguration,
    MissingAudioDevice,
}

/// ASCII case folding: 'A'..='Z' map to 'a'..='z'; all else is unchanged.
pub open spec fn lower_ascii(c: char) -> char {
    if 'A' <= c && c <= 'Z' {
        ((c as u32) + 32) as char
    } else {
        c
    }
}

/// `s` folded to lower case, character by character.
pub open spec fn lower_seq(s: Seq<char>) -> Seq<char> {
    s.map_values(|c: char| lower_ascii(c))
}

fn to_lower_char(c: char) -> (r: char)
    ensures
        r == lower_ascii(c),
{
    let u = c as u32;
    if 65 <= u && u <= 90 {
        ((u + 32) as u8) as char
    } else {
        c
    }
}

/// True exactly when `s`, folded to lower case, is the token `t`.
/// `t` must already be lower-case.
fn lower_eq(s: &str, t: &str) -> (r: bool)
    requires
        forall|i: int| 0 <= i < t@.len() ==> lower_ascii(#[trigger] t@[i]) == t@[i],
    ensures
        r == (lower_seq(s@) == t@),
{
    let n = s.unicode_len();
    if n != t.unicode_len() {
        proof {
            assert(lower_seq(s@).len() == s@.len());
        }
        return false;
    }
    let mut i: usize = 0;
    while i < n
        invariant
            n == s@.len() == t@.len(),
            i <= n,
            forall|j: int| 0 <= j < i ==> lower_ascii(#[trigger] s@[j]) == t@[j],
        decreases n - i,
    {
        let sc = to_lower_char(s.get_char(i));
        let tc = t.get_char(i);
        if sc != tc {
            proof {
                assert(lower_seq(s@)[i as int] != t@[i as int]);
            }
            return false;
        }
        i += 1;
    }
    proof {
        assert(lower_seq(s@) =~= t@);
    }
    true
}

impl ResultType {
    /// What parsing a capture-type token yields: `mp4`, `jpg` or `png`,
    /// in any mix of case; anything else is unrecognized.
    pub open spec fn spec_from_str(s: Seq<char>) -> Result<ResultType, ConfigError> {
        if lower_seq(s) == "mp4"@ {
            Ok(ResultType::MP4)
        } else if lower_seq(s) == "jpg"@ {
            Ok(ResultType::JPG)
        } else if lower_seq(s) == "png"@ {
            Ok(ResultType::PNG)
        } else {
            Err(ConfigError::UnrecognizedValue)
        }
    }

    pub fn from_str(s: &str) -> (r: Result<ResultType, ConfigError>)
        ensures
            r == Self::spec_from_str(s@),
    {
        proof {
            reveal_strlit("mp4");
            reveal_strlit("jpg");
            reveal_strlit("png");
        }
        if lower_eq(s, "mp4") {
            Ok(ResultType::MP4)
        } else if lower_eq(s, "jpg") {
            Ok(ResultType::JPG)
        } else if lower_eq(s, "png") {
            Ok(ResultType::PNG)
        } else {
            Err(ConfigError::UnrecognizedValue)
        }
    }
}

impl HwAccelType {
    /// What parsing an accelerator token yields: `nvenc` or `vaapi`,
    /// in any mix of case; anything else is unrecognized.
    pub open spec fn spec_from_str(s: Seq<char>) -> Result<HwAccelType, ConfigError> {
        if lower_seq(s) == "nvenc"@ {
            Ok(HwAccelType::NVENC)
        } else if lower_seq(s) == "vaapi"@ {
            Ok(HwAccelType::VAAPI)
        } else {
            Err(ConfigError::UnrecognizedValue)
        }
    }

    pub fn from_str(s: &str) -> (r: Result<HwAccelType, ConfigError>)
        ensures
            r == Self::spec_from_str(s@),
    {
        proof {
            reveal_strlit("nvenc");
            reveal_strlit("vaapi");
        }
        if lower_eq(s, "nvenc") {
            Ok(HwAccelType::NVENC)
        } else if lower_eq(s, "vaapi") {
            Ok(HwAccelType::VAAPI)
        } else {
            Err(ConfigError::UnrecognizedValue)
        }
    }
}

impl AudioBackend {
    /// What parsing an audio-backend token yields: `pulse`, `jack` or `alsa`,
    /// in any mix of case; anything else is unrecognized.
    pub open spec fn spec_from_str(s: Seq<char>) -> Result<AudioBackend, ConfigError> {
        if lower_seq(s) == "pulse"@ {
            Ok(AudioBackend::PULSE)
        } else if lower_seq(s) == "jack"@ {
            Ok(AudioBackend::JACK)
        } else if lower_seq(s) == "alsa"@ {
            Ok(AudioBackend::ALSA)
        } else {
            Err(ConfigError::UnrecognizedValue)
        }
    }

    pub fn from_str(s: &str) -> (r: Result<AudioBackend, ConfigError>)
        ensures
            r == Self::spec_from_str(s@),
    {
        proof {
            reveal_strlit("pulse");
            reveal_strlit("jack");
            reveal_strlit("alsa");
        }
        if lower_eq(s, "pulse") {
            Ok(AudioBackend::PULSE)
        } else if lower_eq(s, "jack") {
            Ok(AudioBackend::JACK)
        } else if lower_eq(s, "alsa") {
            Ok(AudioBackend::ALSA)
        } else {
            Err(ConfigError::UnrecognizedValue)
        }
    }

    /// The backend's name as ffmpeg's input-format flag expects it.
    pub open spec fn spec_name(self) -> Seq<char> {
        match self {
            AudioBackend::PULSE => "pulse"@,
            AudioBackend::ALSA => "alsa"@,
            AudioBackend::JACK => "jack"@,
        }
    }

    pub fn name(&self) -> (r: String)
        ensures
            r@ == self.spec_name(),
    {
        match self {
            AudioBackend::PULSE => "pulse".to_owned(),
            AudioBackend::ALSA => "alsa".to_owned(),
            AudioBackend::JACK => "jack".to_owned(),
        }
    }
}

impl AudioChannels {
    /// What parsing a channel-count token yields: `mono`/`1` or `stereo`/`2`,
    /// in any mix of case; anything else is unrecognized.
    pub open spec fn spec_from_str(s: Seq<char>) -> Result<AudioChannels, ConfigError> {
        if lower_seq(s) == "mono"@ || lower_seq(s) == "1"@ {
            Ok(AudioChannels::MONO)
        } else if lower_seq(s) == "stereo"@ || lower_seq(s) == "2"@ {
            Ok(AudioChannels::STEREO)
        } else {
            Err(ConfigError::UnrecognizedValue)
        }
    }

    pub fn from_str(s: &str) -> (r: Result<AudioChannels, ConfigError>)
        ensures
            r == Self::spec_from_str(s@),
    {
        proof {
            reveal_strlit("mono");
            reveal_strlit("1");
            reveal_strlit("stereo");
            reveal_strlit("2");
        }
        if lower_eq(s, "mono") || lower_eq(s, "1") {
            Ok(AudioChannels::MONO)
        } else if lower_eq(s, "stereo") || lower_eq(s, "2") {
            Ok(AudioChannels::STEREO)
        } else {
            Err(ConfigError::UnrecognizedValue)
        }
    }

    /// The channel count as the `-ac` flag expects it: one for mono, two for stereo.
    pub open spec fn spec_count_arg(self) -> Seq<char> {
        match self {
            AudioChannels::MONO => "1"@,
            AudioChannels::STEREO => "2"@,
        }
    }

    pub fn count_arg(&self) -> (r: String)
        ensures
            r@ == self.spec_count_arg(),
    {
        match self {
            AudioChannels::MONO => "1".to_owned(),
            AudioChannels::STEREO => "2".to_owned(),
        }
    }
}

impl ResultType {
    /// The container or codec name handed to the output `-f` flag:
    /// a streaming container for video, a single-image codec for stills.
    pub open spec fn spec_format_name(self) -> Seq<char> {
        match self {
            ResultType::MP4 => "mp4"@,
            ResultType::JPG => "mjpeg"@,
            ResultType::PNG => "apng"@,
        }
    }

    pub fn format_name(&self) -> (r: String)
        ensures
            r@ == self.spec_format_name(),
    {
        match self {
            ResultType::MP4 => "mp4".to_owned(),
            ResultType::JPG => "mjpeg".to_owned(),
            ResultType::PNG => "apng".to_owned(),
        }
    }
}

/// The one token that names the stream destination.
pub open spec fn is_stream_token(s: Seq<char>) -> bool {
    s.len() == 1 && s[0] == '-'
}

impl Output {
    /// `"-"` denotes the stream destination; every other string is a file path,
    /// kept as it was given.
    pub fn from_str(s: &str) -> (r: Output)
        ensures
            is_stream_token(s@) ==> r is STREAM,
            !is_stream_token(s@) ==> (r matches Output::FILE(p) && p@ == s@),
    {
        if s.unicode_len() == 1 && s.get_char(0) == '-' {
            Output::STREAM
        } else {
            Output::FILE(s.to_owned())
        }
    }
}

/// The capture configuration. Fields start unset (or off), setters fill them
/// in any order with the last write winning, and `compile` consumes the value.
#[derive(Clone, Debug)]
pub struct FfmpegBuilder {
    pub result_type: Option<ResultType>,
    pub size_x: Option<u32>,
    pub size_y: Option<u32>,
    pub pos_x: Option<u32>,
    pub pos_y: Option<u32>,
    pub record_audio: bool,
    pub hw_accel: Option<HwAccelType>,
    pub audio_device: Option<AudioDevice>,
    pub output: Output,
}

/// The fields `compile` cannot do without: capture kind, size and position.
pub open spec fn spec_complete(c: FfmpegBuilder) -> bool {
    &&& c.result_type is Some
    &&& c.size_x is Some
    &&& c.size_y is Some
    &&& c.pos_x is Some
    &&& c.pos_y is Some
}

/// Audio recording, when requested, needs a device to read from.
pub open spec fn spec_audio_ok(c: FfmpegBuilder) -> bool {
    c.record_audio ==> c.audio_device is Some
}

/// The views of an argument list, element by element.
pub open spec fn arg_views(v: Seq<String>) -> Seq<Seq<char>> {
    Seq::new(v.len(), |i: int| v[i]@)
}

/// `"<w>x<h>"`, the value of the `-video_size` flag.
pub open spec fn spec_size_arg(w: u32, h: u32) -> Seq<char> {
    dec_digits(w as nat) + "x"@ + dec_digits(h as nat)
}

/// `":0.0+<x>,<y>"`, the grab position on the default display.
pub open spec fn spec_pos_arg(x: u32, y: u32) -> Seq<char> {
    ":0.0+"@ + dec_digits(x as nat) + ","@ + dec_digits(y as nat)
}

/// Video records at 60 frames per second; a still grabs at 1.
pub open spec fn spec_framerate_arg(t: ResultType) -> Seq<char> {
    if t is MP4 {
        "60"@
    } else {
        "1"@
    }
}

/// The capture-source block, emitted for every configuration: grab size,
/// framerate, error-only logging, the x11grab input and its position.
pub open spec fn spec_capture_args(c: FfmpegBuilder) -> Seq<Seq<char>>
    recommends
        spec_complete(c),
{
    seq![
        "-video_size"@,
        spec_size_arg(c.size_x->0, c.size_y->0),
        "-framerate"@,
        spec_framerate_arg(c.result_type->0),
        "-loglevel"@,
        "error"@,
        "-f"@,
        "x11grab"@,
        "-i"@,
        spec_pos_arg(c.pos_x->0, c.pos_y->0),
    ]
}

/// The audio-input block for one device.
pub open spec fn spec_audio_args(d: AudioDevice) -> Seq<Seq<char>> {
    seq![
        "-f"@,
        d.backend.spec_name(),
        "-ac"@,
        d.channels.spec_count_arg(),
        "-i"@,
        d.identifier@,
    ]
}

/// The audio-input block of a configuration: present only when audio
/// recording is on and a device is set.
pub open spec fn spec_audio_block(c: FfmpegBuilder) -> Seq<Seq<char>> {
    if c.record_audio && c.audio_device is Some {
        spec_audio_args(c.audio_device->0)
    } else {
        Seq::empty()
    }
}

/// The accelerator block: device selection and encode pipeline for VAAPI,
/// codec selection for NVENC, nothing when no accelerator is set.
pub open spec fn spec_accel_args(h: Option<HwAccelType>) -> Seq<Seq<char>> {
    match h {
        Some(HwAccelType::VAAPI) => seq![
            "-hwaccel"@,
            "vaapi"@,
            "-vaapi_device"@,
            "/dev/dri/renderD128"@,
            "-vf"@,
            "format=nv12,hwupload"@,
            "-bit_rate"@,
            "320k"@,
            "-c:v"@,
            "h264_vaapi"@,
        ],
        Some(HwAccelType::NVENC) => seq!["-vcodec"@, "h264_nvenc"@],
        None => Seq::empty(),
    }
}

/// What stands between the capture-source block and the output block:
/// for video the audio and accelerator blocks, for a still a single-frame
/// count, with audio and accelerator silently ignored.
pub open spec fn spec_format_args(c: FfmpegBuilder) -> Seq<Seq<char>>
    recommends
        spec_complete(c),
{
    if c.result_type->0 is MP4 {
        spec_audio_block(c) + spec_accel_args(c.hw_accel)
    } else {
        seq!["-vframes"@, "1"@]
    }
}

/// The destination argument: the path, or `"-"` for the stream.
pub open spec fn spec_dest_arg(o: Output) -> Seq<char> {
    match o {
        Output::STREAM => "-"@,
        Output::FILE(p) => p@,
    }
}

/// The output block, emitted for every configuration: overwrite, zero
/// B-frames, the explicit container or codec, and the destination.
pub open spec fn spec_output_args(c: FfmpegBuilder) -> Seq<Seq<char>>
    recommends
        spec_complete(c),
{
    seq![
        "-y"@,
        "-bf"@,
        "0"@,
        "-f"@,
        c.result_type->0.spec_format_name(),
        spec_dest_arg(c.output),
    ]
}

/// The whole argument list of a complete configuration, in emission order.
pub open spec fn spec_args(c: FfmpegBuilder) -> Seq<Seq<char>>
    recommends
        spec_complete(c),
{
    spec_capture_args(c) + spec_format_args(c) + spec_output_args(c)
}

/// What `compile` returns, as a function of the configuration alone.
pub open spec fn spec_compile(c: FfmpegBuilder) -> Result<Seq<Seq<char>>, ConfigError> {
    if !spec_complete(c) {
        Err(ConfigError::IncompleteConfiguration)
    } else if !spec_audio_ok(c) {
        Err(ConfigError::MissingAudioDevice)
    } else {
        Ok(spec_args(c))
    }
}

fn push_str_arg(v: &mut Vec<String>, s: &str)
    ensures
        arg_views(final(v)@) == arg_views(old(v)@).push(s@),
{
    v.push(s.to_owned());
    proof {
        assert(arg_views(v@) =~= arg_views(old(v)@).push(s@));
    }
}

fn push_string_arg(v: &mut Vec<String>, s: String)
    ensures
        arg_views(final(v)@) == arg_views(old(v)@).push(s@),
{
    v.push(s);
    proof {
        assert(arg_views(v@) =~= arg_views(old(v)@).push(s@));
    }
}

fn size_arg_string(w: u32, h: u32) -> (s: String)
    ensures
        s@ == spec_size_arg(w, h),
{
    let mut s = u32_to_string(w);
    s.append("x");
    let hs = u32_to_string(h);
    s.append(hs.as_str());
    proof {
        assert(s@ =~= spec_size_arg(w, h));
    }
    s
}

fn pos_arg_string(x: u32, y: u32) -> (s: String)
    ensures
        s@ == spec_pos_arg(x, y),
{
    let mut s = ":0.0+".to_owned();
    crate::numfmt::append_dec(&mut s, x);
    s.append(",");
    crate::numfmt::append_dec(&mut s, y);
    proof {
        assert(s@ =~= spec_pos_arg(x, y));
    }
    s
}

impl FfmpegBuilder {
    /// An empty configuration bound to its output target: nothing else set,
    /// audio recording off.
    pub fn new(output: Output) -> (r: Self)
        ensures
            r.result_type is None,
            r.size_x is None,
            r.size_y is None,
            r.pos_x is None,
            r.pos_y is None,
            r.record_audio == false,
            r.hw_accel is None,
            r.audio_device is None,
            r.output == output,
    {
        FfmpegBuilder {
            result_type: None,
            size_x: None,
            size_y: None,
            pos_x: None,
            pos_y: None,
            record_audio: false,
            hw_accel: None,
            audio_device: None,
            output,
        }
    }

    pub fn set_result_type(self, result_type: ResultType) -> (r: Self)
        ensures
            r.result_type == Some(result_type),
            r.size_x == self.size_x,
            r.size_y == self.size_y,
            r.pos_x == self.pos_x,
            r.pos_y == self.pos_y,
            r.record_audio == self.record_audio,
            r.hw_accel == self.hw_accel,
            r.audio_device == self.audio_device,
            r.output == self.output,
    {
        FfmpegBuilder { result_type: Some(result_type), ..self }
    }

    /// Sets both position coordinates together; they are never set singly.
    pub fn set_position(self, pos_x: u32, pos_y: u32) -> (r: Self)
        ensures
            r.pos_x == Some(pos_x),
            r.pos_y == Some(pos_y),
            r.result_type == self.result_type,
            r.size_x == self.size_x,
            r.size_y == self.size_y,
            r.record_audio == self.record_audio,
            r.hw_accel == self.hw_accel,
            r.audio_device == self.audio_device,
            r.output == self.output,
    {
        FfmpegBuilder { pos_x: Some(pos_x), pos_y: Some(pos_y), ..self }
    }

    pub fn set_record_audio(self, record_audio: bool) -> (r: Self)
        ensures
            r.record_audio == record_audio,
            r.result_type == self.result_type,
            r.size_x == self.size_x,
            r.size_y == self.size_y,
            r.pos_x == self.pos_x,
            r.pos_y == self.pos_y,
            r.hw_accel == self.hw_accel,
            r.audio_device == self.audio_device,
            r.output == self.output,
    {
        FfmpegBuilder { record_audio, ..self }
    }

    /// Sets both size components together; they are never set singly.
    pub fn set_size(self, size_x: u32, size_y: u32) -> (r: Self)
        ensures
            r.size_x == Some(size_x),
            r.size_y == Some(size_y),
            r.result_type == self.result_type,
            r.pos_x == self.pos_x,
            r.pos_y == self.pos_y,
            r.record_audio == self.record_audio,
            r.hw_accel == self.hw_accel,
            r.audio_device == self.audio_device,
            r.output == self.output,
    {
        FfmpegBuilder { size_x: Some(size_x), size_y: Some(size_y), ..self }
    }

    pub fn set_hardware_acceleration(self, hw_accel: HwAccelType) -> (r: Self)
        ensures
            r.hw_accel == Some(hw_accel),
            r.result_type == self.result_type,
            r.size_x == self.size_x,
            r.size_y == self.size_y,
            r.pos_x == self.pos_x,
            r.pos_y == self.pos_y,
            r.record_audio == self.record_audio,
            r.audio_device == self.audio_device,
            r.output == self.output,
    {
        FfmpegBuilder { hw_accel: Some(hw_accel), ..self }
    }

    pub fn set_audio_backend(self, audio_device: AudioDevice) -> (r: Self)
        ensures
            r.audio_device == Some(audio_device),
            r.result_type == self.result_type,
            r.size_x == self.size_x,
            r.size_y == self.size_y,
            r.pos_x == self.pos_x,
            r.pos_y == self.pos_y,
            r.record_audio == self.record_audio,
            r.hw_accel == self.hw_accel,
            r.output == self.output,
    {
        FfmpegBuilder { audio_device: Some(audio_device), ..self }
    }

    /// Validates the configuration and emits the ordered argument list for
    /// the external capture tool: the capture-source block, then the
    /// format-dependent blocks, then the output block. Fails with
    /// `IncompleteConfiguration` exactly when capture kind, size or position
    /// is unset, and with `MissingAudioDevice` exactly when the configuration
    /// is complete, audio recording is on and no device was set.
    #[verifier::rlimit(60)]
    pub fn compile(self) -> (r: Result<Vec<String>, ConfigError>)
        ensures
            r matches Ok(v) ==> spec_compile(self) == Ok::<_, ConfigError>(arg_views(v@)),
            r matches Err(e) ==> spec_compile(self) == Err::<Seq<Seq<char>>, _>(e),
    {
        if self.result_type.is_none() || self.size_x.is_none() || self.size_y.is_none()
            || self.pos_x.is_none() || self.pos_y.is_none() {
            return Err(ConfigError::IncompleteConfiguration);
        }
        if self.record_audio && self.audio_device.is_none() {
            return Err(ConfigError::MissingAudioDevice);
        }
        let FfmpegBuilder {
            result_type,
            size_x,
            size_y,
            pos_x,
            pos_y,
            record_audio,
            hw_accel,
            audio_device,
            output,
        } = self;
        let result_type = result_type.unwrap();
        let mut v: Vec<String> = Vec::new();

        push_str_arg(&mut v, "-video_size");
        push_string_arg(&mut v, size_arg_string(size_x.unwrap(), size_y.unwrap()));
        push_str_arg(&mut v, "-framerate");
        match result_type {
            ResultType::MP4 => push_str_arg(&mut v, "60"),
            _ => push_str_arg(&mut v, "1"),
        }
        push_str_arg(&mut v, "-loglevel");
        push_str_arg(&mut v, "error");
        push_str_arg(&mut v, "-f");
        push_str_arg(&mut v, "x11grab");
        push_str_arg(&mut v, "-i");
        push_string_arg(&mut v, pos_arg_string(pos_x.unwrap(), pos_y.unwrap()));
        proof {
            assert(arg_views(v@) =~= spec_capture_args(self));
        }

        match result_type {
            ResultType::MP4 => {
                if record_audio {
                    let d = audio_device.unwrap();
                    push_str_arg(&mut v, "-f");
                    push_string_arg(&mut v, d.backend.name());
                    push_str_arg(&mut v, "-ac");
                    push_string_arg(&mut v, d.channels.count_arg());
                    push_str_arg(&mut v, "-i");
                    push_string_arg(&mut v, d.identifier);
                }
                proof {
                    assert(arg_views(v@) =~= spec_capture_args(self) + spec_audio_block(self));
                }
                match hw_accel {
                    Some(HwAccelType::VAAPI) => {
                        push_str_arg(&mut v, "-hwaccel");
                        push_str_arg(&mut v, "vaapi");
                        push_str_arg(&mut v, "-vaapi_device");
                        push_str_arg(&mut v, "/dev/dri/renderD128");
                        push_str_arg(&mut v, "-vf");
                        push_str_arg(&mut v, "format=nv12,hwupload");
                        push_str_arg(&mut v, "-bit_rate");
                        push_str_arg(&mut v, "320k");
                        push_str_arg(&mut v, "-c:v");
                        push_str_arg(&mut v, "h264_vaapi");
                    },
                    Some(HwAccelType::NVENC) => {
                        push_str_arg(&mut v, "-vcodec");
                        push_str_arg(&mut v, "h264_nvenc");
                    },
                    None => {},
                }
            },
            _ => {
                push_str_arg(&mut v, "-vframes");
                push_str_arg(&mut v, "1");
            },
        }
        proof {
            assert(arg_views(v@) =~= spec_capture_args(self) + spec_format_args(self));
        }

        push_str_arg(&mut v, "-y");
        push_str_arg(&mut v, "-bf");
        push_str_arg(&mut v, "0");
        push_str_arg(&mut v, "-f");
        push_string_arg(&mut v, result_type.format_name());
        match output {
            Output::FILE(path) => push_string_arg(&mut v, path),
            Output::STREAM => push_str_arg(&mut v, "-"),
        }
        proof {
            assert(arg_views(v@) =~= spec_args(self));
        }
        Ok(v)
    }
}

} // verus!
