//! The guarantees that hold across `compile` as a whole, beyond the exact
//! list each single configuration yields: purity, the silence of still
//! captures on accelerator and audio options, and the mutual exclusion of
//! the two accelerator blocks.

use vstd::prelude::*;

use crate::ffmpeg::spec_accel_args;
use crate::ffmpeg::spec_args;
use crate::ffmpeg::spec_audio_block;
use crate::ffmpeg::spec_audio_ok;
use crate::ffmpeg::spec_capture_args;
use crate::ffmpeg::spec_compile;
use crate::ffmpeg::spec_complete;
use crate::ffmpeg::spec_dest_arg;
use crate::ffmpeg::spec_output_args;
use crate::ffmpeg::spec_pos_arg;
use crate::ffmpeg::spec_size_arg;
use crate::ffmpeg::ConfigError;
use crate::ffmpeg::FfmpegBuilder;
use crate::ffmpeg::HwAccelType;
use crate::numfmt::dec_digits;
use crate::numfmt::lemma_dec_digits_are_digits;

verus! {

/// Compilation is a pure function of the configuration: two equal
/// configurations compile to the same outcome, so repeating a call can
/// never change the emitted list.
pub proof fn lemma_compile_deterministic(a: FfmpegBuilder, b: FfmpegBuilder)
    requires
        a == b,
    ensures
        spec_compile(a) == spec_compile(b),
{
}

/// The flags that only the accelerator blocks emit.
pub open spec fn is_accel_flag(s: Seq<char>) -> bool {
    ||| s == "-hwaccel"@
    ||| s == "-vaapi_device"@
    ||| s == "-vf"@
    ||| s == "-bit_rate"@
    ||| s == "-c:v"@
    ||| s == "-vcodec"@
}

/// The flag that only the audio block emits.
pub open spec fn is_audio_flag(s: Seq<char>) -> bool {
    s == "-ac"@
}

/// The flags that only the VAAPI block emits.
pub open spec fn is_vaapi_flag(s: Seq<char>) -> bool {
    ||| s == "-hwaccel"@
    ||| s == "-vaapi_device"@
    ||| s == "-vf"@
    ||| s == "-bit_rate"@
    ||| s == "-c:v"@
}

/// The flag that only the NVENC block emits.
pub open spec fn is_nvenc_flag(s: Seq<char>) -> bool {
    s == "-vcodec"@
}

/// No element of `args` is an accelerator or audio flag.
pub open spec fn omits_accel_and_audio(args: Seq<Seq<char>>) -> bool {
    forall|i: int|
        0 <= i < args.len() ==> !is_accel_flag(#[trigger] args[i]) && !is_audio_flag(args[i])
}

/// No element of `args` is a VAAPI flag.
pub open spec fn omits_vaapi(args: Seq<Seq<char>>) -> bool {
    forall|i: int| 0 <= i < args.len() ==> !is_vaapi_flag(#[trigger] args[i])
}

/// No element of `args` is an NVENC flag.
pub open spec fn omits_nvenc(args: Seq<Seq<char>>) -> bool {
    forall|i: int| 0 <= i < args.len() ==> !is_nvenc_flag(#[trigger] args[i])
}

proof fn lemma_omits_accel_audio_concat(x: Seq<Seq<char>>, y: Seq<Seq<char>>)
    requires
        omits_accel_and_audio(x),
        omits_accel_and_audio(y),
    ensures
        omits_accel_and_audio(x + y),
{
    assert forall|i: int| 0 <= i < (x + y).len() implies !is_accel_flag(#[trigger] (x + y)[i])
        && !is_audio_flag((x + y)[i]) by {
        if i < x.len() {
            assert((x + y)[i] == x[i]);
        } else {
            assert((x + y)[i] == y[i - x.len()]);
        }
    }
}

proof fn lemma_omits_vaapi_concat(x: Seq<Seq<char>>, y: Seq<Seq<char>>)
    requires
        omits_vaapi(x),
        omits_vaapi(y),
    ensures
        omits_vaapi(x + y),
{
    assert forall|i: int| 0 <= i < (x + y).len() implies !is_vaapi_flag(#[trigger] (x + y)[i]) by {
        if i < x.len() {
            assert((x + y)[i] == x[i]);
        } else {
            assert((x + y)[i] == y[i - x.len()]);
        }
    }
}

proof fn lemma_omits_nvenc_concat(x: Seq<Seq<char>>, y: Seq<Seq<char>>)
    requires
        omits_nvenc(x),
        omits_nvenc(y),
    ensures
        omits_nvenc(x + y),
{
    assert forall|i: int| 0 <= i < (x + y).len() implies !is_nvenc_flag(#[trigger] (x + y)[i]) by {
        if i < x.len() {
            assert((x + y)[i] == x[i]);
        } else {
            assert((x + y)[i] == y[i - x.len()]);
        }
    }
}

/// Reveals every constant of the argument list and pins its length (and,
/// where two constants share a length, a distinguishing character), so that
/// the solver can tell any two of them apart.
proof fn lemma_arg_literal_facts()
    ensures
        !is_accel_flag("-video_size"@) && !is_audio_flag("-video_size"@),
        !is_accel_flag("-framerate"@) && !is_audio_flag("-framerate"@),
        !is_accel_flag("60"@) && !is_audio_flag("60"@),
        !is_accel_flag("1"@) && !is_audio_flag("1"@),
        !is_accel_flag("-loglevel"@) && !is_audio_flag("-loglevel"@),
        !is_accel_flag("error"@) && !is_audio_flag("error"@),
        !is_accel_flag("-f"@) && !is_audio_flag("-f"@),
        !is_accel_flag("x11grab"@) && !is_audio_flag("x11grab"@),
        !is_accel_flag("-i"@) && !is_audio_flag("-i"@),
        !is_accel_flag("-vframes"@) && !is_audio_flag("-vframes"@),
        !is_accel_flag("-y"@) && !is_audio_flag("-y"@),
        !is_accel_flag("-bf"@) && !is_audio_flag("-bf"@),
        !is_accel_flag("0"@) && !is_audio_flag("0"@),
        !is_accel_flag("mp4"@) && !is_audio_flag("mp4"@),
        !is_accel_flag("mjpeg"@) && !is_audio_flag("mjpeg"@),
        !is_accel_flag("apng"@) && !is_audio_flag("apng"@),
        !is_accel_flag("pulse"@) && !is_audio_flag("pulse"@),
        !is_accel_flag("alsa"@) && !is_audio_flag("alsa"@),
        !is_accel_flag("jack"@) && !is_audio_flag("jack"@),
        !is_accel_flag("2"@) && !is_audio_flag("2"@),
        !is_nvenc_flag("-hwaccel"@),
        !is_nvenc_flag("vaapi"@),
        !is_nvenc_flag("-vaapi_device"@),
        !is_nvenc_flag("/dev/dri/renderD128"@),
        !is_nvenc_flag("-vf"@),
        !is_nvenc_flag("format=nv12,hwupload"@),
        !is_nvenc_flag("-bit_rate"@),
        !is_nvenc_flag("320k"@),
        !is_nvenc_flag("-c:v"@),
        !is_nvenc_flag("h264_vaapi"@),
        !is_vaapi_flag("-vcodec"@),
        !is_vaapi_flag("h264_nvenc"@),
        !is_vaapi_flag("-ac"@) && !is_nvenc_flag("-ac"@),
{
    reveal_strlit("-hwaccel");
    reveal_strlit("-vaapi_device");
    reveal_strlit("-vf");
    reveal_strlit("-bit_rate");
    reveal_strlit("-c:v");
    reveal_strlit("-vcodec");
    reveal_strlit("-ac");
    reveal_strlit("-video_size");
    reveal_strlit("-framerate");
    reveal_strlit("60");
    reveal_strlit("1");
    reveal_strlit("-loglevel");
    reveal_strlit("error");
    reveal_strlit("-f");
    reveal_strlit("x11grab");
    reveal_strlit("-i");
    reveal_strlit("-vframes");
    reveal_strlit("-y");
    reveal_strlit("-bf");
    reveal_strlit("0");
    reveal_strlit("mp4");
    reveal_strlit("mjpeg");
    reveal_strlit("apng");
    reveal_strlit("pulse");
    reveal_strlit("alsa");
    reveal_strlit("jack");
    reveal_strlit("2");
    reveal_strlit("vaapi");
    reveal_strlit("/dev/dri/renderD128");
    reveal_strlit("format=nv12,hwupload");
    reveal_strlit("320k");
    reveal_strlit("h264_vaapi");
    reveal_strlit("h264_nvenc");
    assert("-hwaccel"@.len() == 8);
    assert("-vaapi_device"@.len() == 13);
    assert("-vf"@.len() == 3);
    assert("-bit_rate"@.len() == 9);
    assert("-c:v"@.len() == 4);
    assert("-vcodec"@.len() == 7);
    assert("-ac"@.len() == 3);
    assert("-video_size"@.len() == 11);
    assert("-framerate"@.len() == 10);
    assert("60"@.len() == 2);
    assert("1"@.len() == 1);
    assert("-loglevel"@.len() == 9);
    assert("error"@.len() == 5);
    assert("-f"@.len() == 2);
    assert("x11grab"@.len() == 7);
    assert("-i"@.len() == 2);
    assert("-vframes"@.len() == 8);
    assert("-y"@.len() == 2);
    assert("-bf"@.len() == 3);
    assert("0"@.len() == 1);
    assert("mp4"@.len() == 3);
    assert("mjpeg"@.len() == 5);
    assert("apng"@.len() == 4);
    assert("pulse"@.len() == 5);
    assert("alsa"@.len() == 4);
    assert("jack"@.len() == 4);
    assert("2"@.len() == 1);
    assert("vaapi"@.len() == 5);
    assert("/dev/dri/renderD128"@.len() == 19);
    assert("format=nv12,hwupload"@.len() == 20);
    assert("320k"@.len() == 4);
    assert("h264_vaapi"@.len() == 10);
    assert("h264_nvenc"@.len() == 10);
    assert("-vf"@[1] == 'v');
    assert("-ac"@[1] == 'a');
    assert("-bf"@[1] == 'b');
    assert("mp4"@[0] == 'm');
    assert("-c:v"@[0] == '-');
    assert("apng"@[0] == 'a');
    assert("alsa"@[0] == 'a');
    assert("jack"@[0] == 'j');
    assert("320k"@[0] == '3');
    assert("-vcodec"@[0] == '-');
    assert("x11grab"@[0] == 'x');
    assert("-hwaccel"@[1] == 'h');
    assert("-vframes"@[1] == 'v');
    assert("-bit_rate"@[1] == 'b');
    assert("-loglevel"@[1] == 'l');
}

proof fn lemma_flags_start_with_dash(s: Seq<char>)
    requires
        s.len() > 0,
        s[0] != '-',
    ensures
        !is_accel_flag(s),
        !is_audio_flag(s),
{
    reveal_strlit("-hwaccel");
    reveal_strlit("-vaapi_device");
    reveal_strlit("-vf");
    reveal_strlit("-bit_rate");
    reveal_strlit("-c:v");
    reveal_strlit("-vcodec");
    reveal_strlit("-ac");
    assert("-hwaccel"@[0] == '-');
    assert("-vaapi_device"@[0] == '-');
    assert("-vf"@[0] == '-');
    assert("-bit_rate"@[0] == '-');
    assert("-c:v"@[0] == '-');
    assert("-vcodec"@[0] == '-');
    assert("-ac"@[0] == '-');
}

proof fn lemma_size_arg_not_flag(w: u32, h: u32)
    ensures
        !is_accel_flag(spec_size_arg(w, h)),
        !is_audio_flag(spec_size_arg(w, h)),
{
    lemma_dec_digits_are_digits(w as nat);
    assert(spec_size_arg(w, h)[0] == dec_digits(w as nat)[0]);
    lemma_flags_start_with_dash(spec_size_arg(w, h));
}

proof fn lemma_pos_arg_not_flag(x: u32, y: u32)
    ensures
        !is_accel_flag(spec_pos_arg(x, y)),
        !is_audio_flag(spec_pos_arg(x, y)),
{
    reveal_strlit(":0.0+");
    assert(":0.0+"@[0] == ':');
    assert(spec_pos_arg(x, y)[0] == ':');
    lemma_flags_start_with_dash(spec_pos_arg(x, y));
}

/// The capture-source block holds no accelerator and no audio flag.
proof fn lemma_capture_block_omits(c: FfmpegBuilder)
    requires
        spec_complete(c),
    ensures
        omits_accel_and_audio(spec_capture_args(c)),
{
    lemma_arg_literal_facts();
    lemma_size_arg_not_flag(c.size_x->0, c.size_y->0);
    lemma_pos_arg_not_flag(c.pos_x->0, c.pos_y->0);
    let a = spec_capture_args(c);
    assert forall|i: int| 0 <= i < a.len() implies !is_accel_flag(#[trigger] a[i])
        && !is_audio_flag(a[i]) by {
        assert(a[1] == spec_size_arg(c.size_x->0, c.size_y->0));
        assert(a[9] == spec_pos_arg(c.pos_x->0, c.pos_y->0));
    }
}

/// The output block holds no accelerator and no audio flag, as long as the
/// destination is not itself named like one.
proof fn lemma_output_block_omits(c: FfmpegBuilder)
    requires
        spec_complete(c),
        !is_accel_flag(spec_dest_arg(c.output)),
        !is_audio_flag(spec_dest_arg(c.output)),
    ensures
        omits_accel_and_audio(spec_output_args(c)),
{
    lemma_arg_literal_facts();
    let a = spec_output_args(c);
    assert forall|i: int| 0 <= i < a.len() implies !is_accel_flag(#[trigger] a[i])
        && !is_audio_flag(a[i]) by {
        assert(a[4] == c.result_type->0.spec_format_name());
        assert(a[5] == spec_dest_arg(c.output));
    }
}

/// The output block holds no VAAPI and no NVENC flag, as long as the
/// destination is not itself named like an accelerator flag.
proof fn lemma_output_block_omits_accel(c: FfmpegBuilder)
    requires
        spec_complete(c),
        !is_accel_flag(spec_dest_arg(c.output)),
    ensures
        omits_vaapi(spec_output_args(c)),
        omits_nvenc(spec_output_args(c)),
{
    lemma_arg_literal_facts();
    let a = spec_output_args(c);
    assert forall|i: int| 0 <= i < a.len() implies !is_vaapi_flag(#[trigger] a[i])
        && !is_nvenc_flag(a[i]) by {
        assert(a[4] == c.result_type->0.spec_format_name());
        assert(a[5] == spec_dest_arg(c.output));
    }
}

/// Every VAAPI flag and every NVENC flag is an accelerator flag, so a list
/// free of accelerator and audio flags is free of both accelerator blocks.
proof fn lemma_omits_accel_audio_covers(args: Seq<Seq<char>>)
    requires
        omits_accel_and_audio(args),
    ensures
        omits_vaapi(args),
        omits_nvenc(args),
{
    assert forall|i: int| 0 <= i < args.len() implies !is_vaapi_flag(#[trigger] args[i]) by {
        assert(!is_accel_flag(args[i]));
    }
    assert forall|i: int| 0 <= i < args.len() implies !is_nvenc_flag(#[trigger] args[i]) by {
        assert(!is_accel_flag(args[i]));
    }
}

/// A still capture is silent on accelerator and audio options: whatever was
/// configured for them, the emitted list holds no accelerator flag and no
/// audio flag. (A destination file deliberately named like one of those
/// flags is the one exception, and is left out here.)
pub proof fn lemma_still_omits_accel_and_audio(c: FfmpegBuilder)
    requires
        spec_complete(c),
        spec_audio_ok(c),
        !(c.result_type->0 is MP4),
        !is_accel_flag(spec_dest_arg(c.output)),
        !is_audio_flag(spec_dest_arg(c.output)),
    ensures
        spec_compile(c) is Ok,
        omits_accel_and_audio(spec_compile(c)->Ok_0),
{
    lemma_capture_block_omits(c);
    lemma_output_block_omits(c);
    let mid = seq!["-vframes"@, "1"@];
    assert(omits_accel_and_audio(mid)) by {
        lemma_arg_literal_facts();
    }
    lemma_omits_accel_audio_concat(spec_capture_args(c), mid);
    lemma_omits_accel_audio_concat(spec_capture_args(c) + mid, spec_output_args(c));
    assert(spec_args(c) == spec_capture_args(c) + mid + spec_output_args(c));
}

/// Between two complete video configurations that differ only in the
/// accelerator choice, everything but the accelerator block is the same:
/// both lists are the shared capture, audio and output blocks around each
/// configuration's own accelerator block.
pub proof fn lemma_accel_changes_only_its_block(c1: FfmpegBuilder, c2: FfmpegBuilder)
    requires
        spec_complete(c1),
        spec_audio_ok(c1),
        c1.result_type->0 is MP4,
        c2.result_type == c1.result_type,
        c2.size_x == c1.size_x,
        c2.size_y == c1.size_y,
        c2.pos_x == c1.pos_x,
        c2.pos_y == c1.pos_y,
        c2.record_audio == c1.record_audio,
        c2.audio_device == c1.audio_device,
        c2.output == c1.output,
    ensures
        spec_capture_args(c2) == spec_capture_args(c1),
        spec_audio_block(c2) == spec_audio_block(c1),
        spec_output_args(c2) == spec_output_args(c1),
        spec_compile(c1) == Ok::<_, ConfigError>(
            spec_capture_args(c1) + spec_audio_block(c1) + spec_accel_args(c1.hw_accel)
                + spec_output_args(c1),
        ),
        spec_compile(c2) == Ok::<_, ConfigError>(
            spec_capture_args(c1) + spec_audio_block(c1) + spec_accel_args(c2.hw_accel)
                + spec_output_args(c1),
        ),
{
    assert(spec_args(c1) =~= spec_capture_args(c1) + spec_audio_block(c1) + spec_accel_args(
        c1.hw_accel,
    ) + spec_output_args(c1));
    assert(spec_args(c2) =~= spec_capture_args(c1) + spec_audio_block(c1) + spec_accel_args(
        c2.hw_accel,
    ) + spec_output_args(c1));
}

/// The audio block holds no VAAPI and no NVENC flag, as long as the device
/// identifier is not itself named like one.
proof fn lemma_audio_block_omits_accel(c: FfmpegBuilder)
    requires
        c.record_audio ==> c.audio_device is Some && !is_accel_flag(
            c.audio_device->0.identifier@,
        ),
    ensures
        omits_vaapi(spec_audio_block(c)),
        omits_nvenc(spec_audio_block(c)),
{
    lemma_arg_literal_facts();
    let a = spec_audio_block(c);
    if c.record_audio && c.audio_device is Some {
        assert forall|i: int| 0 <= i < a.len() implies !is_vaapi_flag(#[trigger] a[i])
            && !is_nvenc_flag(a[i]) by {
            assert(a[1] == c.audio_device->0.backend.spec_name());
            assert(a[3] == c.audio_device->0.channels.spec_count_arg());
            assert(a[5] == c.audio_device->0.identifier@);
        }
    }
}

/// The two accelerator blocks are mutually exclusive: a VAAPI configuration
/// emits no NVENC flag, an NVENC configuration no VAAPI flag, and a
/// configuration without an accelerator neither. (A destination or audio
/// device deliberately named like one of those flags is the one exception,
/// and is left out here.)
pub proof fn lemma_never_both_accel_blocks(c: FfmpegBuilder)
    requires
        spec_complete(c),
        spec_audio_ok(c),
        c.result_type->0 is MP4,
        !is_accel_flag(spec_dest_arg(c.output)),
        c.record_audio ==> !is_accel_flag(c.audio_device->0.identifier@),
    ensures
        spec_compile(c) is Ok,
        c.hw_accel != Some(HwAccelType::NVENC) ==> omits_nvenc(spec_compile(c)->Ok_0),
        c.hw_accel != Some(HwAccelType::VAAPI) ==> omits_vaapi(spec_compile(c)->Ok_0),
{
    lemma_capture_block_omits(c);
    lemma_omits_accel_audio_covers(spec_capture_args(c));
    lemma_output_block_omits_accel(c);
    lemma_audio_block_omits_accel(c);
    let cap = spec_capture_args(c);
    let aud = spec_audio_block(c);
    let acc = spec_accel_args(c.hw_accel);
    let out = spec_output_args(c);
    assert(spec_args(c) == cap + aud + acc + out);
    lemma_arg_literal_facts();
    if c.hw_accel != Some(HwAccelType::NVENC) {
        assert(omits_nvenc(acc)) by {
            if c.hw_accel matches Some(h) && h is VAAPI {
                assert forall|i: int| 0 <= i < acc.len() implies !is_nvenc_flag(
                    #[trigger] acc[i],
                ) by {}
            }
        }
        lemma_omits_nvenc_concat(cap, aud);
        lemma_omits_nvenc_concat(cap + aud, acc);
        lemma_omits_nvenc_concat(cap + aud + acc, out);
    }
    if c.hw_accel != Some(HwAccelType::VAAPI) {
        assert(omits_vaapi(acc)) by {
            if c.hw_accel matches Some(h) && h is NVENC {
                assert forall|i: int| 0 <= i < acc.len() implies !is_vaapi_flag(
                    #[trigger] acc[i],
                ) by {}
            }
        }
        lemma_omits_vaapi_concat(cap, aud);
        lemma_omits_vaapi_concat(cap + aud, acc);
        lemma_omits_vaapi_concat(cap + aud + acc, out);
    }
}

} // verus!
