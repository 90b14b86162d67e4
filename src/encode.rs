//! The encoder's invocation: timing from the number of frames found, the scale
//! filter, and the argument list.
use vstd::prelude::*;

use crate::error::DragonflyError;
use crate::frames::Rational;
use crate::text::{
    decimal_text, join_path, joined_path, nat_text, push_arg, texts, thousandths_text,
    thousandths_to_text,
};

verus! {

/// What an encoding run produces.
#[derive(Clone, Debug)]
pub struct EncodeFramesDescriptor {
    /// Desired length of the video, in milliseconds.
    pub length: u64,
    /// Frame rate of the output video, in thousandths of a frame per second.
    pub fps: u64,
    /// The scale as given: a numeric multiplier of both dimensions, or a
    /// literal scale expression.
    pub scale: String,
    /// Where `scale` reads as a number, that number written back in its
    /// shortest decimal form (`1.0` is `1`); `None` where it does not.
    pub scale_number: Option<String>,
}

/// The frame rate at which `total_frame_count` frames last `length_ms`
/// milliseconds, in frames per second.
pub open spec fn spec_input_rate(total_frame_count: nat, length_ms: nat) -> Rational {
    Rational { numer: (total_frame_count * 1000) as i128, denom: length_ms as u64 }
}

/// The input frame rate for the frames found: no frames is `EmptyFrameSet`
/// (never a division by zero), a zero length is `InvalidLength`.
pub fn input_frame_rate(total_frame_count: usize, length_ms: u64) -> (r: Result<
    Rational,
    DragonflyError,
>)
    ensures
        total_frame_count == 0 ==> r == Err::<Rational, DragonflyError>(
            DragonflyError::EmptyFrameSet,
        ),
        total_frame_count > 0 && length_ms == 0 ==> r == Err::<Rational, DragonflyError>(
            DragonflyError::InvalidLength,
        ),
        total_frame_count > 0 && length_ms > 0 ==> r == Ok::<Rational, DragonflyError>(
            spec_input_rate(total_frame_count as nat, length_ms as nat),
        ),
        r matches Ok(rate) ==> rate.is_valid(),
{
    if total_frame_count == 0 {
        Err(DragonflyError::EmptyFrameSet)
    } else if length_ms == 0 {
        Err(DragonflyError::InvalidLength)
    } else {
        Ok(Rational { numer: total_frame_count as i128 * 1000, denom: length_ms })
    }
}

/// The scale filter: `scale=iw*N:ih*N` where the scale reads as the number
/// written `N`, else `scale=S` with the scale expression `S` passed through.
pub open spec fn scale_filter_text(scale: Seq<char>, number: Option<Seq<char>>) -> Seq<char> {
    match number {
        Some(n) => "scale=iw*"@ + n + ":ih*"@ + n,
        None => "scale="@ + scale,
    }
}

pub open spec fn opt_text(s: Option<String>) -> Option<Seq<char>> {
    match s {
        Some(t) => Some(t@),
        None => None,
    }
}

pub fn scale_filter(scale: &str, number: Option<&str>) -> (r: String)
    ensures
        r@ == scale_filter_text(
            scale@,
            match number {
                Some(n) => Some(n@),
                None => None,
            },
        ),
{
    match number {
        Some(n) => {
            let mut s = String::from_str("scale=iw*");
            s.append(n);
            s.append(":ih*");
            s.append(n);
            s
        },
        None => {
            let mut s = String::from_str("scale=");
            s.append(scale);
            s
        },
    }
}

/// The encoder's input: the frame images of `extraction_path` in index order.
pub open spec fn frame_template_text(extraction_path: Seq<char>) -> Seq<char> {
    joined_path(extraction_path, "frame_%08d.jpg"@)
}

/// The encoder's arguments: the input rate that makes the frames last the
/// desired length, the frame template, a still-image H.264 profile, a keyframe
/// interval of one sweep, the scale filter, and the output rate.
pub open spec fn encode_args_text(
    output_path: Seq<char>,
    extraction_path: Seq<char>,
    descriptor: EncodeFramesDescriptor,
    total_frame_count: nat,
) -> Seq<Seq<char>> {
    seq![
        "-hide_banner"@,
        "-loglevel"@,
        "error"@,
        "-nostats"@,
        "-r"@,
        spec_input_rate(total_frame_count, descriptor.length as nat).spec_text(),
        "-i"@,
        frame_template_text(extraction_path),
        "-c:v"@,
        "libx264"@,
        "-preset"@,
        "slow"@,
        "-crf"@,
        "18"@,
        "-pix_fmt"@,
        "yuv420p"@,
        "-tune"@,
        "stillimage"@,
        "-g"@,
        nat_text((total_frame_count - 1) as nat),
        "-vf"@,
        scale_filter_text(descriptor.scale@, opt_text(descriptor.scale_number)),
        "-r"@,
        thousandths_text(descriptor.fps as nat),
        "-y"@,
        output_path,
    ]
}

/// The encoder's arguments for `total_frame_count` frames found in
/// `extraction_path`; fails as `input_frame_rate` does.
pub fn encode_args(
    output_path: &str,
    extraction_path: &str,
    descriptor: &EncodeFramesDescriptor,
    total_frame_count: usize,
) -> (r: Result<Vec<String>, DragonflyError>)
    ensures
        total_frame_count == 0 ==> r == Err::<Vec<String>, DragonflyError>(
            DragonflyError::EmptyFrameSet,
        ),
        total_frame_count > 0 && descriptor.length == 0 ==> r == Err::<
            Vec<String>,
            DragonflyError,
        >(DragonflyError::InvalidLength),
        total_frame_count > 0 && descriptor.length > 0 ==> r is Ok,
        r matches Ok(args) ==> texts(args@) == encode_args_text(
            output_path@,
            extraction_path@,
            *descriptor,
            total_frame_count as nat,
        ),
{
    let rate = match input_frame_rate(total_frame_count, descriptor.length) {
        Ok(rate) => rate,
        Err(e) => {
            return Err(e);
        },
    };
    let mut args: Vec<String> = Vec::new();
    push_arg(&mut args, "-hide_banner");
    push_arg(&mut args, "-loglevel");
    push_arg(&mut args, "error");
    push_arg(&mut args, "-nostats");
    push_arg(&mut args, "-r");
    push_arg(&mut args, rate.to_text().as_str());
    push_arg(&mut args, "-i");
    push_arg(&mut args, join_path(extraction_path, "frame_%08d.jpg").as_str());
    push_arg(&mut args, "-c:v");
    push_arg(&mut args, "libx264");
    push_arg(&mut args, "-preset");
    push_arg(&mut args, "slow");
    push_arg(&mut args, "-crf");
    push_arg(&mut args, "18");
    push_arg(&mut args, "-pix_fmt");
    push_arg(&mut args, "yuv420p");
    push_arg(&mut args, "-tune");
    push_arg(&mut args, "stillimage");
    push_arg(&mut args, "-g");
    push_arg(&mut args, decimal_text((total_frame_count - 1) as u128).as_str());
    push_arg(&mut args, "-vf");
    let number = match &descriptor.scale_number {
        Some(n) => Some(n.as_str()),
        None => None,
    };
    push_arg(&mut args, scale_filter(descriptor.scale.as_str(), number).as_str());
    push_arg(&mut args, "-r");
    push_arg(&mut args, thousandths_to_text(descriptor.fps).as_str());
    push_arg(&mut args, "-y");
    push_arg(&mut args, output_path);
    assert(texts(args@) =~= encode_args_text(
        output_path@,
        extraction_path@,
        *descriptor,
        total_frame_count as nat,
    ));
    Ok(args)
}

/// The outcome of the encoding process, from whether it exited successfully
/// and its exit code where it has one: the code on success, else
/// `FfmpegEncodeFailed` carrying it.
pub fn encode_outcome(exit_success: bool, exit_code: Option<i32>) -> (r: Result<
    Option<i32>,
    DragonflyError,
>)
    ensures
        exit_success ==> r == Ok::<Option<i32>, DragonflyError>(exit_code),
        !exit_success ==> r == Err::<Option<i32>, DragonflyError>(
            DragonflyError::FfmpegEncodeFailed(exit_code),
        ),
{
    if exit_success {
        Ok(exit_code)
    } else {
        Err(DragonflyError::FfmpegEncodeFailed(exit_code))
    }
}

} // verus!
