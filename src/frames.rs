//! Per-frame camera parameters and the rendering tool's invocation.
//!
//! Fields of view are held as integers in thousandths of a degree and
//! orientations as exact rationals, so that the output resolution and every
//! orientation are exact.
use vstd::prelude::*;

use crate::error::DragonflyError;
use crate::text::{
    decimal_text, join_path, joined_path, nat_text, pad_with_zeros, push_arg, rational_text,
    rational_to_text, texts, thousandths_text, thousandths_to_text, zero_padded,
};

verus! {

/// How the rendering tool samples the source image.
#[derive(Clone, Copy, Debug, PartialEq, Eq)]
pub enum Interpolation {
    Near,
    Linear,
    Cubic,
    Lanczos,
    Spline16,
    Lagrange9,
    Gaussian,
    Mitchell,
}

impl Interpolation {
    /// The lower-case name that the rendering tool takes.
    pub open spec fn spec_name(self) -> Seq<char> {
        match self {
            Interpolation::Near => "near"@,
            Interpolation::Linear => "linear"@,
            Interpolation::Cubic => "cubic"@,
            Interpolation::Lanczos => "lanczos"@,
            Interpolation::Spline16 => "spline16"@,
            Interpolation::Lagrange9 => "lagrange9"@,
            Interpolation::Gaussian => "gaussian"@,
            Interpolation::Mitchell => "mitchell"@,
        }
    }

    pub fn name(&self) -> (r: &'static str)
        ensures
            r@ == self.spec_name(),
    {
        match self {
            Interpolation::Near => "near",
            Interpolation::Linear => "linear",
            Interpolation::Cubic => "cubic",
            Interpolation::Lanczos => "lanczos",
            Interpolation::Spline16 => "spline16",
            Interpolation::Lagrange9 => "lagrange9",
            Interpolation::Gaussian => "gaussian",
            Interpolation::Mitchell => "mitchell",
        }
    }

    /// The method whose lower-case name is `s`, if any.
    pub fn from_name(s: &str) -> (r: Option<Interpolation>)
        ensures
            r matches Some(i) ==> i.spec_name() == s@,
            r is None ==> forall|i: Interpolation| #[trigger] i.spec_name() != s@,
    {
        let t = String::from_str(s);
        let all = [
            Interpolation::Near,
            Interpolation::Linear,
            Interpolation::Cubic,
            Interpolation::Lanczos,
            Interpolation::Spline16,
            Interpolation::Lagrange9,
            Interpolation::Gaussian,
            Interpolation::Mitchell,
        ];
        let mut k: usize = 0;
        while k < 8
            invariant
                t@ == s@,
                all@ == seq![
                    Interpolation::Near,
                    Interpolation::Linear,
                    Interpolation::Cubic,
                    Interpolation::Lanczos,
                    Interpolation::Spline16,
                    Interpolation::Lagrange9,
                    Interpolation::Gaussian,
                    Interpolation::Mitchell,
                ],
                k <= 8,
                forall|m: int| 0 <= m < k ==> (#[trigger] all@[m]).spec_name() != s@,
            decreases 8 - k,
        {
            let i = all[k];
            let name = String::from_str(i.name());
            if name == t {
                return Some(i);
            }
            k = k + 1;
        }
        assert forall|i: Interpolation| #[trigger] i.spec_name() != s@ by {
            match i {
                Interpolation::Near => assert(all@[0] == i),
                Interpolation::Linear => assert(all@[1] == i),
                Interpolation::Cubic => assert(all@[2] == i),
                Interpolation::Lanczos => assert(all@[3] == i),
                Interpolation::Spline16 => assert(all@[4] == i),
                Interpolation::Lagrange9 => assert(all@[5] == i),
                Interpolation::Gaussian => assert(all@[6] == i),
                Interpolation::Mitchell => assert(all@[7] == i),
            }
        }
        None
    }
}

/// What an extraction run renders.
#[derive(Clone, Debug)]
pub struct ExtractFramesDescriptor {
    /// Number of frames in one full turn.
    pub frame_count: usize,
    /// Horizontal field of view of the input, in thousandths of a degree.
    pub ih_fov: u32,
    /// Vertical field of view of the input, in thousandths of a degree.
    pub iv_fov: u32,
    /// Horizontal field of view of each output frame, in thousandths of a degree.
    pub h_fov: u32,
    /// Vertical field of view of each output frame, in thousandths of a degree.
    pub v_fov: u32,
    /// Most rendering processes that run at once.
    pub j: usize,
    pub interpolation: Interpolation,
}

impl ExtractFramesDescriptor {
    pub open spec fn fovs_valid(&self) -> bool {
        self.ih_fov > 0 && self.iv_fov > 0 && self.h_fov > 0 && self.v_fov > 0
    }

    /// Every field of view and the concurrency limit are positive.
    pub open spec fn is_valid(&self) -> bool {
        self.fovs_valid() && self.j > 0
    }

    /// Rejects a configuration before any process is spawned.
    pub fn validate(&self) -> (r: Result<(), DragonflyError>)
        ensures
            r is Ok <==> self.is_valid(),
            !self.fovs_valid() ==> r == Err::<(), DragonflyError>(DragonflyError::InvalidFieldOfView),
            self.fovs_valid() && self.j == 0 ==> r == Err::<(), DragonflyError>(
                DragonflyError::InvalidConcurrency,
            ),
    {
        if self.ih_fov == 0 || self.iv_fov == 0 || self.h_fov == 0 || self.v_fov == 0 {
            Err(DragonflyError::InvalidFieldOfView)
        } else if self.j == 0 {
            Err(DragonflyError::InvalidConcurrency)
        } else {
            Ok(())
        }
    }
}

/// Width and height of the source, as the inspection tool reports them.
#[derive(Clone, Copy, Debug, PartialEq, Eq)]
pub struct StreamSize {
    pub width: i64,
    pub height: i64,
}

/// Width and height of the source image in pixels.
#[derive(Clone, Copy, Debug, PartialEq, Eq)]
pub struct SourceResolution {
    pub width: u32,
    pub height: u32,
}

/// Width and height of each rendered frame in pixels.
#[derive(Clone, Copy, Debug, PartialEq, Eq)]
pub struct Resolution {
    pub width: u64,
    pub height: u64,
}

pub open spec fn size_ok(v: i64) -> bool {
    0 < v <= u32::MAX
}

/// The resolution of the first video stream that the inspection tool listed.
pub fn first_stream_resolution(streams: &Vec<StreamSize>) -> (r: Result<
    SourceResolution,
    DragonflyError,
>)
    ensures
        streams@.len() == 0 ==> r == Err::<SourceResolution, DragonflyError>(
            DragonflyError::SourceContainsNoStream,
        ),
        streams@.len() > 0 && !(size_ok(streams@[0].width) && size_ok(streams@[0].height)) ==> r
            == Err::<SourceResolution, DragonflyError>(DragonflyError::InvalidResolution),
        streams@.len() > 0 && size_ok(streams@[0].width) && size_ok(streams@[0].height) ==> r
            == Ok::<SourceResolution, DragonflyError>(
            SourceResolution {
                width: streams@[0].width as u32,
                height: streams@[0].height as u32,
            },
        ),
{
    if streams.len() == 0 {
        return Err(DragonflyError::SourceContainsNoStream);
    }
    let s = streams[0];
    if 0 < s.width && s.width <= u32::MAX as i64 && 0 < s.height && s.height <= u32::MAX as i64 {
        Ok(SourceResolution { width: s.width as u32, height: s.height as u32 })
    } else {
        Err(DragonflyError::InvalidResolution)
    }
}

/// Output size: each source dimension scaled by the ratio of output to input
/// field of view on its axis, truncated.
pub fn output_resolution(descriptor: &ExtractFramesDescriptor, source: &SourceResolution) -> (r:
    Resolution)
    requires
        descriptor.fovs_valid(),
    ensures
        r.width == source.width as nat * descriptor.h_fov as nat / descriptor.ih_fov as nat,
        r.height == source.height as nat * descriptor.v_fov as nat / descriptor.iv_fov as nat,
{
    assert(source.width as nat * descriptor.h_fov as nat <= u32::MAX as nat * u32::MAX as nat)
        by (nonlinear_arith);
    assert(source.height as nat * descriptor.v_fov as nat <= u32::MAX as nat * u32::MAX as nat)
        by (nonlinear_arith);
    let w = source.width as u64 * descriptor.h_fov as u64;
    let h = source.height as u64 * descriptor.v_fov as u64;
    Resolution { width: w / descriptor.ih_fov as u64, height: h / descriptor.iv_fov as u64 }
}

/// An exact rational `numer / denom`: an angle in degrees, or a frame rate
/// in frames per second.
#[derive(Clone, Copy, Debug, PartialEq, Eq)]
pub struct Rational {
    pub numer: i128,
    pub denom: u64,
}

impl Rational {
    pub open spec fn is_valid(self) -> bool {
        self.denom > 0 && self.numer > i128::MIN
    }

    pub open spec fn spec_text(self) -> Seq<char> {
        rational_text(self.numer as int, self.denom as nat)
    }

    /// The number as the media tool reads it.
    pub fn to_text(&self) -> (r: String)
        requires
            self.is_valid(),
        ensures
            r@ == self.spec_text(),
    {
        rational_to_text(self.numer, self.denom)
    }
}

/// The numerator of frame `i`'s yaw over the denominator `n`:
/// `-180 + 360 * i / n` degrees.
pub open spec fn yaw_numer(i: int, n: int) -> int {
    360 * i - 180 * n
}

/// The yaw of frame `i` of `n` as an exact rational.
pub open spec fn spec_yaw(i: int, n: int) -> Rational {
    Rational { numer: yaw_numer(i, n) as i128, denom: n as u64 }
}

/// `a < b` on exact angles with positive denominators.
pub open spec fn rational_lt(a: Rational, b: Rational) -> bool {
    a.numer * b.denom < b.numer * a.denom
}

/// `a == b` in value, on exact angles with positive denominators.
pub open spec fn rational_eq(a: Rational, b: Rational) -> bool {
    a.numer * b.denom == b.numer * a.denom
}

pub open spec fn degrees(d: int) -> Rational {
    Rational { numer: d as i128, denom: 1 }
}

/// The yaw of frame `index` of `frame_count`: the frames sweep one full turn
/// from -180 degrees in equal steps, stopping one step short of +180.
pub fn frame_yaw(index: usize, frame_count: usize) -> (r: Rational)
    requires
        index < frame_count,
    ensures
        r == spec_yaw(index as int, frame_count as int),
        r.is_valid(),
{
    Rational {
        numer: 360 * (index as i128) - 180 * (frame_count as i128),
        denom: frame_count as u64,
    }
}

/// Sweep of the yaw values: for any positive frame count they rise strictly
/// with the frame index (so they are distinct), stay within [-180, 180), start
/// at -180, and never reach +180.
pub proof fn lemma_yaw_sweep(frame_count: usize)
    requires
        frame_count > 0,
    ensures
        rational_eq(spec_yaw(0, frame_count as int), degrees(-180)),
        forall|i: int, k: int|
            0 <= i < k < frame_count ==> rational_lt(
                #[trigger] spec_yaw(i, frame_count as int),
                #[trigger] spec_yaw(k, frame_count as int),
            ),
        forall|i: int|
            0 <= i < frame_count ==> !rational_lt(
                #[trigger] spec_yaw(i, frame_count as int),
                degrees(-180),
            ) && rational_lt(spec_yaw(i, frame_count as int), degrees(180)) && !rational_eq(
                spec_yaw(i, frame_count as int),
                degrees(180),
            ),
{
    let n = frame_count as int;
    assert(n <= u64::MAX);
    assert forall|i: int| 0 <= i < n implies #[trigger] spec_yaw(i, n).numer == 360 * i - 180 * n
        && spec_yaw(i, n).denom == n by {
    }
    assert forall|i: int, k: int| 0 <= i < k < n implies rational_lt(
        #[trigger] spec_yaw(i, n),
        #[trigger] spec_yaw(k, n),
    ) by {
        assert((360 * i - 180 * n) * n < (360 * k - 180 * n) * n) by (nonlinear_arith)
            requires
                i < k,
                n > 0,
        ;
    }
    assert forall|i: int| 0 <= i < n implies !rational_lt(#[trigger] spec_yaw(i, n), degrees(-180))
        && rational_lt(spec_yaw(i, n), degrees(180)) && !rational_eq(spec_yaw(i, n), degrees(180)) by {
        assert(spec_yaw(i, n).numer == 360 * i - 180 * n);
    }
    assert(spec_yaw(0, n).numer == -180 * n);
}

/// The name of frame `index`'s image file: `frame_` and the index padded to eight digits.
pub open spec fn frame_file_name_text(index: nat) -> Seq<char> {
    "frame_"@ + zero_padded(nat_text(index), 8) + ".jpg"@
}

pub fn frame_file_name(index: usize) -> (r: String)
    ensures
        r@ == frame_file_name_text(index as nat),
{
    let mut s = String::from_str("frame_");
    let digits = pad_with_zeros(decimal_text(index as u128), 8);
    s.append(digits.as_str());
    s.append(".jpg");
    s
}

/// One frame to render: its orientation and where its image goes.
#[derive(Clone, Debug)]
pub struct FrameJob {
    pub index: usize,
    pub yaw: Rational,
    pub pitch: Rational,
    pub roll: Rational,
    pub output_path: String,
}

impl FrameJob {
    pub open spec fn is_valid(&self) -> bool {
        self.yaw.is_valid() && self.pitch.is_valid() && self.roll.is_valid()
    }
}

/// The job for frame `index`: the camera turns in yaw only, pitch and roll stay 0,
/// and the image goes into `extraction_path` under its frame file name.
pub fn frame_job(index: usize, frame_count: usize, extraction_path: &str) -> (r: FrameJob)
    requires
        index < frame_count,
    ensures
        r.index == index,
        r.yaw == spec_yaw(index as int, frame_count as int),
        r.pitch == degrees(0),
        r.roll == degrees(0),
        r.output_path@ == joined_path(extraction_path@, frame_file_name_text(index as nat)),
        r.is_valid(),
{
    let name = frame_file_name(index);
    FrameJob {
        index,
        yaw: frame_yaw(index, frame_count),
        pitch: Rational { numer: 0, denom: 1 },
        roll: Rational { numer: 0, denom: 1 },
        output_path: join_path(extraction_path, name.as_str()),
    }
}

/// The projection filter for one frame: equirectangular input, flat output at
/// the job's orientation, the configured fields of view, and the output size
/// derived from them.
pub open spec fn render_filter_text(
    job: FrameJob,
    descriptor: ExtractFramesDescriptor,
    size: Resolution,
) -> Seq<char> {
    "v360=e:flat:yaw="@ + job.yaw.spec_text() + ":pitch="@ + job.pitch.spec_text() + ":roll="@
        + job.roll.spec_text() + ":ih_fov="@ + thousandths_text(descriptor.ih_fov as nat)
        + ":iv_fov="@ + thousandths_text(descriptor.iv_fov as nat) + ":h_fov="@
        + thousandths_text(descriptor.h_fov as nat) + ":v_fov="@ + thousandths_text(
        descriptor.v_fov as nat,
    ) + ":w="@ + nat_text(size.width as nat) + ":h="@ + nat_text(size.height as nat)
        + ":interp="@ + descriptor.interpolation.spec_name()
}

pub fn render_filter(job: &FrameJob, descriptor: &ExtractFramesDescriptor, size: &Resolution) -> (r:
    String)
    requires
        job.is_valid(),
    ensures
        r@ == render_filter_text(*job, *descriptor, *size),
{
    let mut s = String::from_str("v360=e:flat:yaw=");
    s.append(job.yaw.to_text().as_str());
    s.append(":pitch=");
    s.append(job.pitch.to_text().as_str());
    s.append(":roll=");
    s.append(job.roll.to_text().as_str());
    s.append(":ih_fov=");
    s.append(thousandths_to_text(descriptor.ih_fov as u64).as_str());
    s.append(":iv_fov=");
    s.append(thousandths_to_text(descriptor.iv_fov as u64).as_str());
    s.append(":h_fov=");
    s.append(thousandths_to_text(descriptor.h_fov as u64).as_str());
    s.append(":v_fov=");
    s.append(thousandths_to_text(descriptor.v_fov as u64).as_str());
    s.append(":w=");
    s.append(decimal_text(size.width as u128).as_str());
    s.append(":h=");
    s.append(decimal_text(size.height as u128).as_str());
    s.append(":interp=");
    s.append(descriptor.interpolation.name());
    s
}

/// The rendering tool's arguments for one frame: quiet output, the source, the
/// projection filter, and a single still image written over `job.output_path`.
pub open spec fn render_args_text(
    input_path: Seq<char>,
    job: FrameJob,
    descriptor: ExtractFramesDescriptor,
    size: Resolution,
) -> Seq<Seq<char>> {
    seq![
        "-hide_banner"@,
        "-loglevel"@,
        "error"@,
        "-nostats"@,
        "-i"@,
        input_path,
        "-vf"@,
        render_filter_text(job, descriptor, size),
        "-f"@,
        "image2"@,
        "-frames:v"@,
        "1"@,
        "-update"@,
        "1"@,
        "-y"@,
        job.output_path@,
    ]
}

pub fn render_args(
    input_path: &str,
    job: &FrameJob,
    descriptor: &ExtractFramesDescriptor,
    size: &Resolution,
) -> (r: Vec<String>)
    requires
        job.is_valid(),
    ensures
        texts(r@) == render_args_text(input_path@, *job, *descriptor, *size),
{
    let mut args: Vec<String> = Vec::new();
    push_arg(&mut args, "-hide_banner");
    push_arg(&mut args, "-loglevel");
    push_arg(&mut args, "error");
    push_arg(&mut args, "-nostats");
    push_arg(&mut args, "-i");
    push_arg(&mut args, input_path);
    push_arg(&mut args, "-vf");
    let filter = render_filter(job, descriptor, size);
    push_arg(&mut args, filter.as_str());
    push_arg(&mut args, "-f");
    push_arg(&mut args, "image2");
    push_arg(&mut args, "-frames:v");
    push_arg(&mut args, "1");
    push_arg(&mut args, "-update");
    push_arg(&mut args, "1");
    push_arg(&mut args, "-y");
    push_arg(&mut args, job.output_path.as_str());
    assert(texts(args@) =~= render_args_text(input_path@, *job, *descriptor, *size));
    args
}

/// The inspection tool's arguments: the width and height of the first video
/// stream of `input_path`, as compact JSON.
pub open spec fn probe_args_text(input_path: Seq<char>) -> Seq<Seq<char>> {
    seq![
        "-v"@,
        "error"@,
        "-select_streams"@,
        "v:0"@,
        "-show_entries"@,
        "stream=width,height"@,
        "-of"@,
        "json=compact=1"@,
        input_path,
    ]
}

pub fn probe_args(input_path: &str) -> (r: Vec<String>)
    ensures
        texts(r@) == probe_args_text(input_path@),
{
    let mut args: Vec<String> = Vec::new();
    push_arg(&mut args, "-v");
    push_arg(&mut args, "error");
    push_arg(&mut args, "-select_streams");
    push_arg(&mut args, "v:0");
    push_arg(&mut args, "-show_entries");
    push_arg(&mut args, "stream=width,height");
    push_arg(&mut args, "-of");
    push_arg(&mut args, "json=compact=1");
    push_arg(&mut args, input_path);
    assert(texts(args@) =~= probe_args_text(input_path@));
    args
}

} // verus!
