use vstd::prelude::*;

use crate::error::AltoError;
use crate::ext::Capabilities;
use crate::format::{
    ALint, ExtALawFormat, ExtBFormat, ExtDoubleFormat, ExtFloat32Format, ExtMcFormat,
    ExtMuLawBFormat, ExtMuLawFormat, ExtMuLawMcFormat, Format, StandardFormat,
};

verus! {

/// An A-law encoded sample.
#[derive(Copy, Clone, PartialEq, Eq, Hash, Debug)]
pub struct ALawSample(pub u8);

/// A mu-law encoded sample.
#[derive(Copy, Clone, PartialEq, Eq, Hash, Debug)]
pub struct MuLawSample(pub u8);

/// A 32-bit float sample, held as its IEEE 754 bit pattern.
#[derive(Copy, Clone, PartialEq, Eq, Hash, Debug)]
pub struct Float32Sample(pub u32);

/// A 64-bit float sample, held as its IEEE 754 bit pattern.
#[derive(Copy, Clone, PartialEq, Eq, Hash, Debug)]
pub struct Float64Sample(pub u64);

/// A channel layout: a frame of it holds one sample per channel, in the
/// declared order and all of one sample type.
pub trait FrameLayout: Sized + Copy {
    /// Underlying sample type.
    type Sample: Copy;

    /// Length of the frame in samples.
    spec fn frame_len() -> nat;

    /// The frame's samples, channel by channel.
    spec fn samples(self) -> Seq<Self::Sample>;

    /// The frame whose samples are the first `frame_len()` of `s`.
    spec fn from_seq(s: Seq<Self::Sample>) -> Self;

    /// A frame is its samples: `frame_len()` of them, from which it is rebuilt.
    proof fn lemma_layout(self)
        ensures
            0 < Self::frame_len() <= 8,
            self.samples().len() == Self::frame_len(),
            Self::from_seq(self.samples()) == self,
    ;

    /// Building a frame from `frame_len()` samples keeps them, in order.
    proof fn lemma_from_seq(s: Seq<Self::Sample>)
        requires
            s.len() == Self::frame_len(),
        ensures
            Self::from_seq(s).samples() == s,
    ;

    /// Length of the frame in samples.
    fn len() -> (r: usize)
        ensures
            r == Self::frame_len(),
            0 < r <= 8,
    ;

    /// The frame made of the samples `at .. at + len()` of `samples`.
    fn read(samples: &[Self::Sample], at: usize) -> (r: Self)
        requires
            at + Self::frame_len() <= samples@.len(),
        ensures
            r == Self::from_seq(samples@.subrange(at as int, at + Self::frame_len())),
    ;

    /// Stores this frame's samples at `at .. at + len()` of `samples`, leaving
    /// the others as they were.
    fn write(self, samples: &mut [Self::Sample], at: usize)
        requires
            at + Self::frame_len() <= old(samples)@.len(),
        ensures
            final(samples)@ == old(samples)@.subrange(0, at as int) + self.samples()
                + old(samples)@.subrange(at + Self::frame_len(), old(samples)@.len() as int),
    ;

    /// Appends this frame's samples to `out`, channel by channel.
    fn push_samples(self, out: &mut Vec<Self::Sample>)
        ensures
            final(out)@ == old(out)@ + self.samples(),
    ;
}

/// Implemented by structs that represent a frame of audio samples: a channel
/// layout at one sample encoding, which names exactly one format.
pub trait SampleFrame: FrameLayout {
    /// The exact format described by this frame shape.
    spec fn format_spec() -> Format;

    /// The exact format described by this struct.
    fn format() -> (r: Format)
        ensures
            r == Self::format_spec(),
    ;
}

/// Implemented for sample frames specified by the base standard.
pub trait StandardFrame: SampleFrame {
    /// The format of a standard frame is a standard format.
    proof fn lemma_standard()
        ensures
            Self::format_spec() is Standard,
    ;
}

/// One channel.
#[derive(Copy, Clone, PartialEq, Eq, Hash, Debug)]
pub struct Mono<S> {
    pub center: S,
}

/// Two channels, left then right.
#[derive(Copy, Clone, PartialEq, Eq, Hash, Debug)]
pub struct Stereo<S> {
    pub left: S,
    pub right: S,
}

/// One rear channel.
#[derive(Copy, Clone, PartialEq, Eq, Hash, Debug)]
pub struct McRear<S> {
    pub rear: S,
}

/// Four channels: front pair, then back pair.
#[derive(Copy, Clone, PartialEq, Eq, Hash, Debug)]
pub struct McQuad<S> {
    pub front_left: S,
    pub front_right: S,
    pub back_left: S,
    pub back_right: S,
}

/// 5.1 surround.
#[derive(Copy, Clone, PartialEq, Eq, Hash, Debug)]
pub struct Mc51Chn<S> {
    pub front_left: S,
    pub front_right: S,
    pub front_center: S,
    pub low_freq: S,
    pub back_left: S,
    pub back_right: S,
}

/// 6.1 surround.
#[derive(Copy, Clone, PartialEq, Eq, Hash, Debug)]
pub struct Mc61Chn<S> {
    pub front_left: S,
    pub front_right: S,
    pub front_center: S,
    pub low_freq: S,
    pub back_left: S,
    pub back_right: S,
    pub back_center: S,
}

/// 7.1 surround.
#[derive(Copy, Clone, PartialEq, Eq, Hash, Debug)]
pub struct Mc71Chn<S> {
    pub front_left: S,
    pub front_right: S,
    pub front_center: S,
    pub low_freq: S,
    pub back_left: S,
    pub back_right: S,
    pub side_left: S,
    pub side_right: S,
}

/// First-order B-format, horizontal only.
#[derive(Copy, Clone, PartialEq, Eq, Hash, Debug)]
pub struct BFormat2D<S> {
    pub w: S,
    pub x: S,
    pub y: S,
}

/// First-order B-format.
#[derive(Copy, Clone, PartialEq, Eq, Hash, Debug)]
pub struct BFormat3D<S> {
    pub w: S,
    pub x: S,
    pub y: S,
    pub z: S,
}

impl<S: Copy> FrameLayout for Mono<S> {
    type Sample = S;

    open spec fn frame_len() -> nat {
        1
    }

    open spec fn samples(self) -> Seq<S> {
        seq![self.center]
    }

    open spec fn from_seq(s: Seq<S>) -> Self {
        Mono { center: s[0] }
    }

    proof fn lemma_layout(self) {
    }

    proof fn lemma_from_seq(s: Seq<S>) {
        assert(Self::from_seq(s).samples() =~= s);
    }

    fn len() -> (r: usize) {
        1
    }

    fn read(samples: &[S], at: usize) -> (r: Self) {
        Mono { center: samples[at] }
    }

    fn write(self, samples: &mut [S], at: usize) {
        samples[at] = self.center;
        assert(samples@ =~= old(samples)@.subrange(0, at as int) + self.samples()
            + old(samples)@.subrange(at + 1, old(samples)@.len() as int));
    }

    fn push_samples(self, out: &mut Vec<S>) {
        out.push(self.center);
        assert(out@ =~= old(out)@ + self.samples());
    }
}

impl<S: Copy> FrameLayout for Stereo<S> {
    type Sample = S;

    open spec fn frame_len() -> nat {
        2
    }

    open spec fn samples(self) -> Seq<S> {
        seq![self.left, self.right]
    }

    open spec fn from_seq(s: Seq<S>) -> Self {
        Stereo { left: s[0], right: s[1] }
    }

    proof fn lemma_layout(self) {
    }

    proof fn lemma_from_seq(s: Seq<S>) {
        assert(Self::from_seq(s).samples() =~= s);
    }

    fn len() -> (r: usize) {
        2
    }

    fn read(samples: &[S], at: usize) -> (r: Self) {
        Stereo {
            left: samples[at],
            right: samples[at + 1],
        }
    }

    fn write(self, samples: &mut [S], at: usize) {
        samples[at] = self.left;
        samples[at + 1] = self.right;
        assert(samples@ =~= old(samples)@.subrange(0, at as int) + self.samples()
            + old(samples)@.subrange(at + 2, old(samples)@.len() as int));
    }

    fn push_samples(self, out: &mut Vec<S>) {
        out.push(self.left);
        out.push(self.right);
        assert(out@ =~= old(out)@ + self.samples());
    }
}

impl<S: Copy> FrameLayout for McRear<S> {
    type Sample = S;

    open spec fn frame_len() -> nat {
        1
    }

    open spec fn samples(self) -> Seq<S> {
        seq![self.rear]
    }

    open spec fn from_seq(s: Seq<S>) -> Self {
        McRear { rear: s[0] }
    }

    proof fn lemma_layout(self) {
    }

    proof fn lemma_from_seq(s: Seq<S>) {
        assert(Self::from_seq(s).samples() =~= s);
    }

    fn len() -> (r: usize) {
        1
    }

    fn read(samples: &[S], at: usize) -> (r: Self) {
        McRear { rear: samples[at] }
    }

    fn write(self, samples: &mut [S], at: usize) {
        samples[at] = self.rear;
        assert(samples@ =~= old(samples)@.subrange(0, at as int) + self.samples()
            + old(samples)@.subrange(at + 1, old(samples)@.len() as int));
    }

    fn push_samples(self, out: &mut Vec<S>) {
        out.push(self.rear);
        assert(out@ =~= old(out)@ + self.samples());
    }
}

impl<S: Copy> FrameLayout for McQuad<S> {
    type Sample = S;

    open spec fn frame_len() -> nat {
        4
    }

    open spec fn samples(self) -> Seq<S> {
        seq![
            self.front_left,
            self.front_right,
            self.back_left,
            self.back_right,
        ]
    }

    open spec fn from_seq(s: Seq<S>) -> Self {
        McQuad {
            front_left: s[0],
            front_right: s[1],
            back_left: s[2],
            back_right: s[3],
        }
    }

    proof fn lemma_layout(self) {
    }

    proof fn lemma_from_seq(s: Seq<S>) {
        assert(Self::from_seq(s).samples() =~= s);
    }

    fn len() -> (r: usize) {
        4
    }

    fn read(samples: &[S], at: usize) -> (r: Self) {
        McQuad {
            front_left: samples[at],
            front_right: samples[at + 1],
            back_left: samples[at + 2],
            back_right: samples[at + 3],
        }
    }

    fn write(self, samples: &mut [S], at: usize) {
        samples[at] = self.front_left;
        samples[at + 1] = self.front_right;
        samples[at + 2] = self.back_left;
        samples[at + 3] = self.back_right;
        assert(samples@ =~= old(samples)@.subrange(0, at as int) + self.samples()
            + old(samples)@.subrange(at + 4, old(samples)@.len() as int));
    }

    fn push_samples(self, out: &mut Vec<S>) {
        out.push(self.front_left);
        out.push(self.front_right);
        out.push(self.back_left);
        out.push(self.back_right);
        assert(out@ =~= old(out)@ + self.samples());
    }
}

impl<S: Copy> FrameLayout for Mc51Chn<S> {
    type Sample = S;

    open spec fn frame_len() -> nat {
        6
    }

    open spec fn samples(self) -> Seq<S> {
        seq![
            self.front_left,
            self.front_right,
            self.front_center,
            self.low_freq,
            self.back_left,
            self.back_right,
        ]
    }

    open spec fn from_seq(s: Seq<S>) -> Self {
        Mc51Chn {
            front_left: s[0],
            front_right: s[1],
            front_center: s[2],
            low_freq: s[3],
            back_left: s[4],
            back_right: s[5],
        }
    }

    proof fn lemma_layout(self) {
    }

    proof fn lemma_from_seq(s: Seq<S>) {
        assert(Self::from_seq(s).samples() =~= s);
    }

    fn len() -> (r: usize) {
        6
    }

    fn read(samples: &[S], at: usize) -> (r: Self) {
        Mc51Chn {
            front_left: samples[at],
            front_right: samples[at + 1],
            front_center: samples[at + 2],
            low_freq: samples[at + 3],
            back_left: samples[at + 4],
            back_right: samples[at + 5],
        }
    }

    fn write(self, samples: &mut [S], at: usize) {
        samples[at] = self.front_left;
        samples[at + 1] = self.front_right;
        samples[at + 2] = self.front_center;
        samples[at + 3] = self.low_freq;
        samples[at + 4] = self.back_left;
        samples[at + 5] = self.back_right;
        assert(samples@ =~= old(samples)@.subrange(0, at as int) + self.samples()
            + old(samples)@.subrange(at + 6, old(samples)@.len() as int));
    }

    fn push_samples(self, out: &mut Vec<S>) {
        out.push(self.front_left);
        out.push(self.front_right);
        out.push(self.front_center);
        out.push(self.low_freq);
        out.push(self.back_left);
        out.push(self.back_right);
        assert(out@ =~= old(out)@ + self.samples());
    }
}

impl<S: Copy> FrameLayout for Mc61Chn<S> {
    type Sample = S;

    open spec fn frame_len() -> nat {
        7
    }

    open spec fn samples(self) -> Seq<S> {
        seq![
            self.front_left,
            self.front_right,
            self.front_center,
            self.low_freq,
            self.back_left,
            self.back_right,
            self.back_center,
        ]
    }

    open spec fn from_seq(s: Seq<S>) -> Self {
        Mc61Chn {
            front_left: s[0],
            front_right: s[1],
            front_center: s[2],
            low_freq: s[3],
            back_left: s[4],
            back_right: s[5],
            back_center: s[6],
        }
    }

    proof fn lemma_layout(self) {
    }

    proof fn lemma_from_seq(s: Seq<S>) {
        assert(Self::from_seq(s).samples() =~= s);
    }

    fn len() -> (r: usize) {
        7
    }

    fn read(samples: &[S], at: usize) -> (r: Self) {
        Mc61Chn {
            front_left: samples[at],
            front_right: samples[at + 1],
            front_center: samples[at + 2],
            low_freq: samples[at + 3],
            back_left: samples[at + 4],
            back_right: samples[at + 5],
            back_center: samples[at + 6],
        }
    }

    fn write(self, samples: &mut [S], at: usize) {
        samples[at] = self.front_left;
        samples[at + 1] = self.front_right;
        samples[at + 2] = self.front_center;
        samples[at + 3] = self.low_freq;
        samples[at + 4] = self.back_left;
        samples[at + 5] = self.back_right;
        samples[at + 6] = self.back_center;
        assert(samples@ =~= old(samples)@.subrange(0, at as int) + self.samples()
            + old(samples)@.subrange(at + 7, old(samples)@.len() as int));
    }

    fn push_samples(self, out: &mut Vec<S>) {
        out.push(self.front_left);
        out.push(self.front_right);
        out.push(self.front_center);
        out.push(self.low_freq);
        out.push(self.back_left);
        out.push(self.back_right);
        out.push(self.back_center);
        assert(out@ =~= old(out)@ + self.samples());
    }
}

impl<S: Copy> FrameLayout for Mc71Chn<S> {
    type Sample = S;

    open spec fn frame_len() -> nat {
        8
    }

    open spec fn samples(self) -> Seq<S> {
        seq![
            self.front_left,
            self.front_right,
            self.front_center,
            self.low_freq,
            self.back_left,
            self.back_right,
            self.side_left,
            self.side_right,
        ]
    }

    open spec fn from_seq(s: Seq<S>) -> Self {
        Mc71Chn {
            front_left: s[0],
            front_right: s[1],
            front_center: s[2],
            low_freq: s[3],
            back_left: s[4],
            back_right: s[5],
            side_left: s[6],
            side_right: s[7],
        }
    }

    proof fn lemma_layout(self) {
    }

    proof fn lemma_from_seq(s: Seq<S>) {
        assert(Self::from_seq(s).samples() =~= s);
    }

    fn len() -> (r: usize) {
        8
    }

    fn read(samples: &[S], at: usize) -> (r: Self) {
        Mc71Chn {
            front_left: samples[at],
            front_right: samples[at + 1],
            front_center: samples[at + 2],
            low_freq: samples[at + 3],
            back_left: samples[at + 4],
            back_right: samples[at + 5],
            side_left: samples[at + 6],
            side_right: samples[at + 7],
        }
    }

    fn write(self, samples: &mut [S], at: usize) {
        samples[at] = self.front_left;
        samples[at + 1] = self.front_right;
        samples[at + 2] = self.front_center;
        samples[at + 3] = self.low_freq;
        samples[at + 4] = self.back_left;
        samples[at + 5] = self.back_right;
        samples[at + 6] = self.side_left;
        samples[at + 7] = self.side_right;
        assert(samples@ =~= old(samples)@.subrange(0, at as int) + self.samples()
            + old(samples)@.subrange(at + 8, old(samples)@.len() as int));
    }

    fn push_samples(self, out: &mut Vec<S>) {
        out.push(self.front_left);
        out.push(self.front_right);
        out.push(self.front_center);
        out.push(self.low_freq);
        out.push(self.back_left);
        out.push(self.back_right);
        out.push(self.side_left);
        out.push(self.side_right);
        assert(out@ =~= old(out)@ + self.samples());
    }
}

impl<S: Copy> FrameLayout for BFormat2D<S> {
    type Sample = S;

    open spec fn frame_len() -> nat {
        3
    }

    open spec fn samples(self) -> Seq<S> {
        seq![self.w, self.x, self.y]
    }

    open spec fn from_seq(s: Seq<S>) -> Self {
        BFormat2D { w: s[0], x: s[1], y: s[2] }
    }

    proof fn lemma_layout(self) {
    }

    proof fn lemma_from_seq(s: Seq<S>) {
        assert(Self::from_seq(s).samples() =~= s);
    }

    fn len() -> (r: usize) {
        3
    }

    fn read(samples: &[S], at: usize) -> (r: Self) {
        BFormat2D {
            w: samples[at],
            x: samples[at + 1],
            y: samples[at + 2],
        }
    }

    fn write(self, samples: &mut [S], at: usize) {
        samples[at] = self.w;
        samples[at + 1] = self.x;
        samples[at + 2] = self.y;
        assert(samples@ =~= old(samples)@.subrange(0, at as int) + self.samples()
            + old(samples)@.subrange(at + 3, old(samples)@.len() as int));
    }

    fn push_samples(self, out: &mut Vec<S>) {
        out.push(self.w);
        out.push(self.x);
        out.push(self.y);
        assert(out@ =~= old(out)@ + self.samples());
    }
}

impl<S: Copy> FrameLayout for BFormat3D<S> {
    type Sample = S;

    open spec fn frame_len() -> nat {
        4
    }

    open spec fn samples(self) -> Seq<S> {
        seq![
            self.w,
            self.x,
            self.y,
            self.z,
        ]
    }

    open spec fn from_seq(s: Seq<S>) -> Self {
        BFormat3D {
            w: s[0],
            x: s[1],
            y: s[2],
            z: s[3],
        }
    }

    proof fn lemma_layout(self) {
    }

    proof fn lemma_from_seq(s: Seq<S>) {
        assert(Self::from_seq(s).samples() =~= s);
    }

    fn len() -> (r: usize) {
        4
    }

    fn read(samples: &[S], at: usize) -> (r: Self) {
        BFormat3D {
            w: samples[at],
            x: samples[at + 1],
            y: samples[at + 2],
            z: samples[at + 3],
        }
    }

    fn write(self, samples: &mut [S], at: usize) {
        samples[at] = self.w;
        samples[at + 1] = self.x;
        samples[at + 2] = self.y;
        samples[at + 3] = self.z;
        assert(samples@ =~= old(samples)@.subrange(0, at as int) + self.samples()
            + old(samples)@.subrange(at + 4, old(samples)@.len() as int));
    }

    fn push_samples(self, out: &mut Vec<S>) {
        out.push(self.w);
        out.push(self.x);
        out.push(self.y);
        out.push(self.z);
        assert(out@ =~= old(out)@ + self.samples());
    }
}

impl SampleFrame for Mono<u8> {
    open spec fn format_spec() -> Format {
        Format::Standard(StandardFormat::MonoU8)
    }

    fn format() -> (r: Format) {
        Format::Standard(StandardFormat::MonoU8)
    }
}

impl SampleFrame for Mono<i16> {
    open spec fn format_spec() -> Format {
        Format::Standard(StandardFormat::MonoI16)
    }

    fn format() -> (r: Format) {
        Format::Standard(StandardFormat::MonoI16)
    }
}

impl SampleFrame for Mono<Float32Sample> {
    open spec fn format_spec() -> Format {
        Format::ExtFloat32(ExtFloat32Format::Mono)
    }

    fn format() -> (r: Format) {
        Format::ExtFloat32(ExtFloat32Format::Mono)
    }
}

impl SampleFrame for Mono<Float64Sample> {
    open spec fn format_spec() -> Format {
        Format::ExtDouble(ExtDoubleFormat::Mono)
    }

    fn format() -> (r: Format) {
        Format::ExtDouble(ExtDoubleFormat::Mono)
    }
}

impl SampleFrame for Mono<ALawSample> {
    open spec fn format_spec() -> Format {
        Format::ExtALaw(ExtALawFormat::Mono)
    }

    fn format() -> (r: Format) {
        Format::ExtALaw(ExtALawFormat::Mono)
    }
}

impl SampleFrame for Mono<MuLawSample> {
    open spec fn format_spec() -> Format {
        Format::ExtMuLaw(ExtMuLawFormat::Mono)
    }

    fn format() -> (r: Format) {
        Format::ExtMuLaw(ExtMuLawFormat::Mono)
    }
}

impl SampleFrame for Stereo<u8> {
    open spec fn format_spec() -> Format {
        Format::Standard(StandardFormat::StereoU8)
    }

    fn format() -> (r: Format) {
        Format::Standard(StandardFormat::StereoU8)
    }
}

impl SampleFrame for Stereo<i16> {
    open spec fn format_spec() -> Format {
        Format::Standard(StandardFormat::StereoI16)
    }

    fn format() -> (r: Format) {
        Format::Standard(StandardFormat::StereoI16)
    }
}

impl SampleFrame for Stereo<Float32Sample> {
    open spec fn format_spec() -> Format {
        Format::ExtFloat32(ExtFloat32Format::Stereo)
    }

    fn format() -> (r: Format) {
        Format::ExtFloat32(ExtFloat32Format::Stereo)
    }
}

impl SampleFrame for Stereo<Float64Sample> {
    open spec fn format_spec() -> Format {
        Format::ExtDouble(ExtDoubleFormat::Stereo)
    }

    fn format() -> (r: Format) {
        Format::ExtDouble(ExtDoubleFormat::Stereo)
    }
}

impl SampleFrame for Stereo<ALawSample> {
    open spec fn format_spec() -> Format {
        Format::ExtALaw(ExtALawFormat::Stereo)
    }

    fn format() -> (r: Format) {
        Format::ExtALaw(ExtALawFormat::Stereo)
    }
}

impl SampleFrame for Stereo<MuLawSample> {
    open spec fn format_spec() -> Format {
        Format::ExtMuLaw(ExtMuLawFormat::Stereo)
    }

    fn format() -> (r: Format) {
        Format::ExtMuLaw(ExtMuLawFormat::Stereo)
    }
}

impl SampleFrame for McRear<u8> {
    open spec fn format_spec() -> Format {
        Format::ExtMcFormats(ExtMcFormat::RearU8)
    }

    fn format() -> (r: Format) {
        Format::ExtMcFormats(ExtMcFormat::RearU8)
    }
}

impl SampleFrame for McRear<i16> {
    open spec fn format_spec() -> Format {
        Format::ExtMcFormats(ExtMcFormat::RearI16)
    }

    fn format() -> (r: Format) {
        Format::ExtMcFormats(ExtMcFormat::RearI16)
    }
}

impl SampleFrame for McRear<Float32Sample> {
    open spec fn format_spec() -> Format {
        Format::ExtMcFormats(ExtMcFormat::RearF32)
    }

    fn format() -> (r: Format) {
        Format::ExtMcFormats(ExtMcFormat::RearF32)
    }
}

impl SampleFrame for McRear<MuLawSample> {
    open spec fn format_spec() -> Format {
        Format::ExtMuLawMcFormats(ExtMuLawMcFormat::Rear)
    }

    fn format() -> (r: Format) {
        Format::ExtMuLawMcFormats(ExtMuLawMcFormat::Rear)
    }
}

impl SampleFrame for McQuad<u8> {
    open spec fn format_spec() -> Format {
        Format::ExtMcFormats(ExtMcFormat::QuadU8)
    }

    fn format() -> (r: Format) {
        Format::ExtMcFormats(ExtMcFormat::QuadU8)
    }
}

impl SampleFrame for McQuad<i16> {
    open spec fn format_spec() -> Format {
        Format::ExtMcFormats(ExtMcFormat::QuadI16)
    }

    fn format() -> (r: Format) {
        Format::ExtMcFormats(ExtMcFormat::QuadI16)
    }
}

impl SampleFrame for McQuad<Float32Sample> {
    open spec fn format_spec() -> Format {
        Format::ExtMcFormats(ExtMcFormat::QuadF32)
    }

    fn format() -> (r: Format) {
        Format::ExtMcFormats(ExtMcFormat::QuadF32)
    }
}

impl SampleFrame for McQuad<MuLawSample> {
    open spec fn format_spec() -> Format {
        Format::ExtMuLawMcFormats(ExtMuLawMcFormat::Quad)
    }

    fn format() -> (r: Format) {
        Format::ExtMuLawMcFormats(ExtMuLawMcFormat::Quad)
    }
}

impl SampleFrame for Mc51Chn<u8> {
    open spec fn format_spec() -> Format {
        Format::ExtMcFormats(ExtMcFormat::Mc51ChnU8)
    }

    fn format() -> (r: Format) {
        Format::ExtMcFormats(ExtMcFormat::Mc51ChnU8)
    }
}

impl SampleFrame for Mc51Chn<i16> {
    open spec fn format_spec() -> Format {
        Format::ExtMcFormats(ExtMcFormat::Mc51ChnI16)
    }

    fn format() -> (r: Format) {
        Format::ExtMcFormats(ExtMcFormat::Mc51ChnI16)
    }
}

impl SampleFrame for Mc51Chn<Float32Sample> {
    open spec fn format_spec() -> Format {
        Format::ExtMcFormats(ExtMcFormat::Mc51ChnF32)
    }

    fn format() -> (r: Format) {
        Format::ExtMcFormats(ExtMcFormat::Mc51ChnF32)
    }
}

impl SampleFrame for Mc51Chn<MuLawSample> {
    open spec fn format_spec() -> Format {
        Format::ExtMuLawMcFormats(ExtMuLawMcFormat::Mc51Chn)
    }

    fn format() -> (r: Format) {
        Format::ExtMuLawMcFormats(ExtMuLawMcFormat::Mc51Chn)
    }
}

impl SampleFrame for Mc61Chn<u8> {
    open spec fn format_spec() -> Format {
        Format::ExtMcFormats(ExtMcFormat::Mc61ChnU8)
    }

    fn format() -> (r: Format) {
        Format::ExtMcFormats(ExtMcFormat::Mc61ChnU8)
    }
}

impl SampleFrame for Mc61Chn<i16> {
    open spec fn format_spec() -> Format {
        Format::ExtMcFormats(ExtMcFormat::Mc61ChnI16)
    }

    fn format() -> (r: Format) {
        Format::ExtMcFormats(ExtMcFormat::Mc61ChnI16)
    }
}

impl SampleFrame for Mc61Chn<Float32Sample> {
    open spec fn format_spec() -> Format {
        Format::ExtMcFormats(ExtMcFormat::Mc61ChnF32)
    }

    fn format() -> (r: Format) {
        Format::ExtMcFormats(ExtMcFormat::Mc61ChnF32)
    }
}

impl SampleFrame for Mc61Chn<MuLawSample> {
    open spec fn format_spec() -> Format {
        Format::ExtMuLawMcFormats(ExtMuLawMcFormat::Mc61Chn)
    }

    fn format() -> (r: Format) {
        Format::ExtMuLawMcFormats(ExtMuLawMcFormat::Mc61Chn)
    }
}

impl SampleFrame for Mc71Chn<u8> {
    open spec fn format_spec() -> Format {
        Format::ExtMcFormats(ExtMcFormat::Mc71ChnU8)
    }

    fn format() -> (r: Format) {
        Format::ExtMcFormats(ExtMcFormat::Mc71ChnU8)
    }
}

impl SampleFrame for Mc71Chn<i16> {
    open spec fn format_spec() -> Format {
        Format::ExtMcFormats(ExtMcFormat::Mc71ChnI16)
    }

    fn format() -> (r: Format) {
        Format::ExtMcFormats(ExtMcFormat::Mc71ChnI16)
    }
}

impl SampleFrame for Mc71Chn<Float32Sample> {
    open spec fn format_spec() -> Format {
        Format::ExtMcFormats(ExtMcFormat::Mc71ChnF32)
    }

    fn format() -> (r: Format) {
        Format::ExtMcFormats(ExtMcFormat::Mc71ChnF32)
    }
}

impl SampleFrame for Mc71Chn<MuLawSample> {
    open spec fn format_spec() -> Format {
        Format::ExtMuLawMcFormats(ExtMuLawMcFormat::Mc71Chn)
    }

    fn format() -> (r: Format) {
        Format::ExtMuLawMcFormats(ExtMuLawMcFormat::Mc71Chn)
    }
}

impl SampleFrame for BFormat2D<u8> {
    open spec fn format_spec() -> Format {
        Format::ExtBFormat(ExtBFormat::B2DU8)
    }

    fn format() -> (r: Format) {
        Format::ExtBFormat(ExtBFormat::B2DU8)
    }
}

impl SampleFrame for BFormat2D<i16> {
    open spec fn format_spec() -> Format {
        Format::ExtBFormat(ExtBFormat::B2DI16)
    }

    fn format() -> (r: Format) {
        Format::ExtBFormat(ExtBFormat::B2DI16)
    }
}

impl SampleFrame for BFormat2D<Float32Sample> {
    open spec fn format_spec() -> Format {
        Format::ExtBFormat(ExtBFormat::B2DF32)
    }

    fn format() -> (r: Format) {
        Format::ExtBFormat(ExtBFormat::B2DF32)
    }
}

impl SampleFrame for BFormat2D<MuLawSample> {
    open spec fn format_spec() -> Format {
        Format::ExtMuLawBFormat(ExtMuLawBFormat::B2D)
    }

    fn format() -> (r: Format) {
        Format::ExtMuLawBFormat(ExtMuLawBFormat::B2D)
    }
}

impl SampleFrame for BFormat3D<u8> {
    open spec fn format_spec() -> Format {
        Format::ExtBFormat(ExtBFormat::B3DU8)
    }

    fn format() -> (r: Format) {
        Format::ExtBFormat(ExtBFormat::B3DU8)
    }
}

impl SampleFrame for BFormat3D<i16> {
    open spec fn format_spec() -> Format {
        Format::ExtBFormat(ExtBFormat::B3DI16)
    }

    fn format() -> (r: Format) {
        Format::ExtBFormat(ExtBFormat::B3DI16)
    }
}

impl SampleFrame for BFormat3D<Float32Sample> {
    open spec fn format_spec() -> Format {
        Format::ExtBFormat(ExtBFormat::B3DF32)
    }

    fn format() -> (r: Format) {
        Format::ExtBFormat(ExtBFormat::B3DF32)
    }
}

impl SampleFrame for BFormat3D<MuLawSample> {
    open spec fn format_spec() -> Format {
        Format::ExtMuLawBFormat(ExtMuLawBFormat::B3D)
    }

    fn format() -> (r: Format) {
        Format::ExtMuLawBFormat(ExtMuLawBFormat::B3D)
    }
}

impl StandardFrame for Mono<u8> {
    proof fn lemma_standard() {
    }
}

impl StandardFrame for Mono<i16> {
    proof fn lemma_standard() {
    }
}

impl StandardFrame for Stereo<u8> {
    proof fn lemma_standard() {
    }
}

impl StandardFrame for Stereo<i16> {
    proof fn lemma_standard() {
    }
}

/// The format of a standard frame resolves to its fixed token, with or without
/// a session.
pub proof fn lemma_standard_frame_resolves<F: StandardFrame>(ctx: Option<&Capabilities>)
    ensures
        F::format_spec().raw_in(ctx) == Ok::<ALint, AltoError>(F::format_spec()->Standard_0.raw()),
        F::format_spec().raw_in(ctx) == F::format_spec().raw_in(None),
{
    F::lemma_standard();
}

} // verus!
