use vstd::prelude::*;

use crate::error::{AltoError, AltoResult};
use crate::format::ALint;
use crate::frame::{Float32Sample, Mc51Chn, Mc61Chn, Mc71Chn, McQuad, Mono, SampleFrame, Stereo};

verus! {

/// Channel layouts that a loopback device can render.
#[derive(Copy, Clone, PartialEq, Eq, Hash, Debug, Structural)]
pub enum LoopbackChannels {
    /// `ALC_MONO_SOFT`
    Mono,
    /// `ALC_STEREO_SOFT`
    Stereo,
    /// `ALC_QUAD_SOFT`
    Quad,
    /// `ALC_5POINT1_SOFT`
    Mc51,
    /// `ALC_6POINT1_SOFT`
    Mc61,
    /// `ALC_7POINT1_SOFT`
    Mc71,
}

/// Sample types that a loopback device can render.
#[derive(Copy, Clone, PartialEq, Eq, Hash, Debug, Structural)]
pub enum LoopbackSampleType {
    /// `ALC_UNSIGNED_BYTE_SOFT`
    UnsignedByte,
    /// `ALC_SHORT_SOFT`
    Short,
    /// `ALC_FLOAT_SOFT`
    Float,
}

/// The tokens that the `ALC_SOFT_loopback` capability advertises; `None`
/// where a token was not advertised.
#[derive(Copy, Clone, PartialEq, Eq, Hash, Debug, Structural)]
pub struct SoftLoopback {
    pub mono: Option<ALint>,
    pub stereo: Option<ALint>,
    pub quad: Option<ALint>,
    pub mc51: Option<ALint>,
    pub mc61: Option<ALint>,
    pub mc71: Option<ALint>,
    pub unsigned_byte: Option<ALint>,
    pub short: Option<ALint>,
    pub float: Option<ALint>,
}

/// An advertised token, or `ExtensionNotPresent` when it was not advertised.
pub open spec fn advertised(t: Option<ALint>) -> AltoResult<ALint> {
    match t {
        Some(v) => Ok(v),
        None => Err(AltoError::ExtensionNotPresent),
    }
}

fn require_token(t: Option<ALint>) -> (r: AltoResult<ALint>)
    ensures
        r == advertised(t),
{
    match t {
        Some(v) => Ok(v),
        None => Err(AltoError::ExtensionNotPresent),
    }
}

impl SoftLoopback {
    /// The advertised token for channel layout `c`.
    pub open spec fn channel_token(self, c: LoopbackChannels) -> Option<ALint> {
        match c {
            LoopbackChannels::Mono => self.mono,
            LoopbackChannels::Stereo => self.stereo,
            LoopbackChannels::Quad => self.quad,
            LoopbackChannels::Mc51 => self.mc51,
            LoopbackChannels::Mc61 => self.mc61,
            LoopbackChannels::Mc71 => self.mc71,
        }
    }

    /// The advertised token for sample type `t`.
    pub open spec fn sample_type_token(self, t: LoopbackSampleType) -> Option<ALint> {
        match t {
            LoopbackSampleType::UnsignedByte => self.unsigned_byte,
            LoopbackSampleType::Short => self.short,
            LoopbackSampleType::Float => self.float,
        }
    }

    /// The token for channel layout `c`.
    pub fn channels(&self, c: LoopbackChannels) -> (r: AltoResult<ALint>)
        ensures
            r == advertised(self.channel_token(c)),
    {
        require_token(
            match c {
                LoopbackChannels::Mono => self.mono,
                LoopbackChannels::Stereo => self.stereo,
                LoopbackChannels::Quad => self.quad,
                LoopbackChannels::Mc51 => self.mc51,
                LoopbackChannels::Mc61 => self.mc61,
                LoopbackChannels::Mc71 => self.mc71,
            },
        )
    }

    /// The token for sample type `t`.
    pub fn sample_type(&self, t: LoopbackSampleType) -> (r: AltoResult<ALint>)
        ensures
            r == advertised(self.sample_type_token(t)),
    {
        require_token(
            match t {
                LoopbackSampleType::UnsignedByte => self.unsigned_byte,
                LoopbackSampleType::Short => self.short,
                LoopbackSampleType::Float => self.float,
            },
        )
    }
}

/// Implemented for the sample frames that a loopback device can render.
pub trait LoopbackFrame: SampleFrame {
    /// The frame's channel layout.
    spec fn channel_kind() -> LoopbackChannels;

    /// The frame's sample type.
    spec fn sample_kind() -> LoopbackSampleType;

    /// The channel-layout token of this frame.
    fn channels(sl: &SoftLoopback) -> (r: AltoResult<ALint>)
        ensures
            r == advertised(sl.channel_token(Self::channel_kind())),
    ;

    /// The sample-type token of this frame.
    fn sample_ty(sl: &SoftLoopback) -> (r: AltoResult<ALint>)
        ensures
            r == advertised(sl.sample_type_token(Self::sample_kind())),
    ;
}

/// The channel and sample-type tokens of `F`, or the first failure: the
/// channel token is looked up first.
pub open spec fn loopback_tokens<F: LoopbackFrame>(sl: SoftLoopback) -> AltoResult<(ALint, ALint)> {
    match advertised(sl.channel_token(F::channel_kind())) {
        Err(e) => Err(e),
        Ok(c) => match advertised(sl.sample_type_token(F::sample_kind())) {
            Err(e) => Err(e),
            Ok(t) => Ok((c, t)),
        },
    }
}

/// Resolves the channel and sample-type tokens of `F` on a loopback
/// capability, failing at the first token that was not advertised.
pub fn resolve_loopback<F: LoopbackFrame>(sl: &SoftLoopback) -> (r: AltoResult<(ALint, ALint)>)
    ensures
        r == loopback_tokens::<F>(*sl),
{
    let c = F::channels(sl)?;
    let t = F::sample_ty(sl)?;
    Ok((c, t))
}

/// Without the channel token, loopback resolution fails, whatever the
/// sample-type token.
pub proof fn lemma_loopback_fail_fast<F: LoopbackFrame>(sl: SoftLoopback)
    requires
        sl.channel_token(F::channel_kind()) is None,
    ensures
        loopback_tokens::<F>(sl) == Err::<(ALint, ALint), AltoError>(
            AltoError::ExtensionNotPresent,
        ),
{
}

/// With both tokens advertised, loopback resolution gives them, in order.
pub proof fn lemma_loopback_resolves<F: LoopbackFrame>(sl: SoftLoopback)
    requires
        sl.channel_token(F::channel_kind()) is Some,
        sl.sample_type_token(F::sample_kind()) is Some,
    ensures
        loopback_tokens::<F>(sl) == Ok::<(ALint, ALint), AltoError>(
            (sl.channel_token(F::channel_kind())->0, sl.sample_type_token(F::sample_kind())->0),
        ),
{
}

impl LoopbackFrame for Mono<u8> {
    open spec fn channel_kind() -> LoopbackChannels {
        LoopbackChannels::Mono
    }

    open spec fn sample_kind() -> LoopbackSampleType {
        LoopbackSampleType::UnsignedByte
    }

    fn channels(sl: &SoftLoopback) -> (r: AltoResult<ALint>) {
        sl.channels(LoopbackChannels::Mono)
    }

    fn sample_ty(sl: &SoftLoopback) -> (r: AltoResult<ALint>) {
        sl.sample_type(LoopbackSampleType::UnsignedByte)
    }
}

impl LoopbackFrame for Mono<i16> {
    open spec fn channel_kind() -> LoopbackChannels {
        LoopbackChannels::Mono
    }

    open spec fn sample_kind() -> LoopbackSampleType {
        LoopbackSampleType::Short
    }

    fn channels(sl: &SoftLoopback) -> (r: AltoResult<ALint>) {
        sl.channels(LoopbackChannels::Mono)
    }

    fn sample_ty(sl: &SoftLoopback) -> (r: AltoResult<ALint>) {
        sl.sample_type(LoopbackSampleType::Short)
    }
}

impl LoopbackFrame for Mono<Float32Sample> {
    open spec fn channel_kind() -> LoopbackChannels {
        LoopbackChannels::Mono
    }

    open spec fn sample_kind() -> LoopbackSampleType {
        LoopbackSampleType::Float
    }

    fn channels(sl: &SoftLoopback) -> (r: AltoResult<ALint>) {
        sl.channels(LoopbackChannels::Mono)
    }

    fn sample_ty(sl: &SoftLoopback) -> (r: AltoResult<ALint>) {
        sl.sample_type(LoopbackSampleType::Float)
    }
}

impl LoopbackFrame for Stereo<u8> {
    open spec fn channel_kind() -> LoopbackChannels {
        LoopbackChannels::Stereo
    }

    open spec fn sample_kind() -> LoopbackSampleType {
        LoopbackSampleType::UnsignedByte
    }

    fn channels(sl: &SoftLoopback) -> (r: AltoResult<ALint>) {
        sl.channels(LoopbackChannels::Stereo)
    }

    fn sample_ty(sl: &SoftLoopback) -> (r: AltoResult<ALint>) {
        sl.sample_type(LoopbackSampleType::UnsignedByte)
    }
}

impl LoopbackFrame for Stereo<i16> {
    open spec fn channel_kind() -> LoopbackChannels {
        LoopbackChannels::Stereo
    }

    open spec fn sample_kind() -> LoopbackSampleType {
        LoopbackSampleType::Short
    }

    fn channels(sl: &SoftLoopback) -> (r: AltoResult<ALint>) {
        sl.channels(LoopbackChannels::Stereo)
    }

    fn sample_ty(sl: &SoftLoopback) -> (r: AltoResult<ALint>) {
        sl.sample_type(LoopbackSampleType::Short)
    }
}

impl LoopbackFrame for Stereo<Float32Sample> {
    open spec fn channel_kind() -> LoopbackChannels {
        LoopbackChannels::Stereo
    }

    open spec fn sample_kind() -> LoopbackSampleType {
        LoopbackSampleType::Float
    }

    fn channels(sl: &SoftLoopback) -> (r: AltoResult<ALint>) {
        sl.channels(LoopbackChannels::Stereo)
    }

    fn sample_ty(sl: &SoftLoopback) -> (r: AltoResult<ALint>) {
        sl.sample_type(LoopbackSampleType::Float)
    }
}

impl LoopbackFrame for McQuad<u8> {
    open spec fn channel_kind() -> LoopbackChannels {
        LoopbackChannels::Quad
    }

    open spec fn sample_kind() -> LoopbackSampleType {
        LoopbackSampleType::UnsignedByte
    }

    fn channels(sl: &SoftLoopback) -> (r: AltoResult<ALint>) {
        sl.channels(LoopbackChannels::Quad)
    }

    fn sample_ty(sl: &SoftLoopback) -> (r: AltoResult<ALint>) {
        sl.sample_type(LoopbackSampleType::UnsignedByte)
    }
}

impl LoopbackFrame for McQuad<i16> {
    open spec fn channel_kind() -> LoopbackChannels {
        LoopbackChannels::Quad
    }

    open spec fn sample_kind() -> LoopbackSampleType {
        LoopbackSampleType::Short
    }

    fn channels(sl: &SoftLoopback) -> (r: AltoResult<ALint>) {
        sl.channels(LoopbackChannels::Quad)
    }

    fn sample_ty(sl: &SoftLoopback) -> (r: AltoResult<ALint>) {
        sl.sample_type(LoopbackSampleType::Short)
    }
}

impl LoopbackFrame for McQuad<Float32Sample> {
    open spec fn channel_kind() -> LoopbackChannels {
        LoopbackChannels::Quad
    }

    open spec fn sample_kind() -> LoopbackSampleType {
        LoopbackSampleType::Float
    }

    fn channels(sl: &SoftLoopback) -> (r: AltoResult<ALint>) {
        sl.channels(LoopbackChannels::Quad)
    }

    fn sample_ty(sl: &SoftLoopback) -> (r: AltoResult<ALint>) {
        sl.sample_type(LoopbackSampleType::Float)
    }
}

impl LoopbackFrame for Mc51Chn<u8> {
    open spec fn channel_kind() -> LoopbackChannels {
        LoopbackChannels::Mc51
    }

    open spec fn sample_kind() -> LoopbackSampleType {
        LoopbackSampleType::UnsignedByte
    }

    fn channels(sl: &SoftLoopback) -> (r: AltoResult<ALint>) {
        sl.channels(LoopbackChannels::Mc51)
    }

    fn sample_ty(sl: &SoftLoopback) -> (r: AltoResult<ALint>) {
        sl.sample_type(LoopbackSampleType::UnsignedByte)
    }
}

impl LoopbackFrame for Mc51Chn<i16> {
    open spec fn channel_kind() -> LoopbackChannels {
        LoopbackChannels::Mc51
    }

    open spec fn sample_kind() -> LoopbackSampleType {
        LoopbackSampleType::Short
    }

    fn channels(sl: &SoftLoopback) -> (r: AltoResult<ALint>) {
        sl.channels(LoopbackChannels::Mc51)
    }

    fn sample_ty(sl: &SoftLoopback) -> (r: AltoResult<ALint>) {
        sl.sample_type(LoopbackSampleType::Short)
    }
}

impl LoopbackFrame for Mc51Chn<Float32Sample> {
    open spec fn channel_kind() -> LoopbackChannels {
        LoopbackChannels::Mc51
    }

    open spec fn sample_kind() -> LoopbackSampleType {
        LoopbackSampleType::Float
    }

    fn channels(sl: &SoftLoopback) -> (r: AltoResult<ALint>) {
        sl.channels(LoopbackChannels::Mc51)
    }

    fn sample_ty(sl: &SoftLoopback) -> (r: AltoResult<ALint>) {
        sl.sample_type(LoopbackSampleType::Float)
    }
}

impl LoopbackFrame for Mc61Chn<u8> {
    open spec fn channel_kind() -> LoopbackChannels {
        LoopbackChannels::Mc61
    }

    open spec fn sample_kind() -> LoopbackSampleType {
        LoopbackSampleType::UnsignedByte
    }

    fn channels(sl: &SoftLoopback) -> (r: AltoResult<ALint>) {
        sl.channels(LoopbackChannels::Mc61)
    }

    fn sample_ty(sl: &SoftLoopback) -> (r: AltoResult<ALint>) {
        sl.sample_type(LoopbackSampleType::UnsignedByte)
    }
}

impl LoopbackFrame for Mc61Chn<i16> {
    open spec fn channel_kind() -> LoopbackChannels {
        LoopbackChannels::Mc61
    }

    open spec fn sample_kind() -> LoopbackSampleType {
        LoopbackSampleType::Short
    }

    fn channels(sl: &SoftLoopback) -> (r: AltoResult<ALint>) {
        sl.channels(LoopbackChannels::Mc61)
    }

    fn sample_ty(sl: &SoftLoopback) -> (r: AltoResult<ALint>) {
        sl.sample_type(LoopbackSampleType::Short)
    }
}

impl LoopbackFrame for Mc61Chn<Float32Sample> {
    open spec fn channel_kind() -> LoopbackChannels {
        LoopbackChannels::Mc61
    }

    open spec fn sample_kind() -> LoopbackSampleType {
        LoopbackSampleType::Float
    }

    fn channels(sl: &SoftLoopback) -> (r: AltoResult<ALint>) {
        sl.channels(LoopbackChannels::Mc61)
    }

    fn sample_ty(sl: &SoftLoopback) -> (r: AltoResult<ALint>) {
        sl.sample_type(LoopbackSampleType::Float)
    }
}

impl LoopbackFrame for Mc71Chn<u8> {
    open spec fn channel_kind() -> LoopbackChannels {
        LoopbackChannels::Mc71
    }

    open spec fn sample_kind() -> LoopbackSampleType {
        LoopbackSampleType::UnsignedByte
    }

    fn channels(sl: &SoftLoopback) -> (r: AltoResult<ALint>) {
        sl.channels(LoopbackChannels::Mc71)
    }

    fn sample_ty(sl: &SoftLoopback) -> (r: AltoResult<ALint>) {
        sl.sample_type(LoopbackSampleType::UnsignedByte)
    }
}

impl LoopbackFrame for Mc71Chn<i16> {
    open spec fn channel_kind() -> LoopbackChannels {
        LoopbackChannels::Mc71
    }

    open spec fn sample_kind() -> LoopbackSampleType {
        LoopbackSampleType::Short
    }

    fn channels(sl: &SoftLoopback) -> (r: AltoResult<ALint>) {
        sl.channels(LoopbackChannels::Mc71)
    }

    fn sample_ty(sl: &SoftLoopback) -> (r: AltoResult<ALint>) {
        sl.sample_type(LoopbackSampleType::Short)
    }
}

impl LoopbackFrame for Mc71Chn<Float32Sample> {
    open spec fn channel_kind() -> LoopbackChannels {
        LoopbackChannels::Mc71
    }

    open spec fn sample_kind() -> LoopbackSampleType {
        LoopbackSampleType::Float
    }

    fn channels(sl: &SoftLoopback) -> (r: AltoResult<ALint>) {
        sl.channels(LoopbackChannels::Mc71)
    }

    fn sample_ty(sl: &SoftLoopback) -> (r: AltoResult<ALint>) {
        sl.sample_type(LoopbackSampleType::Float)
    }
}

} // verus!
