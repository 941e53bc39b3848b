use vstd::prelude::*;

use crate::error::{AltoError, AltoResult};
use crate::ext::{lookup, resolve_token, Capabilities, Extension};

verus! {

/// Integer token that the native API reads as a format or enum value.
pub type ALint = i32;

/// `AL_FORMAT_MONO8`
pub const AL_FORMAT_MONO8: ALint = 0x1100;
/// `AL_FORMAT_MONO16`
pub const AL_FORMAT_MONO16: ALint = 0x1101;
/// `AL_FORMAT_STEREO8`
pub const AL_FORMAT_STEREO8: ALint = 0x1102;
/// `AL_FORMAT_STEREO16`
pub const AL_FORMAT_STEREO16: ALint = 0x1103;

/// Audio formats supported by OpenAL.
#[derive(Copy, Clone, PartialEq, Eq, Hash, Debug, Structural)]
pub enum Format {
    Standard(StandardFormat),
    ExtALaw(ExtALawFormat),
    ExtBFormat(ExtBFormat),
    ExtDouble(ExtDoubleFormat),
    ExtFloat32(ExtFloat32Format),
    ExtIma4(ExtIma4Format),
    ExtMcFormats(ExtMcFormat),
    ExtMuLaw(ExtMuLawFormat),
    ExtMuLawBFormat(ExtMuLawBFormat),
    ExtMuLawMcFormats(ExtMuLawMcFormat),
    SoftMsadpcm(SoftMsadpcmFormat),
}

/// Standard formats defined in the base specification.
#[derive(Copy, Clone, PartialEq, Eq, Hash, Debug, Structural)]
pub enum StandardFormat {
    /// `AL_FORMAT_MONO8`
    MonoU8,
    /// `AL_FORMAT_MONO16`
    MonoI16,
    /// `AL_FORMAT_STEREO8`
    StereoU8,
    /// `AL_FORMAT_STEREO16`
    StereoI16,
}

/// Formats provided by `AL_EXT_ALAW`.
#[derive(Copy, Clone, PartialEq, Eq, Hash, Debug, Structural)]
pub enum ExtALawFormat {
    /// `AL_FORMAT_MONO_ALAW_EXT`
    Mono,
    /// `AL_FORMAT_STEREO_ALAW_EXT`
    Stereo,
}

/// Formats provided by `AL_EXT_BFORMAT`.
#[derive(Copy, Clone, PartialEq, Eq, Hash, Debug, Structural)]
pub enum ExtBFormat {
    /// `AL_FORMAT_BFORMAT2D_8`
    B2DU8,
    /// `AL_FORMAT_BFORMAT2D_16`
    B2DI16,
    /// `AL_FORMAT_BFORMAT2D_FLOAT32`
    B2DF32,
    /// `AL_FORMAT_BFORMAT3D_8`
    B3DU8,
    /// `AL_FORMAT_BFORMAT3D_16`
    B3DI16,
    /// `AL_FORMAT_BFORMAT3D_FLOAT32`
    B3DF32,
}

/// Formats provided by `AL_EXT_double`.
#[derive(Copy, Clone, PartialEq, Eq, Hash, Debug, Structural)]
pub enum ExtDoubleFormat {
    /// `AL_FORMAT_MONO_DOUBLE_EXT`
    Mono,
    /// `AL_FORMAT_STEREO_DOUBLE_EXT`
    Stereo,
}

/// Formats provided by `AL_EXT_float32`.
#[derive(Copy, Clone, PartialEq, Eq, Hash, Debug, Structural)]
pub enum ExtFloat32Format {
    /// `AL_FORMAT_MONO_FLOAT32`
    Mono,
    /// `AL_FORMAT_STEREO_FLOAT32`
    Stereo,
}

/// Formats provided by `AL_EXT_IMA4`.
#[derive(Copy, Clone, PartialEq, Eq, Hash, Debug, Structural)]
pub enum ExtIma4Format {
    /// `AL_FORMAT_MONO_IMA4`
    Mono,
    /// `AL_FORMAT_STEREO_IMA4`
    Stereo,
}

/// Formats provided by `AL_EXT_MCFORMATS`.
#[derive(Copy, Clone, PartialEq, Eq, Hash, Debug, Structural)]
pub enum ExtMcFormat {
    /// `AL_FORMAT_QUAD8`
    QuadU8,
    /// `AL_FORMAT_QUAD16`
    QuadI16,
    /// `AL_FORMAT_QUAD32`
    QuadF32,
    /// `AL_FORMAT_REAR8`
    RearU8,
    /// `AL_FORMAT_REAR16`
    RearI16,
    /// `AL_FORMAT_REAR32`
    RearF32,
    /// `AL_FORMAT_51CHN8`
    Mc51ChnU8,
    /// `AL_FORMAT_51CHN16`
    Mc51ChnI16,
    /// `AL_FORMAT_51CHN32`
    Mc51ChnF32,
    /// `AL_FORMAT_61CHN8`
    Mc61ChnU8,
    /// `AL_FORMAT_61CHN16`
    Mc61ChnI16,
    /// `AL_FORMAT_61CHN32`
    Mc61ChnF32,
    /// `AL_FORMAT_71CHN8`
    Mc71ChnU8,
    /// `AL_FORMAT_71CHN16`
    Mc71ChnI16,
    /// `AL_FORMAT_71CHN32`
    Mc71ChnF32,
}

/// Formats provided by `AL_EXT_MULAW`.
#[derive(Copy, Clone, PartialEq, Eq, Hash, Debug, Structural)]
pub enum ExtMuLawFormat {
    /// `AL_FORMAT_MONO_MULAW_EXT`
    Mono,
    /// `AL_FORMAT_STEREO_MULAW_EXT`
    Stereo,
}

/// Formats provided by `AL_EXT_MULAW_BFORMAT`.
#[derive(Copy, Clone, PartialEq, Eq, Hash, Debug, Structural)]
pub enum ExtMuLawBFormat {
    /// `AL_FORMAT_BFORMAT2D_MULAW`
    B2D,
    /// `AL_FORMAT_BFORMAT3D_MULAW`
    B3D,
}

/// Formats provided by `AL_EXT_MULAW_MCFORMATS`.
#[derive(Copy, Clone, PartialEq, Eq, Hash, Debug, Structural)]
pub enum ExtMuLawMcFormat {
    /// `AL_FORMAT_MONO_MULAW`
    Mono,
    /// `AL_FORMAT_STEREO_MULAW`
    Stereo,
    /// `AL_FORMAT_QUAD_MULAW`
    Quad,
    /// `AL_FORMAT_REAR_MULAW`
    Rear,
    /// `AL_FORMAT_51CHN_MULAW`
    Mc51Chn,
    /// `AL_FORMAT_61CHN_MULAW`
    Mc61Chn,
    /// `AL_FORMAT_71CHN_MULAW`
    Mc71Chn,
}

/// Formats provided by `AL_SOFT_MSADPCM`.
#[derive(Copy, Clone, PartialEq, Eq, Hash, Debug, Structural)]
pub enum SoftMsadpcmFormat {
    /// `AL_FORMAT_MONO_MSADPCM_SOFT`
    Mono,
    /// `AL_FORMAT_STEREO_MSADPCM_SOFT`
    Stereo,
}

impl Format {
    /// The capability that this format needs, or `None` for a standard format.
    pub open spec fn extension(self) -> Option<Extension> {
        match self {
            Format::Standard(_) => None,
            Format::ExtALaw(_) => Some(Extension::ALaw),
            Format::ExtBFormat(_) => Some(Extension::BFormat),
            Format::ExtDouble(_) => Some(Extension::Double),
            Format::ExtFloat32(_) => Some(Extension::Float32),
            Format::ExtIma4(_) => Some(Extension::Ima4),
            Format::ExtMcFormats(_) => Some(Extension::McFormats),
            Format::ExtMuLaw(_) => Some(Extension::MuLaw),
            Format::ExtMuLawBFormat(_) => Some(Extension::MuLawBFormat),
            Format::ExtMuLawMcFormats(_) => Some(Extension::MuLawMcFormats),
            Format::SoftMsadpcm(_) => Some(Extension::SoftMsadpcm),
        }
    }

    /// Slot of this format's token among those of its capability (0 for a
    /// standard format, which has none).
    pub open spec fn token_slot(self) -> nat {
        match self {
            Format::Standard(_) => 0,
            Format::ExtALaw(f) => f.slot_spec(),
            Format::ExtBFormat(f) => f.slot_spec(),
            Format::ExtDouble(f) => f.slot_spec(),
            Format::ExtFloat32(f) => f.slot_spec(),
            Format::ExtIma4(f) => f.slot_spec(),
            Format::ExtMcFormats(f) => f.slot_spec(),
            Format::ExtMuLaw(f) => f.slot_spec(),
            Format::ExtMuLawBFormat(f) => f.slot_spec(),
            Format::ExtMuLawMcFormats(f) => f.slot_spec(),
            Format::SoftMsadpcm(f) => f.slot_spec(),
        }
    }

    /// The token of this format, resolved against an optional session.
    pub open spec fn raw_in(self, ctx: Option<&Capabilities>) -> AltoResult<ALint> {
        match self {
            Format::Standard(f) => Ok(f.raw()),
            Format::ExtALaw(f) => lookup(ctx, Extension::ALaw, f.slot_spec()),
            Format::ExtBFormat(f) => lookup(ctx, Extension::BFormat, f.slot_spec()),
            Format::ExtDouble(f) => lookup(ctx, Extension::Double, f.slot_spec()),
            Format::ExtFloat32(f) => lookup(ctx, Extension::Float32, f.slot_spec()),
            Format::ExtIma4(f) => lookup(ctx, Extension::Ima4, f.slot_spec()),
            Format::ExtMcFormats(f) => lookup(ctx, Extension::McFormats, f.slot_spec()),
            Format::ExtMuLaw(f) => lookup(ctx, Extension::MuLaw, f.slot_spec()),
            Format::ExtMuLawBFormat(f) => lookup(ctx, Extension::MuLawBFormat, f.slot_spec()),
            Format::ExtMuLawMcFormats(f) => lookup(ctx, Extension::MuLawMcFormats, f.slot_spec()),
            Format::SoftMsadpcm(f) => lookup(ctx, Extension::SoftMsadpcm, f.slot_spec()),
        }
    }

    /// Resolves this format to the token the native API expects. A standard
    /// format always resolves; any other needs a session that negotiated its
    /// capability and advertised its token.
    pub fn into_raw(self, ctx: Option<&Capabilities>) -> (r: AltoResult<ALint>)
        ensures
            r == self.raw_in(ctx),
    {
        match self {
            Format::Standard(f) => Ok(f.into_raw()),
            Format::ExtALaw(f) => f.into_raw(ctx),
            Format::ExtBFormat(f) => f.into_raw(ctx),
            Format::ExtDouble(f) => f.into_raw(ctx),
            Format::ExtFloat32(f) => f.into_raw(ctx),
            Format::ExtIma4(f) => f.into_raw(ctx),
            Format::ExtMcFormats(f) => f.into_raw(ctx),
            Format::ExtMuLaw(f) => f.into_raw(ctx),
            Format::ExtMuLawBFormat(f) => f.into_raw(ctx),
            Format::ExtMuLawMcFormats(f) => f.into_raw(ctx),
            Format::SoftMsadpcm(f) => f.into_raw(ctx),
        }
    }
}

impl StandardFormat {
    /// The fixed token of each standard format.
    pub open spec fn raw(self) -> ALint {
        match self {
            StandardFormat::MonoU8 => AL_FORMAT_MONO8,
            StandardFormat::MonoI16 => AL_FORMAT_MONO16,
            StandardFormat::StereoU8 => AL_FORMAT_STEREO8,
            StandardFormat::StereoI16 => AL_FORMAT_STEREO16,
        }
    }

    /// The fixed token of this format.
    pub fn into_raw(self) -> (r: ALint)
        ensures
            r == self.raw(),
    {
        match self {
            StandardFormat::MonoU8 => AL_FORMAT_MONO8,
            StandardFormat::MonoI16 => AL_FORMAT_MONO16,
            StandardFormat::StereoU8 => AL_FORMAT_STEREO8,
            StandardFormat::StereoI16 => AL_FORMAT_STEREO16,
        }
    }
}

impl ExtALawFormat {
    /// Slot of this format's token among those of `AL_EXT_ALAW`.
    pub open spec fn slot_spec(self) -> nat {
        match self {
            ExtALawFormat::Mono => 0,
            ExtALawFormat::Stereo => 1,
        }
    }

    /// Slot of this format's token among those of its capability.
    pub fn slot(self) -> (r: usize)
        ensures
            r == self.slot_spec(),
    {
        match self {
            ExtALawFormat::Mono => 0,
            ExtALawFormat::Stereo => 1,
        }
    }

    /// Resolves this format to the token that the session advertised for it.
    pub fn into_raw(self, ctx: Option<&Capabilities>) -> (r: AltoResult<ALint>)
        ensures
            r == lookup(ctx, Extension::ALaw, self.slot_spec()),
    {
        resolve_token(ctx, Extension::ALaw, self.slot())
    }
}

impl ExtBFormat {
    /// Slot of this format's token among those of `AL_EXT_BFORMAT`.
    pub open spec fn slot_spec(self) -> nat {
        match self {
            ExtBFormat::B2DU8 => 0,
            ExtBFormat::B2DI16 => 1,
            ExtBFormat::B2DF32 => 2,
            ExtBFormat::B3DU8 => 3,
            ExtBFormat::B3DI16 => 4,
            ExtBFormat::B3DF32 => 5,
        }
    }

    /// Slot of this format's token among those of its capability.
    pub fn slot(self) -> (r: usize)
        ensures
            r == self.slot_spec(),
    {
        match self {
            ExtBFormat::B2DU8 => 0,
            ExtBFormat::B2DI16 => 1,
            ExtBFormat::B2DF32 => 2,
            ExtBFormat::B3DU8 => 3,
            ExtBFormat::B3DI16 => 4,
            ExtBFormat::B3DF32 => 5,
        }
    }

    /// Resolves this format to the token that the session advertised for it.
    pub fn into_raw(self, ctx: Option<&Capabilities>) -> (r: AltoResult<ALint>)
        ensures
            r == lookup(ctx, Extension::BFormat, self.slot_spec()),
    {
        resolve_token(ctx, Extension::BFormat, self.slot())
    }
}

impl ExtDoubleFormat {
    /// Slot of this format's token among those of `AL_EXT_double`.
    pub open spec fn slot_spec(self) -> nat {
        match self {
            ExtDoubleFormat::Mono => 0,
            ExtDoubleFormat::Stereo => 1,
        }
    }

    /// Slot of this format's token among those of its capability.
    pub fn slot(self) -> (r: usize)
        ensures
            r == self.slot_spec(),
    {
        match self {
            ExtDoubleFormat::Mono => 0,
            ExtDoubleFormat::Stereo => 1,
        }
    }

    /// Resolves this format to the token that the session advertised for it.
    pub fn into_raw(self, ctx: Option<&Capabilities>) -> (r: AltoResult<ALint>)
        ensures
            r == lookup(ctx, Extension::Double, self.slot_spec()),
    {
        resolve_token(ctx, Extension::Double, self.slot())
    }
}

impl ExtFloat32Format {
    /// Slot of this format's token among those of `AL_EXT_float32`.
    pub open spec fn slot_spec(self) -> nat {
        match self {
            ExtFloat32Format::Mono => 0,
            ExtFloat32Format::Stereo => 1,
        }
    }

    /// Slot of this format's token among those of its capability.
    pub fn slot(self) -> (r: usize)
        ensures
            r == self.slot_spec(),
    {
        match self {
            ExtFloat32Format::Mono => 0,
            ExtFloat32Format::Stereo => 1,
        }
    }

    /// Resolves this format to the token that the session advertised for it.
    pub fn into_raw(self, ctx: Option<&Capabilities>) -> (r: AltoResult<ALint>)
        ensures
            r == lookup(ctx, Extension::Float32, self.slot_spec()),
    {
        resolve_token(ctx, Extension::Float32, self.slot())
    }
}

impl ExtIma4Format {
    /// Slot of this format's token among those of `AL_EXT_IMA4`.
    pub open spec fn slot_spec(self) -> nat {
        match self {
            ExtIma4Format::Mono => 0,
            ExtIma4Format::Stereo => 1,
        }
    }

    /// Slot of this format's token among those of its capability.
    pub fn slot(self) -> (r: usize)
        ensures
            r == self.slot_spec(),
    {
        match self {
            ExtIma4Format::Mono => 0,
            ExtIma4Format::Stereo => 1,
        }
    }

    /// Resolves this format to the token that the session advertised for it.
    pub fn into_raw(self, ctx: Option<&Capabilities>) -> (r: AltoResult<ALint>)
        ensures
            r == lookup(ctx, Extension::Ima4, self.slot_spec()),
    {
        resolve_token(ctx, Extension::Ima4, self.slot())
    }
}

impl ExtMcFormat {
    /// Slot of this format's token among those of `AL_EXT_MCFORMATS`.
    pub open spec fn slot_spec(self) -> nat {
        match self {
            ExtMcFormat::QuadU8 => 0,
            ExtMcFormat::QuadI16 => 1,
            ExtMcFormat::QuadF32 => 2,
            ExtMcFormat::RearU8 => 3,
            ExtMcFormat::RearI16 => 4,
            ExtMcFormat::RearF32 => 5,
            ExtMcFormat::Mc51ChnU8 => 6,
            ExtMcFormat::Mc51ChnI16 => 7,
            ExtMcFormat::Mc51ChnF32 => 8,
            ExtMcFormat::Mc61ChnU8 => 9,
            ExtMcFormat::Mc61ChnI16 => 10,
            ExtMcFormat::Mc61ChnF32 => 11,
            ExtMcFormat::Mc71ChnU8 => 12,
            ExtMcFormat::Mc71ChnI16 => 13,
            ExtMcFormat::Mc71ChnF32 => 14,
        }
    }

    /// Slot of this format's token among those of its capability.
    pub fn slot(self) -> (r: usize)
        ensures
            r == self.slot_spec(),
    {
        match self {
            ExtMcFormat::QuadU8 => 0,
            ExtMcFormat::QuadI16 => 1,
            ExtMcFormat::QuadF32 => 2,
            ExtMcFormat::RearU8 => 3,
            ExtMcFormat::RearI16 => 4,
            ExtMcFormat::RearF32 => 5,
            ExtMcFormat::Mc51ChnU8 => 6,
            ExtMcFormat::Mc51ChnI16 => 7,
            ExtMcFormat::Mc51ChnF32 => 8,
            ExtMcFormat::Mc61ChnU8 => 9,
            ExtMcFormat::Mc61ChnI16 => 10,
            ExtMcFormat::Mc61ChnF32 => 11,
            ExtMcFormat::Mc71ChnU8 => 12,
            ExtMcFormat::Mc71ChnI16 => 13,
            ExtMcFormat::Mc71ChnF32 => 14,
        }
    }

    /// Resolves this format to the token that the session advertised for it.
    pub fn into_raw(self, ctx: Option<&Capabilities>) -> (r: AltoResult<ALint>)
        ensures
            r == lookup(ctx, Extension::McFormats, self.slot_spec()),
    {
        resolve_token(ctx, Extension::McFormats, self.slot())
    }
}

impl ExtMuLawFormat {
    /// Slot of this format's token among those of `AL_EXT_MULAW`.
    pub open spec fn slot_spec(self) -> nat {
        match self {
            ExtMuLawFormat::Mono => 0,
            ExtMuLawFormat::Stereo => 1,
        }
    }

    /// Slot of this format's token among those of its capability.
    pub fn slot(self) -> (r: usize)
        ensures
            r == self.slot_spec(),
    {
        match self {
            ExtMuLawFormat::Mono => 0,
            ExtMuLawFormat::Stereo => 1,
        }
    }

    /// Resolves this format to the token that the session advertised for it.
    pub fn into_raw(self, ctx: Option<&Capabilities>) -> (r: AltoResult<ALint>)
        ensures
            r == lookup(ctx, Extension::MuLaw, self.slot_spec()),
    {
        resolve_token(ctx, Extension::MuLaw, self.slot())
    }
}

impl ExtMuLawBFormat {
    /// Slot of this format's token among those of `AL_EXT_MULAW_BFORMAT`.
    pub open spec fn slot_spec(self) -> nat {
        match self {
            ExtMuLawBFormat::B2D => 0,
            ExtMuLawBFormat::B3D => 1,
        }
    }

    /// Slot of this format's token among those of its capability.
    pub fn slot(self) -> (r: usize)
        ensures
            r == self.slot_spec(),
    {
        match self {
            ExtMuLawBFormat::B2D => 0,
            ExtMuLawBFormat::B3D => 1,
        }
    }

    /// Resolves this format to the token that the session advertised for it.
    pub fn into_raw(self, ctx: Option<&Capabilities>) -> (r: AltoResult<ALint>)
        ensures
            r == lookup(ctx, Extension::MuLawBFormat, self.slot_spec()),
    {
        resolve_token(ctx, Extension::MuLawBFormat, self.slot())
    }
}

impl ExtMuLawMcFormat {
    /// Slot of this format's token among those of `AL_EXT_MULAW_MCFORMATS`.
    pub open spec fn slot_spec(self) -> nat {
        match self {
            ExtMuLawMcFormat::Mono => 0,
            ExtMuLawMcFormat::Stereo => 1,
            ExtMuLawMcFormat::Quad => 2,
            ExtMuLawMcFormat::Rear => 3,
            ExtMuLawMcFormat::Mc51Chn => 4,
            ExtMuLawMcFormat::Mc61Chn => 5,
            ExtMuLawMcFormat::Mc71Chn => 6,
        }
    }

    /// Slot of this format's token among those of its capability.
    pub fn slot(self) -> (r: usize)
        ensures
            r == self.slot_spec(),
    {
        match self {
            ExtMuLawMcFormat::Mono => 0,
            ExtMuLawMcFormat::Stereo => 1,
            ExtMuLawMcFormat::Quad => 2,
            ExtMuLawMcFormat::Rear => 3,
            ExtMuLawMcFormat::Mc51Chn => 4,
            ExtMuLawMcFormat::Mc61Chn => 5,
            ExtMuLawMcFormat::Mc71Chn => 6,
        }
    }

    /// Resolves this format to the token that the session advertised for it.
    pub fn into_raw(self, ctx: Option<&Capabilities>) -> (r: AltoResult<ALint>)
        ensures
            r == lookup(ctx, Extension::MuLawMcFormats, self.slot_spec()),
    {
        resolve_token(ctx, Extension::MuLawMcFormats, self.slot())
    }
}

impl SoftMsadpcmFormat {
    /// Slot of this format's token among those of `AL_SOFT_MSADPCM`.
    pub open spec fn slot_spec(self) -> nat {
        match self {
            SoftMsadpcmFormat::Mono => 0,
            SoftMsadpcmFormat::Stereo => 1,
        }
    }

    /// Slot of this format's token among those of its capability.
    pub fn slot(self) -> (r: usize)
        ensures
            r == self.slot_spec(),
    {
        match self {
            SoftMsadpcmFormat::Mono => 0,
            SoftMsadpcmFormat::Stereo => 1,
        }
    }

    /// Resolves this format to the token that the session advertised for it.
    pub fn into_raw(self, ctx: Option<&Capabilities>) -> (r: AltoResult<ALint>)
        ensures
            r == lookup(ctx, Extension::SoftMsadpcm, self.slot_spec()),
    {
        resolve_token(ctx, Extension::SoftMsadpcm, self.slot())
    }
}

/// A standard format resolves to its fixed token, with or without a session.
pub proof fn lemma_standard_always_resolves(f: StandardFormat, ctx: Option<&Capabilities>)
    ensures
        Format::Standard(f).raw_in(ctx) == Ok::<ALint, AltoError>(f.raw()),
        Format::Standard(f).raw_in(None) == Ok::<ALint, AltoError>(f.raw()),
{
}

/// A format that needs a capability fails without a session; with one, it
/// resolves exactly when the session negotiated that capability and advertised
/// the format's token, and then to that token.
pub proof fn lemma_extension_needs_capability(f: Format, ctx: Option<&Capabilities>)
    requires
        f.extension() is Some,
    ensures
        f.raw_in(None) == Err::<ALint, AltoError>(AltoError::ExtensionNotPresent),
        f.raw_in(ctx) == lookup(ctx, f.extension()->0, f.token_slot()),
        f.raw_in(ctx) is Ok <==> {
            &&& ctx is Some
            &&& ctx->0.family(f.extension()->0) is Some
            &&& ctx->0.family(f.extension()->0)->0@.contains_key(f.token_slot())
        },
        f.raw_in(ctx) is Ok ==> f.raw_in(ctx)->Ok_0 == ctx->0.family(
            f.extension()->0,
        )->0@[f.token_slot()],
{
}

} // verus!
