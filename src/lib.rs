//! Type-safe description of OpenAL buffer formats: the catalog of formats and
//! the tokens they resolve to on a session, the sample-frame shapes that name
//! them, and views that read a flat sample buffer as a sequence of frames
//! without copying it.
use vstd::prelude::*;

pub mod buffer;
pub mod error;
pub mod ext;
pub mod format;
pub mod frame;
pub mod loopback;

pub use buffer::{AsBufferData, AsBufferDataMut, FrameSlice, FrameSliceMut};
pub use error::{AltoError, AltoResult};
pub use ext::{Capabilities, Extension, ExtensionTokens};
pub use format::{
    ALint, ExtALawFormat, ExtBFormat, ExtDoubleFormat, ExtFloat32Format, ExtIma4Format, ExtMcFormat,
    ExtMuLawBFormat, ExtMuLawFormat, ExtMuLawMcFormat, Format, SoftMsadpcmFormat, StandardFormat,
};
pub use frame::{
    ALawSample, BFormat2D, BFormat3D, Float32Sample, Float64Sample, FrameLayout, Mc51Chn, Mc61Chn,
    Mc71Chn, McQuad, McRear, Mono, MuLawSample, SampleFrame, StandardFrame, Stereo,
};
pub use loopback::{
    resolve_loopback, LoopbackChannels, LoopbackFrame, LoopbackSampleType, SoftLoopback,
};

verus! {

} // verus!
