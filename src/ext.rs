use vstd::prelude::*;

use crate::error::{AltoError, AltoResult};
use crate::format::ALint;

verus! {

/// The optional capabilities that gate the non-standard formats.
#[derive(Copy, Clone, PartialEq, Eq, Hash, Debug, Structural)]
pub enum Extension {
    /// `AL_EXT_ALAW`
    ALaw,
    /// `AL_EXT_BFORMAT`
    BFormat,
    /// `AL_EXT_double`
    Double,
    /// `AL_EXT_float32`
    Float32,
    /// `AL_EXT_IMA4`
    Ima4,
    /// `AL_EXT_MCFORMATS`
    McFormats,
    /// `AL_EXT_MULAW`
    MuLaw,
    /// `AL_EXT_MULAW_BFORMAT`
    MuLawBFormat,
    /// `AL_EXT_MULAW_MCFORMATS`
    MuLawMcFormats,
    /// `AL_SOFT_MSADPCM`
    SoftMsadpcm,
}

/// The tokens that one negotiated capability advertises, each in its own slot.
/// A slot without a token was not advertised.
pub struct ExtensionTokens {
    tokens: Vec<Option<ALint>>,
}

impl View for ExtensionTokens {
    type V = Map<nat, ALint>;

    /// Advertised slots and their tokens.
    closed spec fn view(&self) -> Map<nat, ALint> {
        Map::new(
            |k: nat| k < self.tokens@.len() && self.tokens@[k as int] is Some,
            |k: nat| self.tokens@[k as int]->0,
        )
    }
}

impl ExtensionTokens {
    /// A capability that advertises no token yet.
    pub fn new() -> (r: ExtensionTokens)
        ensures
            r@ == Map::<nat, ALint>::empty(),
    {
        let r = ExtensionTokens { tokens: Vec::new() };
        assert(r@ =~= Map::<nat, ALint>::empty());
        r
    }

    /// The token in `slot`, if it was advertised.
    pub fn token(&self, slot: usize) -> (r: Option<ALint>)
        ensures
            r == (if self@.contains_key(slot as nat) {
                Some(self@[slot as nat])
            } else {
                None::<ALint>
            }),
    {
        if slot < self.tokens.len() {
            self.tokens[slot]
        } else {
            None
        }
    }

    /// Advertises `token` in `slot`, replacing what the slot held.
    pub fn advertise(&mut self, slot: usize, token: ALint)
        ensures
            final(self)@ == old(self)@.insert(slot as nat, token),
    {
        let ghost before = self.tokens@;
        while self.tokens.len() <= slot
            invariant
                before.len() <= self.tokens@.len(),
                forall|k: int| 0 <= k < before.len() ==> self.tokens@[k] == before[k],
                forall|k: int| before.len() <= k < self.tokens@.len() ==> self.tokens@[k] is None,
            decreases slot + 1 - self.tokens.len(),
        {
            self.tokens.push(None);
        }
        self.tokens.set(slot, Some(token));
        assert(self@ =~= old(self)@.insert(slot as nat, token));
    }
}

/// What a session negotiated: for each capability, its tokens when it was
/// negotiated, or `None`.
pub struct Capabilities {
    pub alaw: Option<ExtensionTokens>,
    pub bformat: Option<ExtensionTokens>,
    pub double: Option<ExtensionTokens>,
    pub float32: Option<ExtensionTokens>,
    pub ima4: Option<ExtensionTokens>,
    pub mc_formats: Option<ExtensionTokens>,
    pub mulaw: Option<ExtensionTokens>,
    pub mulaw_bformat: Option<ExtensionTokens>,
    pub mulaw_mc_formats: Option<ExtensionTokens>,
    pub soft_msadpcm: Option<ExtensionTokens>,
}

impl Capabilities {
    /// A session that negotiated no capability.
    pub fn new() -> (r: Capabilities)
        ensures
            forall|e: Extension| r.family(e) is None,
    {
        Capabilities {
            alaw: None,
            bformat: None,
            double: None,
            float32: None,
            ima4: None,
            mc_formats: None,
            mulaw: None,
            mulaw_bformat: None,
            mulaw_mc_formats: None,
            soft_msadpcm: None,
        }
    }

    /// The tokens of capability `e`, when it was negotiated.
    pub open spec fn family(&self, e: Extension) -> Option<ExtensionTokens> {
        match e {
            Extension::ALaw => self.alaw,
            Extension::BFormat => self.bformat,
            Extension::Double => self.double,
            Extension::Float32 => self.float32,
            Extension::Ima4 => self.ima4,
            Extension::McFormats => self.mc_formats,
            Extension::MuLaw => self.mulaw,
            Extension::MuLawBFormat => self.mulaw_bformat,
            Extension::MuLawMcFormats => self.mulaw_mc_formats,
            Extension::SoftMsadpcm => self.soft_msadpcm,
        }
    }

    /// Looks capability `e` up: its tokens, or `None` when it is absent.
    pub fn extension(&self, e: Extension) -> (r: Option<&ExtensionTokens>)
        ensures
            r is Some <==> self.family(e) is Some,
            r is Some ==> *r->0 == self.family(e)->0,
    {
        match e {
            Extension::ALaw => self.alaw.as_ref(),
            Extension::BFormat => self.bformat.as_ref(),
            Extension::Double => self.double.as_ref(),
            Extension::Float32 => self.float32.as_ref(),
            Extension::Ima4 => self.ima4.as_ref(),
            Extension::McFormats => self.mc_formats.as_ref(),
            Extension::MuLaw => self.mulaw.as_ref(),
            Extension::MuLawBFormat => self.mulaw_bformat.as_ref(),
            Extension::MuLawMcFormats => self.mulaw_mc_formats.as_ref(),
            Extension::SoftMsadpcm => self.soft_msadpcm.as_ref(),
        }
    }
}

/// The token in `slot` of capability `e`, resolved against an optional
/// session: absent session, absent capability and absent token all give
/// `ExtensionNotPresent`.
pub open spec fn lookup(caps: Option<&Capabilities>, e: Extension, slot: nat) -> AltoResult<ALint> {
    match caps {
        Some(c) => match c.family(e) {
            Some(t) => if t@.contains_key(slot) {
                Ok(t@[slot])
            } else {
                Err(AltoError::ExtensionNotPresent)
            },
            None => Err(AltoError::ExtensionNotPresent),
        },
        None => Err(AltoError::ExtensionNotPresent),
    }
}

/// Resolves the token in `slot` of capability `e`: the one lookup path that
/// every extension format goes through.
pub fn resolve_token(caps: Option<&Capabilities>, e: Extension, slot: usize) -> (r: AltoResult<
    ALint,
>)
    ensures
        r == lookup(caps, e, slot as nat),
{
    match caps {
        Some(c) => match c.extension(e) {
            Some(t) => match t.token(slot) {
                Some(tok) => Ok(tok),
                None => Err(AltoError::ExtensionNotPresent),
            },
            None => Err(AltoError::ExtensionNotPresent),
        },
        None => Err(AltoError::ExtensionNotPresent),
    }
}

} // verus!
