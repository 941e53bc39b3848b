use alto::{
    AltoError, Capabilities, ExtALawFormat, ExtBFormat, ExtDoubleFormat, ExtFloat32Format,
    ExtIma4Format, ExtMcFormat, ExtMuLawBFormat, ExtMuLawFormat, ExtMuLawMcFormat, Extension,
    ExtensionTokens, Format, SoftMsadpcmFormat, StandardFormat,
};

fn float32_caps() -> Capabilities {
    let mut t = ExtensionTokens::new();
    t.advertise(ExtFloat32Format::Mono.slot(), 0x10010);
    let mut caps = Capabilities::new();
    caps.float32 = Some(t);
    caps
}

#[test]
fn standard_formats_resolve_without_session() {
    let cases = [
        (StandardFormat::MonoU8, 0x1100),
        (StandardFormat::MonoI16, 0x1101),
        (StandardFormat::StereoU8, 0x1102),
        (StandardFormat::StereoI16, 0x1103),
    ];
    for (f, tok) in cases {
        assert_eq!(f.into_raw(), tok);
        assert_eq!(Format::Standard(f).into_raw(None), Ok(tok));
    }
}

#[test]
fn standard_formats_ignore_session() {
    let caps = float32_caps();
    assert_eq!(Format::Standard(StandardFormat::StereoI16).into_raw(Some(&caps)), Ok(0x1103));
    let empty = Capabilities::new();
    assert_eq!(Format::Standard(StandardFormat::MonoU8).into_raw(Some(&empty)), Ok(0x1100));
}

#[test]
fn extension_without_session_fails() {
    assert_eq!(
        Format::ExtFloat32(ExtFloat32Format::Mono).into_raw(None),
        Err(AltoError::ExtensionNotPresent)
    );
}

#[test]
fn extension_without_capability_fails() {
    let caps = Capabilities::new();
    assert_eq!(
        Format::ExtFloat32(ExtFloat32Format::Mono).into_raw(Some(&caps)),
        Err(AltoError::ExtensionNotPresent)
    );
    let other = {
        let mut t = ExtensionTokens::new();
        t.advertise(0, 0x10016);
        let mut c = Capabilities::new();
        c.mulaw = Some(t);
        c
    };
    assert_eq!(
        Format::ExtFloat32(ExtFloat32Format::Mono).into_raw(Some(&other)),
        Err(AltoError::ExtensionNotPresent)
    );
}

#[test]
fn extension_with_capability_resolves() {
    let caps = float32_caps();
    assert_eq!(Format::ExtFloat32(ExtFloat32Format::Mono).into_raw(Some(&caps)), Ok(0x10010));
}

#[test]
fn extension_token_absent_fails() {
    let caps = float32_caps();
    assert_eq!(
        Format::ExtFloat32(ExtFloat32Format::Stereo).into_raw(Some(&caps)),
        Err(AltoError::ExtensionNotPresent)
    );
    let mut bare = Capabilities::new();
    bare.float32 = Some(ExtensionTokens::new());
    assert_eq!(
        Format::ExtFloat32(ExtFloat32Format::Mono).into_raw(Some(&bare)),
        Err(AltoError::ExtensionNotPresent)
    );
}

#[test]
fn every_family_resolves_through_its_own_capability() {
    let families: Vec<(Extension, Format, usize)> = vec![
        (Extension::ALaw, Format::ExtALaw(ExtALawFormat::Stereo), 1),
        (Extension::BFormat, Format::ExtBFormat(ExtBFormat::B3DF32), 5),
        (Extension::Double, Format::ExtDouble(ExtDoubleFormat::Stereo), 1),
        (Extension::Float32, Format::ExtFloat32(ExtFloat32Format::Mono), 0),
        (Extension::Ima4, Format::ExtIma4(ExtIma4Format::Stereo), 1),
        (Extension::McFormats, Format::ExtMcFormats(ExtMcFormat::Mc71ChnF32), 14),
        (Extension::MuLaw, Format::ExtMuLaw(ExtMuLawFormat::Mono), 0),
        (Extension::MuLawBFormat, Format::ExtMuLawBFormat(ExtMuLawBFormat::B3D), 1),
        (Extension::MuLawMcFormats, Format::ExtMuLawMcFormats(ExtMuLawMcFormat::Rear), 3),
        (Extension::SoftMsadpcm, Format::SoftMsadpcm(SoftMsadpcmFormat::Mono), 0),
    ];
    for (i, (ext, format, slot)) in families.iter().enumerate() {
        let token = 0x2000 + i as i32;
        let mut t = ExtensionTokens::new();
        t.advertise(*slot, token);
        let mut caps = Capabilities::new();
        match ext {
            Extension::ALaw => caps.alaw = Some(t),
            Extension::BFormat => caps.bformat = Some(t),
            Extension::Double => caps.double = Some(t),
            Extension::Float32 => caps.float32 = Some(t),
            Extension::Ima4 => caps.ima4 = Some(t),
            Extension::McFormats => caps.mc_formats = Some(t),
            Extension::MuLaw => caps.mulaw = Some(t),
            Extension::MuLawBFormat => caps.mulaw_bformat = Some(t),
            Extension::MuLawMcFormats => caps.mulaw_mc_formats = Some(t),
            Extension::SoftMsadpcm => caps.soft_msadpcm = Some(t),
        }
        assert!(caps.extension(*ext).is_some());
        assert_eq!(format.into_raw(Some(&caps)), Ok(token));
        for (j, (other_ext, other, _)) in families.iter().enumerate() {
            if j != i {
                assert!(caps.extension(*other_ext).is_none());
                assert_eq!(other.into_raw(Some(&caps)), Err(AltoError::ExtensionNotPresent));
            }
        }
    }
}

#[test]
fn format_slots_follow_declaration_order() {
    assert_eq!(ExtMcFormat::QuadU8.slot(), 0);
    assert_eq!(ExtMcFormat::RearI16.slot(), 4);
    assert_eq!(ExtMcFormat::Mc51ChnF32.slot(), 8);
    assert_eq!(ExtBFormat::B3DU8.slot(), 3);
    assert_eq!(ExtMuLawMcFormat::Mc71Chn.slot(), 6);
    assert_eq!(ExtIma4Format::Mono.slot(), 0);
}

#[test]
fn tokens_advertise_and_replace() {
    let mut t = ExtensionTokens::new();
    assert_eq!(t.token(0), None);
    assert_eq!(t.token(7), None);
    t.advertise(3, 42);
    assert_eq!(t.token(3), Some(42));
    assert_eq!(t.token(0), None);
    assert_eq!(t.token(4), None);
    t.advertise(3, 43);
    t.advertise(0, 7);
    assert_eq!(t.token(3), Some(43));
    assert_eq!(t.token(0), Some(7));
}

#[test]
fn many_formats_share_one_capability() {
    let mut t = ExtensionTokens::new();
    t.advertise(ExtMcFormat::QuadI16.slot(), 0x1205);
    t.advertise(ExtMcFormat::Mc51ChnU8.slot(), 0x120A);
    let mut caps = Capabilities::new();
    caps.mc_formats = Some(t);
    assert_eq!(ExtMcFormat::QuadI16.into_raw(Some(&caps)), Ok(0x1205));
    assert_eq!(ExtMcFormat::Mc51ChnU8.into_raw(Some(&caps)), Ok(0x120A));
    assert_eq!(ExtMcFormat::Mc51ChnI16.into_raw(Some(&caps)), Err(AltoError::ExtensionNotPresent));
    assert_eq!(ExtMcFormat::QuadI16.into_raw(None), Err(AltoError::ExtensionNotPresent));
}
