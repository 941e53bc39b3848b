use alto::{
    resolve_loopback, AltoError, Float32Sample, LoopbackChannels, LoopbackFrame,
    LoopbackSampleType, Mc51Chn, Mc61Chn, Mc71Chn, McQuad, Mono, SoftLoopback, Stereo,
};

fn full() -> SoftLoopback {
    SoftLoopback {
        mono: Some(0x1500),
        stereo: Some(0x1501),
        quad: Some(0x1503),
        mc51: Some(0x1504),
        mc61: Some(0x1505),
        mc71: Some(0x1506),
        unsigned_byte: Some(0x1401),
        short: Some(0x1402),
        float: Some(0x1406),
    }
}

#[test]
fn missing_channel_token_fails_first() {
    let mut sl = full();
    sl.mono = None;
    assert_eq!(resolve_loopback::<Mono<u8>>(&sl), Err(AltoError::ExtensionNotPresent));
    assert_eq!(Mono::<u8>::channels(&sl), Err(AltoError::ExtensionNotPresent));
    assert_eq!(Mono::<u8>::sample_ty(&sl), Ok(0x1401));
    assert_eq!(resolve_loopback::<Stereo<u8>>(&sl), Ok((0x1501, 0x1401)));
}

#[test]
fn missing_sample_type_token_fails() {
    let mut sl = full();
    sl.short = None;
    assert_eq!(resolve_loopback::<McQuad<i16>>(&sl), Err(AltoError::ExtensionNotPresent));
    assert_eq!(resolve_loopback::<McQuad<u8>>(&sl), Ok((0x1503, 0x1401)));
}

#[test]
fn loopback_shapes_resolve_their_tokens() {
    let sl = full();
    assert_eq!(resolve_loopback::<Mono<i16>>(&sl), Ok((0x1500, 0x1402)));
    assert_eq!(resolve_loopback::<Stereo<Float32Sample>>(&sl), Ok((0x1501, 0x1406)));
    assert_eq!(resolve_loopback::<Mc51Chn<u8>>(&sl), Ok((0x1504, 0x1401)));
    assert_eq!(resolve_loopback::<Mc61Chn<i16>>(&sl), Ok((0x1505, 0x1402)));
    assert_eq!(resolve_loopback::<Mc71Chn<Float32Sample>>(&sl), Ok((0x1506, 0x1406)));
}

#[test]
fn nothing_advertised_fails() {
    let sl = SoftLoopback {
        mono: None,
        stereo: None,
        quad: None,
        mc51: None,
        mc61: None,
        mc71: None,
        unsigned_byte: None,
        short: None,
        float: None,
    };
    assert_eq!(resolve_loopback::<Stereo<i16>>(&sl), Err(AltoError::ExtensionNotPresent));
    assert_eq!(sl.channels(LoopbackChannels::Quad), Err(AltoError::ExtensionNotPresent));
    assert_eq!(sl.sample_type(LoopbackSampleType::Float), Err(AltoError::ExtensionNotPresent));
}

#[test]
fn token_lookup_by_kind() {
    let sl = full();
    assert_eq!(sl.channels(LoopbackChannels::Mc71), Ok(0x1506));
    assert_eq!(sl.sample_type(LoopbackSampleType::Short), Ok(0x1402));
}
