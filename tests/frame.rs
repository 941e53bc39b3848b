use alto::{
    ALawSample, BFormat2D, BFormat3D, ExtBFormat, ExtDoubleFormat, ExtFloat32Format, ExtMcFormat,
    ExtMuLawBFormat, ExtMuLawFormat, ExtMuLawMcFormat, ExtALawFormat, Float32Sample,
    Float64Sample, Format, FrameLayout, Mc51Chn, Mc61Chn, Mc71Chn, McQuad, McRear, Mono,
    MuLawSample, SampleFrame, StandardFormat, StandardFrame, Stereo,
};

fn shape<F: SampleFrame>() -> (usize, Format) {
    let first = (F::len(), F::format());
    assert_eq!(first, (F::len(), F::format()));
    first
}

fn standard<F: StandardFrame>() -> Format {
    F::format()
}

#[test]
fn frame_lengths() {
    assert_eq!(Stereo::<i16>::len(), 2);
    assert_eq!(Mc51Chn::<u8>::len(), 6);
    assert_eq!(BFormat3D::<Float32Sample>::len(), 4);
    assert_eq!(Mono::<u8>::len(), 1);
    assert_eq!(McRear::<i16>::len(), 1);
    assert_eq!(McQuad::<u8>::len(), 4);
    assert_eq!(Mc61Chn::<MuLawSample>::len(), 7);
    assert_eq!(Mc71Chn::<Float32Sample>::len(), 8);
    assert_eq!(BFormat2D::<i16>::len(), 3);
    assert_eq!(Mono::<Float64Sample>::len(), 1);
    assert_eq!(Stereo::<ALawSample>::len(), 2);
}

#[test]
fn every_shape_names_one_format() {
    let all: Vec<(usize, Format)> = vec![
        shape::<Mono<u8>>(),
        shape::<Mono<i16>>(),
        shape::<Mono<Float32Sample>>(),
        shape::<Mono<Float64Sample>>(),
        shape::<Mono<ALawSample>>(),
        shape::<Mono<MuLawSample>>(),
        shape::<Stereo<u8>>(),
        shape::<Stereo<i16>>(),
        shape::<Stereo<Float32Sample>>(),
        shape::<Stereo<Float64Sample>>(),
        shape::<Stereo<ALawSample>>(),
        shape::<Stereo<MuLawSample>>(),
        shape::<McRear<u8>>(),
        shape::<McRear<i16>>(),
        shape::<McRear<Float32Sample>>(),
        shape::<McRear<MuLawSample>>(),
        shape::<McQuad<u8>>(),
        shape::<McQuad<i16>>(),
        shape::<McQuad<Float32Sample>>(),
        shape::<McQuad<MuLawSample>>(),
        shape::<Mc51Chn<u8>>(),
        shape::<Mc51Chn<i16>>(),
        shape::<Mc51Chn<Float32Sample>>(),
        shape::<Mc51Chn<MuLawSample>>(),
        shape::<Mc61Chn<u8>>(),
        shape::<Mc61Chn<i16>>(),
        shape::<Mc61Chn<Float32Sample>>(),
        shape::<Mc61Chn<MuLawSample>>(),
        shape::<Mc71Chn<u8>>(),
        shape::<Mc71Chn<i16>>(),
        shape::<Mc71Chn<Float32Sample>>(),
        shape::<Mc71Chn<MuLawSample>>(),
        shape::<BFormat2D<u8>>(),
        shape::<BFormat2D<i16>>(),
        shape::<BFormat2D<Float32Sample>>(),
        shape::<BFormat2D<MuLawSample>>(),
        shape::<BFormat3D<u8>>(),
        shape::<BFormat3D<i16>>(),
        shape::<BFormat3D<Float32Sample>>(),
        shape::<BFormat3D<MuLawSample>>(),
    ];
    let expected: Vec<(usize, Format)> = vec![
        (1, Format::Standard(StandardFormat::MonoU8)),
        (1, Format::Standard(StandardFormat::MonoI16)),
        (1, Format::ExtFloat32(ExtFloat32Format::Mono)),
        (1, Format::ExtDouble(ExtDoubleFormat::Mono)),
        (1, Format::ExtALaw(ExtALawFormat::Mono)),
        (1, Format::ExtMuLaw(ExtMuLawFormat::Mono)),
        (2, Format::Standard(StandardFormat::StereoU8)),
        (2, Format::Standard(StandardFormat::StereoI16)),
        (2, Format::ExtFloat32(ExtFloat32Format::Stereo)),
        (2, Format::ExtDouble(ExtDoubleFormat::Stereo)),
        (2, Format::ExtALaw(ExtALawFormat::Stereo)),
        (2, Format::ExtMuLaw(ExtMuLawFormat::Stereo)),
        (1, Format::ExtMcFormats(ExtMcFormat::RearU8)),
        (1, Format::ExtMcFormats(ExtMcFormat::RearI16)),
        (1, Format::ExtMcFormats(ExtMcFormat::RearF32)),
        (1, Format::ExtMuLawMcFormats(ExtMuLawMcFormat::Rear)),
        (4, Format::ExtMcFormats(ExtMcFormat::QuadU8)),
        (4, Format::ExtMcFormats(ExtMcFormat::QuadI16)),
        (4, Format::ExtMcFormats(ExtMcFormat::QuadF32)),
        (4, Format::ExtMuLawMcFormats(ExtMuLawMcFormat::Quad)),
        (6, Format::ExtMcFormats(ExtMcFormat::Mc51ChnU8)),
        (6, Format::ExtMcFormats(ExtMcFormat::Mc51ChnI16)),
        (6, Format::ExtMcFormats(ExtMcFormat::Mc51ChnF32)),
        (6, Format::ExtMuLawMcFormats(ExtMuLawMcFormat::Mc51Chn)),
        (7, Format::ExtMcFormats(ExtMcFormat::Mc61ChnU8)),
        (7, Format::ExtMcFormats(ExtMcFormat::Mc61ChnI16)),
        (7, Format::ExtMcFormats(ExtMcFormat::Mc61ChnF32)),
        (7, Format::ExtMuLawMcFormats(ExtMuLawMcFormat::Mc61Chn)),
        (8, Format::ExtMcFormats(ExtMcFormat::Mc71ChnU8)),
        (8, Format::ExtMcFormats(ExtMcFormat::Mc71ChnI16)),
        (8, Format::ExtMcFormats(ExtMcFormat::Mc71ChnF32)),
        (8, Format::ExtMuLawMcFormats(ExtMuLawMcFormat::Mc71Chn)),
        (3, Format::ExtBFormat(ExtBFormat::B2DU8)),
        (3, Format::ExtBFormat(ExtBFormat::B2DI16)),
        (3, Format::ExtBFormat(ExtBFormat::B2DF32)),
        (3, Format::ExtMuLawBFormat(ExtMuLawBFormat::B2D)),
        (4, Format::ExtBFormat(ExtBFormat::B3DU8)),
        (4, Format::ExtBFormat(ExtBFormat::B3DI16)),
        (4, Format::ExtBFormat(ExtBFormat::B3DF32)),
        (4, Format::ExtMuLawBFormat(ExtMuLawBFormat::B3D)),
    ];
    assert_eq!(all, expected);
    for i in 0..all.len() {
        for j in 0..all.len() {
            if i != j {
                assert_ne!(all[i].1, all[j].1);
            }
        }
    }
}

#[test]
fn standard_frames_have_standard_formats() {
    assert_eq!(standard::<Mono<u8>>(), Format::Standard(StandardFormat::MonoU8));
    assert_eq!(standard::<Mono<i16>>(), Format::Standard(StandardFormat::MonoI16));
    assert_eq!(standard::<Stereo<u8>>(), Format::Standard(StandardFormat::StereoU8));
    assert_eq!(standard::<Stereo<i16>>(), Format::Standard(StandardFormat::StereoI16));
    assert_eq!(Stereo::<i16>::format().into_raw(None), Ok(0x1103));
}

#[test]
fn frame_read_and_write() {
    let samples: Vec<i16> = vec![10, 11, 12, 13, 14, 15, 16, 17];
    let f = McQuad::<i16>::read(&samples, 2);
    assert_eq!(f, McQuad { front_left: 12, front_right: 13, back_left: 14, back_right: 15 });
    let mut out = vec![0i16; 6];
    Stereo { left: -1i16, right: -2 }.write(&mut out, 3);
    assert_eq!(out, vec![0, 0, 0, -1, -2, 0]);
    let mut flat: Vec<u8> = vec![9];
    Mc51Chn { front_left: 1u8, front_right: 2, front_center: 3, low_freq: 4, back_left: 5, back_right: 6 }
        .push_samples(&mut flat);
    assert_eq!(flat, vec![9, 1, 2, 3, 4, 5, 6]);
}
