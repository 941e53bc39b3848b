use alto::{
    AsBufferData, AsBufferDataMut, BFormat2D, Float32Sample, FrameSlice, FrameSliceMut, Mc51Chn,
    Mono, Stereo,
};

#[test]
fn flat_buffer_reads_as_frames() {
    let samples: Vec<i16> = vec![1, 2, 3, 4, 5, 6];
    let view: FrameSlice<Stereo<i16>> = samples[..].as_buffer_data();
    assert_eq!(view.len(), 3);
    assert_eq!(view.get(0), Stereo { left: 1, right: 2 });
    assert_eq!(view.get(2), Stereo { left: 5, right: 6 });
    assert_eq!(
        view.to_vec(),
        vec![Stereo { left: 1, right: 2 }, Stereo { left: 3, right: 4 }, Stereo { left: 5, right: 6 }]
    );
    assert!(view.as_frames().is_none());
}

#[test]
fn round_trip_reproduces_buffer() {
    let samples: Vec<u8> = (0..24u8).collect();
    let view: FrameSlice<Mc51Chn<u8>> = samples[..].as_buffer_data();
    assert_eq!(view.len(), 4);
    assert_eq!(view.get(1).front_left, 6);
    assert_eq!(view.get(3).back_right, 23);
    assert_eq!(view.to_samples(), samples);

    let floats: Vec<Float32Sample> =
        [0.5f32, -1.0, 0.25, 2.0, 3.5, -0.75].iter().map(|x| Float32Sample(x.to_bits())).collect();
    let view: FrameSlice<BFormat2D<Float32Sample>> = floats[..].as_buffer_data();
    assert_eq!(view.len(), 2);
    assert_eq!(f32::from_bits(view.get(1).w.0), 2.0);
    assert_eq!(view.to_samples(), floats);
}

#[test]
fn frames_flatten_back_to_samples() {
    let frames = vec![Stereo { left: 7u8, right: 8 }, Stereo { left: 9, right: 10 }];
    let view: FrameSlice<Stereo<u8>> = frames[..].as_buffer_data();
    assert_eq!(view.to_samples(), vec![7, 8, 9, 10]);
    let flat = view.to_samples();
    let again: FrameSlice<Stereo<u8>> = flat[..].as_buffer_data();
    assert_eq!(again.to_vec(), frames);
}

#[test]
fn empty_buffer_has_no_frames() {
    let samples: Vec<i16> = Vec::new();
    let view: FrameSlice<Stereo<i16>> = samples[..].as_buffer_data();
    assert_eq!(view.len(), 0);
    assert!(view.to_vec().is_empty());
    assert!(view.to_samples().is_empty());
}

#[test]
fn partial_frame_is_refused() {
    let samples: Vec<u8> = vec![0; 6 * 3 + 1];
    assert!(FrameSlice::<Mc51Chn<u8>>::from_samples(&samples).is_none());
    assert!(FrameSlice::<Mc51Chn<u8>>::from_samples(&samples[..18]).is_some());
    let odd: Vec<i16> = vec![1, 2, 3];
    assert!(FrameSlice::<Stereo<i16>>::from_samples(&odd).is_none());
    let mut odd_mut = odd.clone();
    assert!(FrameSliceMut::<Stereo<i16>>::from_samples(&mut odd_mut).is_none());
    assert_eq!(odd_mut, odd);
    let whole: FrameSlice<Mono<i16>> = FrameSlice::from_samples(&odd).unwrap();
    assert_eq!(whole.len(), 3);
}

#[test]
fn frames_view_is_the_same_slice() {
    let frames = vec![Mono { center: 1i16 }, Mono { center: 2 }];
    let view: FrameSlice<Mono<i16>> = frames[..].as_buffer_data();
    let inner = view.as_frames().unwrap();
    assert!(std::ptr::eq(inner, &frames[..]));
    assert_eq!(view.len(), 2);
    assert_eq!(view.get(1), Mono { center: 2 });
}

#[test]
fn mutable_view_writes_into_flat_buffer() {
    let mut samples: Vec<i16> = vec![0; 6];
    {
        let mut view: FrameSliceMut<Stereo<i16>> = samples[..].as_buffer_data_mut();
        assert_eq!(view.len(), 3);
        view.set(1, Stereo { left: 5, right: -5 });
        view.set(2, Stereo { left: 7, right: -7 });
        assert_eq!(view.get(1), Stereo { left: 5, right: -5 });
        view.release();
    }
    assert_eq!(samples, vec![0, 0, 5, -5, 7, -7]);
}

#[test]
fn mutable_view_of_frames_is_in_place() {
    let mut frames = vec![Mono { center: 1u8 }, Mono { center: 2 }, Mono { center: 3 }];
    {
        let mut view: FrameSliceMut<Mono<u8>> = frames[..].as_buffer_data_mut();
        view.set(0, Mono { center: 9 });
    }
    assert_eq!(frames, vec![Mono { center: 9 }, Mono { center: 2 }, Mono { center: 3 }]);
}

#[test]
fn owning_vector_delegates_to_its_contents() {
    let samples: Vec<i16> = vec![1, 2, 3, 4];
    let view: FrameSlice<Stereo<i16>> = samples.as_buffer_data();
    assert_eq!(view.to_vec(), vec![Stereo { left: 1, right: 2 }, Stereo { left: 3, right: 4 }]);

    let frames = vec![Stereo { left: 1i16, right: 2 }];
    let view: FrameSlice<Stereo<i16>> = frames.as_buffer_data();
    assert!(std::ptr::eq(view.as_frames().unwrap(), &frames[..]));

    let mut flat: Vec<u8> = vec![0; 3];
    {
        let mut view: FrameSliceMut<BFormat2D<u8>> = flat.as_buffer_data_mut();
        view.set(0, BFormat2D { w: 1, x: 2, y: 3 });
    }
    assert_eq!(flat, vec![1, 2, 3]);
}
