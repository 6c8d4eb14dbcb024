use rvi::errors::RviError;
use rvi::img::{ResampledImage, SourceImage};
use rvi::pack::pack;
use rvi::pipeline::{redraw, FrameBuffer};
use rvi::scale::{compute_axis_scale, compute_fit_scale, compute_target_size, AxisScale};
use rvi::viewer::{
    initial_viewport, on_event, viewport_or_default, Action, KeyPress, ViewerEvent, ViewerState,
};

fn solid_source(width: u32, height: u32, rgb: (u8, u8, u8)) -> SourceImage {
    let mut data = Vec::new();
    for _ in 0..(width as usize) * (height as usize) {
        data.push(rgb.0);
        data.push(rgb.1);
        data.push(rgb.2);
    }
    SourceImage::from_rgb8(width, height, data).unwrap()
}

#[test]
fn axis_scale_clamps_when_source_fits_and_upscale_off() {
    assert_eq!(
        compute_axis_scale(1920, 100, false),
        AxisScale { num: 1, den: 1 }
    );
    assert_eq!(
        compute_axis_scale(100, 100, false),
        AxisScale { num: 1, den: 1 }
    );
    assert_eq!(
        compute_axis_scale(1920, 4000, false),
        AxisScale { num: 4000, den: 1920 }
    );
}

#[test]
fn axis_scale_with_upscale_is_always_the_ratio() {
    assert_eq!(
        compute_axis_scale(1920, 100, true),
        AxisScale { num: 100, den: 1920 }
    );
    assert_eq!(
        compute_axis_scale(100, 100, true),
        AxisScale { num: 100, den: 100 }
    );
    assert_eq!(
        compute_axis_scale(1920, 4000, true),
        AxisScale { num: 4000, den: 1920 }
    );
}

#[test]
fn fit_scale_takes_the_larger_axis() {
    // 3000/1080 > 4000/1920, so the height axis binds.
    assert_eq!(
        compute_fit_scale((1920, 1080), (4000, 3000), false),
        AxisScale { num: 3000, den: 1080 }
    );
}

#[test]
fn target_size_large_image_shrinks_to_fit() {
    let t = compute_target_size((1920, 1080), (4000, 3000), false);
    assert_eq!(t, (1440, 1080));
}

#[test]
fn target_size_small_image_stays_native() {
    let t = compute_target_size((1920, 1080), (100, 100), false);
    assert_eq!(t, (100, 100));
}

#[test]
fn target_size_small_image_grows_with_upscale() {
    let t = compute_target_size((200, 100), (100, 50), true);
    assert_eq!(t, (200, 100));
}

#[test]
fn target_size_never_exceeds_viewport() {
    let cases = [
        ((333, 777), (1000, 1000), false),
        ((1, 1), (4000, 3000), false),
        ((1920, 1080), (1921, 1081), false),
        ((640, 480), (640, 481), false),
        ((700, 900), (13, 17), true),
        ((2, 3), (5, 7), true),
    ];
    for (avail, src, up) in cases {
        let (tw, th) = compute_target_size(avail, src, up);
        assert!(tw >= 1 && th >= 1);
        assert!(tw <= avail.0, "{tw} > {} for {src:?}", avail.0);
        assert!(th <= avail.1, "{th} > {} for {src:?}", avail.1);
    }
}

#[test]
fn pack_interleaves_opaque_alpha() {
    let resampled = ResampledImage {
        width: 2,
        height: 1,
        data: vec![10, 20, 30, 40, 50, 60],
    };
    let mut dest = vec![0u8; 8];
    pack(&resampled, &mut dest);
    assert_eq!(dest, vec![10, 20, 30, 255, 40, 50, 60, 255]);
}

#[test]
fn pack_round_trip_every_fourth_byte_is_alpha() {
    let mut data = Vec::new();
    for i in 0..30u8 {
        data.push(i);
    }
    let resampled = ResampledImage { width: 5, height: 2, data };
    let mut dest = vec![0u8; 40];
    pack(&resampled, &mut dest);
    for i in 0..10usize {
        assert_eq!(dest[4 * i], resampled.data[3 * i]);
        assert_eq!(dest[4 * i + 1], resampled.data[3 * i + 1]);
        assert_eq!(dest[4 * i + 2], resampled.data[3 * i + 2]);
        assert_eq!(dest[4 * i + 3], 255);
    }
}

#[test]
fn resample_twice_is_identical() {
    let mut data = Vec::new();
    for i in 0..48u8 {
        data.push(i.wrapping_mul(37));
    }
    let source = SourceImage::from_rgb8(4, 4, data).unwrap();
    let a = rvi::img::resample(&source, 2, 2);
    let b = rvi::img::resample(&source, 2, 2);
    assert_eq!(a.width, 2);
    assert_eq!(a.height, 2);
    assert_eq!(a.data.len(), 12);
    assert_eq!(a.data, b.data);
}

#[test]
fn resample_really_resizes() {
    let source = solid_source(4, 4, (7, 8, 9));
    let small = rvi::img::resample(&source, 2, 2);
    assert_eq!((small.width, small.height), (2, 2));
    assert_eq!(small.data, vec![7, 8, 9, 7, 8, 9, 7, 8, 9, 7, 8, 9]);
    let big = rvi::img::resample(&source, 8, 8);
    assert_eq!((big.width, big.height), (8, 8));
    assert_eq!(big.data.len(), 8 * 8 * 3);
}

#[test]
fn redraw_downscales_and_packs() {
    let source = solid_source(4, 4, (7, 8, 9));
    let mut frame = FrameBuffer::new();
    redraw(&mut frame, &source, (2, 2), false);
    assert_eq!((frame.width, frame.height), (2, 2));
    assert_eq!(
        frame.data,
        vec![7, 8, 9, 255, 7, 8, 9, 255, 7, 8, 9, 255, 7, 8, 9, 255]
    );
}

#[test]
fn redraw_leaves_small_image_at_native_size() {
    let source = solid_source(2, 2, (1, 2, 3));
    let mut frame = FrameBuffer::new();
    redraw(&mut frame, &source, (1920, 1080), false);
    assert_eq!((frame.width, frame.height), (2, 2));
    assert_eq!(frame.data.len(), 2 * 2 * 4);
}

#[test]
fn from_rgb8_rejects_short_data() {
    assert!(matches!(
        SourceImage::from_rgb8(2, 2, vec![0; 11]),
        Err(RviError::ImageError)
    ));
    assert!(matches!(
        SourceImage::from_rgb8(2, 2, vec![0; 13]),
        Err(RviError::ImageError)
    ));
}

#[test]
fn from_rgb8_rejects_zero_dimension() {
    assert!(matches!(
        SourceImage::from_rgb8(0, 2, vec![]),
        Err(RviError::ImageError)
    ));
    assert!(matches!(
        SourceImage::from_rgb8(2, 0, vec![]),
        Err(RviError::ImageError)
    ));
}

#[test]
fn from_rgb8_accepts_exact_data() {
    let img = SourceImage::from_rgb8(2, 1, vec![1, 2, 3, 4, 5, 6]).unwrap();
    assert_eq!(img.width, 2);
    assert_eq!(img.height, 1);
    assert_eq!(img.data, vec![1, 2, 3, 4, 5, 6]);
}

#[test]
fn debounce_burst_fires_exactly_once_after_quiescence() {
    let source = solid_source(4, 4, (9, 9, 9));
    let mut state = ViewerState::new(100, false);
    let mut presents = 0;

    // Resize notifications at t = 0, 20, 40, 90 ms.
    for t in [0u64, 20, 40, 90] {
        let action = on_event(&mut state, &source, (30, 30), t, ViewerEvent::Resized);
        assert_eq!(action, Action::Continue);
    }
    // Polls strictly before t = 190 ms observe nothing.
    for t in [100u64, 150, 189] {
        let action = on_event(&mut state, &source, (40, 40), t, ViewerEvent::Tick);
        assert_eq!(action, Action::Continue);
    }
    // The first poll at or after 90 + 100 ms fires, with the viewport of
    // that moment, and later polls stay quiet.
    for t in [190u64, 200, 500] {
        let action = on_event(&mut state, &source, (2, 2), t, ViewerEvent::Tick);
        if action == Action::Present {
            presents += 1;
            assert_eq!((state.frame.width, state.frame.height), (2, 2));
        }
    }
    assert_eq!(presents, 1);
}

#[test]
fn close_and_quit_exit_the_loop() {
    let source = solid_source(2, 2, (0, 0, 0));
    let mut state = ViewerState::new(100, false);
    assert_eq!(
        on_event(&mut state, &source, (10, 10), 0, ViewerEvent::CloseRequested),
        Action::Exit
    );
    assert_eq!(
        on_event(&mut state, &source, (10, 10), 0, ViewerEvent::KeyPressed(KeyPress::Quit)),
        Action::Exit
    );
    assert_eq!(
        on_event(&mut state, &source, (10, 10), 0, ViewerEvent::KeyPressed(KeyPress::Other)),
        Action::Continue
    );
}

#[test]
fn manual_redraw_presents_at_once() {
    let source = solid_source(4, 4, (5, 6, 7));
    let mut state = ViewerState::new(100, false);
    let action = on_event(
        &mut state,
        &source,
        (2, 2),
        0,
        ViewerEvent::KeyPressed(KeyPress::Redraw),
    );
    assert_eq!(action, Action::Present);
    assert_eq!((state.frame.width, state.frame.height), (2, 2));
    assert_eq!(state.frame.data.len(), 2 * 2 * 4);
}

#[test]
fn viewport_fallback_is_used_only_without_a_display() {
    assert_eq!(viewport_or_default(Some((800, 600)), (640, 480)), (800, 600));
    assert_eq!(viewport_or_default(None, (640, 480)), (640, 480));
}

#[test]
fn initial_viewport_takes_a_share_of_the_screen() {
    assert_eq!(initial_viewport((1920, 1080), 90), (1728, 972));
    assert_eq!(initial_viewport((100, 100), 100), (100, 100));
}
