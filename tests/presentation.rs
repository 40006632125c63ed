use cl_frames::{
    drain_events, fill_pixels, frame_action, is_quit_event, step, FrameAction, InputEvent, Key,
    LoopState, BYTES_PER_PIXEL,
};

#[test]
fn fill_without_padding_ramps_every_row() {
    let mut buf = vec![9u8; 16];
    fill_pixels(&mut buf, 2, 8);
    assert_eq!(buf, vec![0, 1, 2, 3, 4, 5, 6, 7, 0, 1, 2, 3, 4, 5, 6, 7]);
}

#[test]
fn fill_zeroes_row_padding() {
    let mut buf = vec![0xAAu8; 12];
    fill_pixels(&mut buf, 1, 6);
    assert_eq!(buf, vec![0, 1, 2, 3, 0, 0, 0, 1, 2, 3, 0, 0]);
}

#[test]
fn fill_ramp_wraps_at_byte_range() {
    let width = 100;
    let pitch = width * BYTES_PER_PIXEL;
    let mut buf = vec![0u8; pitch * 2];
    fill_pixels(&mut buf, width, pitch);
    assert_eq!(buf[255], 255);
    assert_eq!(buf[256], 0);
    assert_eq!(buf[399], 143);
    assert_eq!(buf[pitch + 257], 1);
}

#[test]
fn fill_is_the_same_on_every_call() {
    let (width, height, pitch) = (800usize, 3usize, 3208usize);
    let mut first = vec![1u8; pitch * height];
    let mut second = vec![200u8; pitch * height];
    fill_pixels(&mut first, width, pitch);
    fill_pixels(&mut second, width, pitch);
    assert_eq!(first, second);
    for row in 0..height {
        assert_eq!(first[row * pitch..row * pitch + 10], first[0..10]);
        assert_eq!(first[row * pitch + 3200], 0);
    }
}

#[test]
fn fill_of_empty_buffer() {
    let mut buf: Vec<u8> = Vec::new();
    fill_pixels(&mut buf, 4, 16);
    assert!(buf.is_empty());
}

#[test]
fn quit_and_escape_stop_the_loop() {
    assert!(is_quit_event(InputEvent::Quit));
    assert!(is_quit_event(InputEvent::KeyDown(Key::Escape)));
    assert!(!is_quit_event(InputEvent::KeyDown(Key::Other)));
    assert!(!is_quit_event(InputEvent::Other));
}

#[test]
fn injected_quit_terminates_within_one_iteration() {
    let events = vec![InputEvent::Other, InputEvent::Quit, InputEvent::KeyDown(Key::Other)];
    assert_eq!(step(LoopState::Running, &events), (LoopState::Terminated, FrameAction::Exit));
    let later = vec![InputEvent::Other];
    assert_eq!(step(LoopState::Terminated, &later), (LoopState::Terminated, FrameAction::Exit));
    assert_eq!(step(LoopState::Terminated, &Vec::new()), (LoopState::Terminated, FrameAction::Exit));
}

#[test]
fn events_after_quit_are_discarded() {
    let events = vec![
        InputEvent::KeyDown(Key::Other),
        InputEvent::KeyDown(Key::Escape),
        InputEvent::Quit,
        InputEvent::Other,
    ];
    assert_eq!(drain_events(LoopState::Running, &events), (LoopState::Terminated, 2));
    assert_eq!(drain_events(LoopState::Terminated, &events), (LoopState::Terminated, 0));
}

#[test]
fn other_input_keeps_rendering() {
    let events = vec![InputEvent::Other, InputEvent::KeyDown(Key::Other)];
    assert_eq!(drain_events(LoopState::Running, &events), (LoopState::Running, 2));
    assert_eq!(step(LoopState::Running, &events), (LoopState::Running, FrameAction::Render));
    assert_eq!(step(LoopState::Running, &Vec::new()), (LoopState::Running, FrameAction::Render));
    assert_eq!(frame_action(LoopState::Running), FrameAction::Render);
    assert_eq!(frame_action(LoopState::Terminated), FrameAction::Exit);
}
