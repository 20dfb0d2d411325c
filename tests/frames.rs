use xr_lifecycle::frame::{
    receive_waited_frame, should_render, FrameCycle, FrameError, FramePhase, OxrFrameState,
    PollResult, ProjectionLayer, ReceiveAction, ReceivePolicy, Swapchain,
};
use xr_lifecycle::negotiate::{EnvironmentBlendMode, OxrGraphicsInfo, Resolution};

fn info() -> OxrGraphicsInfo {
    OxrGraphicsInfo {
        blend_mode: EnvironmentBlendMode::AlphaBlend,
        resolution: Resolution { width: 1024, height: 1024 },
        format: 43,
    }
}

fn frame(time: i64, should_render: bool) -> OxrFrameState {
    OxrFrameState { predicted_display_time: time, predicted_display_period: 11_111_111, should_render }
}

fn full_cycle(cycle: &mut FrameCycle, time: i64, index: u32) -> Vec<ProjectionLayer> {
    assert_eq!(cycle.receive_frame(frame(time, true)), Ok(()));
    assert_eq!(cycle.locate_views(Some(2)), Ok(()));
    assert_eq!(cycle.begin_frame(), Ok(()));
    assert_eq!(cycle.acquire_image(index), Ok(()));
    assert_eq!(cycle.wait_image(), Ok(()));
    assert_eq!(cycle.release_image(), Ok(()));
    let sub = cycle.end_frame().ok().unwrap();
    assert_eq!(sub.display_time, time);
    assert_eq!(sub.blend_mode, EnvironmentBlendMode::AlphaBlend);
    sub.layers
}

#[test]
fn skipped_frame_still_ends_with_no_layers() {
    let mut cycle = FrameCycle::new(Swapchain::new(7, 3), info());
    assert_eq!(cycle.receive_frame(frame(500, false)), Ok(()));
    assert_eq!(cycle.begin_frame(), Ok(()));
    assert_eq!(cycle.acquire_image(0), Err(FrameError::OutOfOrder));
    let sub = cycle.end_frame().ok().unwrap();
    assert_eq!(sub.display_time, 500);
    assert!(sub.layers.is_empty());
    assert_eq!(cycle.phase, FramePhase::Waiting);
    assert_eq!(cycle.frame_state, None);
}

#[test]
fn consecutive_cycles_share_the_swapchain() {
    let mut cycle = FrameCycle::new(Swapchain::new(7, 3), info());
    let first = full_cycle(&mut cycle, 100, 0);
    assert_eq!(cycle.swapchain.id, 7);
    let second = full_cycle(&mut cycle, 200, 1);
    assert_eq!(cycle.swapchain.id, 7);
    assert_eq!(cycle.swapchain.buffer_count, 3);
    let layer = |i| ProjectionLayer { image_index: i, view_count: 2, resolution: Resolution { width: 1024, height: 1024 } };
    assert_eq!(first, vec![layer(0)]);
    assert_eq!(second, vec![layer(1)]);
    let third = full_cycle(&mut cycle, 300, 2);
    assert_eq!(third, vec![layer(2)]);
    let fourth = full_cycle(&mut cycle, 400, 0);
    assert_eq!(fourth, vec![layer(0)]);
}

#[test]
fn image_index_outside_swapchain_is_refused() {
    let mut cycle = FrameCycle::new(Swapchain::new(7, 3), info());
    cycle.receive_frame(frame(1, true)).unwrap();
    cycle.begin_frame().unwrap();
    assert_eq!(cycle.acquire_image(3), Err(FrameError::ImageIndexOutOfRange));
    assert_eq!(cycle.phase, FramePhase::Begun { should_render: true });
    assert_eq!(cycle.acquire_image(2), Ok(()));
    assert_eq!(cycle.swapchain.image_index, 2);
}

#[test]
fn calls_out_of_order_are_refused() {
    let mut cycle = FrameCycle::new(Swapchain::new(1, 2), info());
    assert_eq!(cycle.begin_frame(), Err(FrameError::OutOfOrder));
    assert_eq!(cycle.end_frame().err(), Some(FrameError::OutOfOrder));
    assert_eq!(cycle.locate_views(Some(2)), Err(FrameError::OutOfOrder));
    cycle.receive_frame(frame(1, true)).unwrap();
    assert_eq!(cycle.receive_frame(frame(2, true)), Err(FrameError::OutOfOrder));
    assert_eq!(cycle.wait_image(), Err(FrameError::OutOfOrder));
    cycle.begin_frame().unwrap();
    assert_eq!(cycle.begin_frame(), Err(FrameError::OutOfOrder));
    assert_eq!(cycle.end_frame().err(), Some(FrameError::OutOfOrder));
    cycle.acquire_image(0).unwrap();
    assert_eq!(cycle.release_image(), Err(FrameError::OutOfOrder));
    cycle.wait_image().unwrap();
    assert_eq!(cycle.end_frame().err(), Some(FrameError::OutOfOrder));
    cycle.release_image().unwrap();
    assert!(cycle.end_frame().is_ok());
}

#[test]
fn failed_locate_keeps_prior_views() {
    let mut cycle = FrameCycle::new(Swapchain::new(1, 2), info());
    cycle.receive_frame(frame(1, true)).unwrap();
    cycle.locate_views(Some(2)).unwrap();
    cycle.begin_frame().unwrap();
    cycle.acquire_image(1).unwrap();
    cycle.wait_image().unwrap();
    cycle.release_image().unwrap();
    cycle.end_frame().ok().unwrap();
    cycle.receive_frame(frame(2, true)).unwrap();
    assert_eq!(cycle.locate_views(None), Ok(()));
    assert_eq!(cycle.view_count, 2);
}

#[test]
fn rendered_frame_without_views_submits_no_layer() {
    let mut cycle = FrameCycle::new(Swapchain::new(1, 2), info());
    cycle.receive_frame(frame(9, true)).unwrap();
    cycle.begin_frame().unwrap();
    cycle.acquire_image(0).unwrap();
    cycle.wait_image().unwrap();
    cycle.release_image().unwrap();
    let sub = cycle.end_frame().ok().unwrap();
    assert!(sub.layers.is_empty());
}

#[test]
fn receive_decisions() {
    let bounded = ReceivePolicy { poll_interval_ms: 1, max_retries: Some(3) };
    let unbounded = ReceivePolicy { poll_interval_ms: 2, max_retries: None };
    let f = frame(5, true);
    assert_eq!(receive_waited_frame(bounded, 0, PollResult::Ready(f)), ReceiveAction::Accept(f));
    assert_eq!(receive_waited_frame(bounded, 2, PollResult::Empty), ReceiveAction::SleepAndRetry(1));
    assert_eq!(receive_waited_frame(bounded, 3, PollResult::Empty), ReceiveAction::GiveUp);
    assert_eq!(receive_waited_frame(unbounded, 4_000_000_000, PollResult::Empty), ReceiveAction::SleepAndRetry(2));
    assert_eq!(receive_waited_frame(unbounded, 0, PollResult::Disconnected), ReceiveAction::ChannelClosed);
}

#[test]
fn should_render_gate() {
    assert!(!should_render(None));
    assert!(!should_render(Some(frame(1, false))));
    assert!(should_render(Some(frame(1, true))));
}

#[test]
fn more_than_two_views_submit_one_stereo_layer() {
    let mut cycle = FrameCycle::new(Swapchain::new(1, 2), info());
    cycle.receive_frame(frame(3, true)).unwrap();
    cycle.locate_views(Some(3)).unwrap();
    cycle.begin_frame().unwrap();
    cycle.acquire_image(1).unwrap();
    cycle.wait_image().unwrap();
    cycle.release_image().unwrap();
    let sub = cycle.end_frame().ok().unwrap();
    assert_eq!(
        sub.layers,
        vec![ProjectionLayer { image_index: 1, view_count: 2, resolution: Resolution { width: 1024, height: 1024 } }]
    );
}
