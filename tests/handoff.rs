use xr_lifecycle::frame::Swapchain;
use xr_lifecycle::handoff::{
    begin_xr_session, clean_session, create_xr_session, destroy_xr_session,
    destroy_xr_session_render, end_xr_session, reset_per_frame_resources, session_started,
    run_session_command, transfer_xr_resources, Mailbox, MainWorld, RenderWorld,
    SessionResources,
};
use xr_lifecycle::negotiate::{EnvironmentBlendMode, OxrGraphicsInfo, Resolution};
use xr_lifecycle::status::{SessionCommand, XrStatus};

fn resources() -> SessionResources {
    SessionResources {
        session: 11,
        frame_waiter: 12,
        frame_stream: 13,
        swapchain: Swapchain::new(14, 3),
        images: 15,
        graphics_info: OxrGraphicsInfo {
            blend_mode: EnvironmentBlendMode::Opaque,
            resolution: Resolution { width: 1832, height: 1920 },
            format: 43,
        },
    }
}

#[test]
fn render_teardown_twice_is_harmless() {
    let mut main = MainWorld::new();
    let mut render = RenderWorld::new();
    create_xr_session(&mut main, Some(resources()));
    transfer_xr_resources(&mut main, &mut render, XrStatus::Idle);
    render.session_started = true;
    destroy_xr_session_render(&mut render);
    assert_eq!(render, RenderWorld::new());
    destroy_xr_session_render(&mut render);
    assert_eq!(render, RenderWorld::new());
}

#[test]
fn resources_move_to_render_once() {
    let mut main = MainWorld::new();
    let mut render = RenderWorld::new();
    assert!(create_xr_session(&mut main, Some(resources())));
    assert_eq!(main.session, Some(11));
    assert_eq!(main.frame_waiter, Some(12));
    assert!(!main.pending.is_empty());
    assert!(transfer_xr_resources(&mut main, &mut render, XrStatus::Idle));
    assert!(main.pending.is_empty());
    assert_eq!(render.session, Some(11));
    assert_eq!(render.frame_stream, Some(13));
    assert_eq!(render.swapchain, Some(Swapchain::new(14, 3)));
    assert_eq!(render.images, Some(15));
    let before = render;
    assert!(!transfer_xr_resources(&mut main, &mut render, XrStatus::Idle));
    assert_eq!(render, before);
}

#[test]
fn no_transfer_while_running() {
    let mut main = MainWorld::new();
    let mut render = RenderWorld::new();
    create_xr_session(&mut main, Some(resources()));
    assert!(!transfer_xr_resources(&mut main, &mut render, XrStatus::Running));
    assert!(!main.pending.is_empty());
    assert_eq!(render, RenderWorld::new());
}

#[test]
fn failed_creation_changes_nothing() {
    let mut main = MainWorld::new();
    assert!(!create_xr_session(&mut main, None));
    assert_eq!(main.session, None);
    assert!(main.pending.is_empty());
}

#[test]
fn main_teardown_frees_its_share() {
    let mut main = MainWorld::new();
    create_xr_session(&mut main, Some(resources()));
    begin_xr_session(&mut main);
    assert!(main.session_started);
    clean_session(&mut main);
    assert_eq!(main.session, None);
    assert!(main.cleanup_session);
    destroy_xr_session(&mut main);
    assert_eq!(main.frame_waiter, None);
    assert_eq!(main.images, None);
    assert_eq!(main.graphics_info, None);
    destroy_xr_session(&mut main);
    assert_eq!(main.frame_waiter, None);
    reset_per_frame_resources(&mut main);
    assert!(!main.cleanup_session);
    end_xr_session(&mut main);
    assert!(!main.session_started);
}

#[test]
fn mailbox_take_empties() {
    let mut m: Mailbox<u32> = Mailbox::new();
    assert!(m.is_empty());
    assert_eq!(m.put(4), None);
    assert_eq!(m.put(5), Some(4));
    assert_eq!(m.take(), Some(5));
    assert_eq!(m.take(), None);
}

#[test]
fn session_started_gate() {
    assert!(!session_started(None));
    assert!(!session_started(Some(false)));
    assert!(session_started(Some(true)));
}

#[test]
fn commands_act_only_in_their_status() {
    let mut main = MainWorld::new();
    assert!(!run_session_command(&mut main, XrStatus::Idle, SessionCommand::Create, Some(resources())));
    assert_eq!(main.session, None);
    assert!(main.pending.is_empty());
    assert!(!run_session_command(&mut main, XrStatus::Available, SessionCommand::Create, None));
    assert_eq!(main.session, None);
    assert!(run_session_command(&mut main, XrStatus::Available, SessionCommand::Create, Some(resources())));
    assert_eq!(main.session, Some(11));
    assert!(!main.pending.is_empty());

    assert!(!run_session_command(&mut main, XrStatus::Idle, SessionCommand::Begin, None));
    assert!(!main.session_started);
    assert!(run_session_command(&mut main, XrStatus::Ready, SessionCommand::Begin, None));
    assert!(main.session_started);
    assert!(!run_session_command(&mut main, XrStatus::Ready, SessionCommand::End, None));
    assert!(main.session_started);
    assert!(run_session_command(&mut main, XrStatus::Running, SessionCommand::End, None));
    assert!(!main.session_started);

    assert!(!run_session_command(&mut main, XrStatus::Stopping, SessionCommand::Destroy, None));
    assert_eq!(main.frame_waiter, Some(12));
    assert!(run_session_command(&mut main, XrStatus::Exiting, SessionCommand::Destroy, None));
    assert_eq!(main.frame_waiter, None);
    assert_eq!(main.images, None);
    assert_eq!(main.graphics_info, None);
    assert_eq!(main.session, Some(11));
}
