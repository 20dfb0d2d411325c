use vstd::prelude::*;
use crate::frame::Swapchain;
use crate::negotiate::OxrGraphicsInfo;
use crate::status::{command_honored, required_status, SessionCommand, XrStatus};

verus! {

/// A slot that holds at most one value; taking the value empties the slot, so a value put in
/// once is taken out at most once.
pub struct Mailbox<T> {
    slot: Option<T>,
}

impl<T> View for Mailbox<T> {
    type V = Option<T>;

    closed spec fn view(&self) -> Option<T> {
        self.slot
    }
}

impl<T> Mailbox<T> {
    /// An empty slot.
    pub fn new() -> (r: Self)
        ensures
            r@ is None,
    {
        Mailbox { slot: None }
    }

    /// Puts `value` in the slot and hands back what it held before.
    pub fn put(&mut self, value: T) -> (r: Option<T>)
        ensures
            final(self)@ == Some(value),
            r == old(self)@,
    {
        let prior = self.slot.take();
        self.slot = Some(value);
        prior
    }

    /// Takes the value out, leaving the slot empty.
    pub fn take(&mut self) -> (r: Option<T>)
        ensures
            final(self)@ is None,
            r == old(self)@,
    {
        self.slot.take()
    }

    /// Whether the slot is empty.
    pub fn is_empty(&self) -> (r: bool)
        ensures
            r == (self@ is None),
    {
        self.slot.is_none()
    }
}

/// Everything a successful session creation produced. Handles stand for the runtime's
/// objects.
#[derive(Clone, Copy, Debug, PartialEq, Eq, Structural)]
pub struct SessionResources {
    pub session: u64,
    pub frame_waiter: u64,
    pub frame_stream: u64,
    pub swapchain: Swapchain,
    pub images: u64,
    pub graphics_info: OxrGraphicsInfo,
}

/// The part of the session resources that the render context takes over.
#[derive(Clone, Copy, Debug, PartialEq, Eq, Structural)]
pub struct OxrRenderResources {
    pub session: u64,
    pub frame_stream: u64,
    pub swapchain: Swapchain,
    pub images: u64,
    pub graphics_info: OxrGraphicsInfo,
}

/// The main context's resource store.
pub struct MainWorld {
    pub session: Option<u64>,
    pub frame_waiter: Option<u64>,
    pub images: Option<u64>,
    pub graphics_info: Option<OxrGraphicsInfo>,
    /// Resources waiting to be moved to the render context.
    pub pending: Mailbox<OxrRenderResources>,
    /// Whether the session has begun.
    pub session_started: bool,
    /// Set for one tick when the render context must free its session resources.
    pub cleanup_session: bool,
}

/// The render context's resource store.
#[derive(Clone, Copy, Debug, PartialEq, Eq, Structural)]
pub struct RenderWorld {
    pub session: Option<u64>,
    pub frame_stream: Option<u64>,
    pub swapchain: Option<Swapchain>,
    pub images: Option<u64>,
    pub graphics_info: Option<OxrGraphicsInfo>,
    pub session_started: bool,
}

/// The render context's store once its session resources are freed.
pub open spec fn render_torn_down(r: RenderWorld) -> RenderWorld {
    RenderWorld {
        session: None,
        frame_stream: None,
        swapchain: None,
        images: None,
        graphics_info: None,
        session_started: false,
    }
}

/// The render context's store after taking over `b`.
pub open spec fn render_with(r: RenderWorld, b: OxrRenderResources) -> RenderWorld {
    RenderWorld {
        session: Some(b.session),
        frame_stream: Some(b.frame_stream),
        swapchain: Some(b.swapchain),
        images: Some(b.images),
        graphics_info: Some(b.graphics_info),
        ..r
    }
}

impl MainWorld {
    /// A main context with no session.
    pub fn new() -> (r: Self)
        ensures
            r.session is None,
            r.frame_waiter is None,
            r.images is None,
            r.graphics_info is None,
            r.pending@ is None,
            !r.session_started,
            !r.cleanup_session,
    {
        MainWorld {
            session: None,
            frame_waiter: None,
            images: None,
            graphics_info: None,
            pending: Mailbox::new(),
            session_started: false,
            cleanup_session: false,
        }
    }
}

impl RenderWorld {
    /// A render context with no session.
    pub fn new() -> (r: Self)
        ensures
            r == render_torn_down(r),
    {
        RenderWorld {
            session: None,
            frame_stream: None,
            swapchain: None,
            images: None,
            graphics_info: None,
            session_started: false,
        }
    }
}

/// The main context's store after session creation stored `c`.
pub open spec fn main_after_create(before: MainWorld, after: MainWorld, c: SessionResources) -> bool {
    &&& after.session == Some(c.session)
    &&& after.frame_waiter == Some(c.frame_waiter)
    &&& after.images == Some(c.images)
    &&& after.graphics_info == Some(c.graphics_info)
    &&& after.pending@ == Some(
        OxrRenderResources {
            session: c.session,
            frame_stream: c.frame_stream,
            swapchain: c.swapchain,
            images: c.images,
            graphics_info: c.graphics_info,
        },
    )
    &&& after.session_started == before.session_started
    &&& after.cleanup_session == before.cleanup_session
}

/// The main context's store after the session resources it owns were freed.
pub open spec fn main_after_destroy(before: MainWorld, after: MainWorld) -> bool {
    &&& after.frame_waiter is None
    &&& after.images is None
    &&& after.graphics_info is None
    &&& after.session == before.session
    &&& after.pending@ == before.pending@
    &&& after.session_started == before.session_started
    &&& after.cleanup_session == before.cleanup_session
}

/// The main context's store with only the session-started flag set to `started`.
pub open spec fn main_with_started(before: MainWorld, after: MainWorld, started: bool) -> bool {
    &&& after.session_started == started
    &&& after.session == before.session
    &&& after.frame_waiter == before.frame_waiter
    &&& after.images == before.images
    &&& after.graphics_info == before.graphics_info
    &&& after.pending@ == before.pending@
    &&& after.cleanup_session == before.cleanup_session
}

/// Stores what session creation produced: the main context keeps the session, the frame
/// waiter, the images and the graphics info, and the render context's share waits in the
/// mailbox. A failed creation (`None`) changes nothing.
pub fn create_xr_session(main: &mut MainWorld, created: Option<SessionResources>) -> (r: bool)
    ensures
        r == created is Some,
        match created {
            Some(c) => main_after_create(*old(main), *final(main), c),
            None => *final(main) == *old(main),
        },
{
    match created {
        Some(c) => {
            main.session = Some(c.session);
            main.frame_waiter = Some(c.frame_waiter);
            main.images = Some(c.images);
            main.graphics_info = Some(c.graphics_info);
            let _ = main.pending.put(
                OxrRenderResources {
                    session: c.session,
                    frame_stream: c.frame_stream,
                    swapchain: c.swapchain,
                    images: c.images,
                    graphics_info: c.graphics_info,
                },
            );
            true
        },
        None => false,
    }
}

/// Moves the waiting render resources into the render context, while no session runs there.
/// The mailbox is empty afterwards, so the move happens once.
pub fn transfer_xr_resources(main: &mut MainWorld, render: &mut RenderWorld, status: XrStatus) -> (r:
    bool)
    ensures
        r == (status != XrStatus::Running && old(main).pending@ is Some),
        r ==> final(main).pending@ is None && *final(render) == render_with(
            *old(render),
            old(main).pending@->0,
        ),
        !r ==> final(main).pending@ == old(main).pending@ && *final(render) == *old(render),
        final(main).session == old(main).session,
        final(main).frame_waiter == old(main).frame_waiter,
        final(main).images == old(main).images,
        final(main).graphics_info == old(main).graphics_info,
        final(main).session_started == old(main).session_started,
        final(main).cleanup_session == old(main).cleanup_session,
{
    if status == XrStatus::Running {
        return false;
    }
    match main.pending.take() {
        Some(b) => {
            render.session = Some(b.session);
            render.frame_stream = Some(b.frame_stream);
            render.swapchain = Some(b.swapchain);
            render.images = Some(b.images);
            render.graphics_info = Some(b.graphics_info);
            true
        },
        None => false,
    }
}

/// Marks the session as begun.
pub fn begin_xr_session(main: &mut MainWorld)
    ensures
        final(main).session_started,
        final(main).session == old(main).session,
        final(main).frame_waiter == old(main).frame_waiter,
        final(main).images == old(main).images,
        final(main).graphics_info == old(main).graphics_info,
        final(main).pending@ == old(main).pending@,
        final(main).cleanup_session == old(main).cleanup_session,
{
    main.session_started = true;
}

/// Marks the session as no longer begun.
pub fn end_xr_session(main: &mut MainWorld)
    ensures
        !final(main).session_started,
        final(main).session == old(main).session,
        final(main).frame_waiter == old(main).frame_waiter,
        final(main).images == old(main).images,
        final(main).graphics_info == old(main).graphics_info,
        final(main).pending@ == old(main).pending@,
        final(main).cleanup_session == old(main).cleanup_session,
{
    main.session_started = false;
}

/// Clears the one-tick cleanup request at the start of a tick.
pub fn reset_per_frame_resources(main: &mut MainWorld)
    ensures
        !final(main).cleanup_session,
        final(main).session == old(main).session,
        final(main).frame_waiter == old(main).frame_waiter,
        final(main).images == old(main).images,
        final(main).graphics_info == old(main).graphics_info,
        final(main).pending@ == old(main).pending@,
        final(main).session_started == old(main).session_started,
{
    main.cleanup_session = false;
}

/// Handles the about-to-be-destroyed signal in the main context: drops the session handle
/// and asks the render context to free its share.
pub fn clean_session(main: &mut MainWorld)
    ensures
        final(main).session is None,
        final(main).cleanup_session,
        final(main).frame_waiter == old(main).frame_waiter,
        final(main).images == old(main).images,
        final(main).graphics_info == old(main).graphics_info,
        final(main).pending@ == old(main).pending@,
        final(main).session_started == old(main).session_started,
{
    main.session = None;
    main.cleanup_session = true;
}

/// Frees the session resources that the main context owns. Freeing what is already gone is
/// no error.
pub fn destroy_xr_session(main: &mut MainWorld)
    ensures
        final(main).frame_waiter is None,
        final(main).images is None,
        final(main).graphics_info is None,
        final(main).session == old(main).session,
        final(main).pending@ == old(main).pending@,
        final(main).session_started == old(main).session_started,
        final(main).cleanup_session == old(main).cleanup_session,
{
    main.frame_waiter = None;
    main.images = None;
    main.graphics_info = None;
}

/// Frees the session resources that the render context owns, the session handle last, and
/// clears its session-started flag. Freeing what is already gone is no error.
pub fn destroy_xr_session_render(render: &mut RenderWorld)
    ensures
        *final(render) == render_torn_down(*old(render)),
{
    render.swapchain = None;
    render.frame_stream = None;
    render.images = None;
    render.graphics_info = None;
    render.session = None;
    render.session_started = false;
}

/// Whether the session-started flag is present and set.
pub fn session_started(started: Option<bool>) -> (r: bool)
    ensures
        r == (started == Some(true)),
{
    match started {
        Some(s) => s,
        None => false,
    }
}

/// Acts on a session command in the main context, only when the status is the one the command
/// requires; under any other status the command is skipped and nothing changes. `created` is
/// what the session factory produced for a create command (`None` when it failed, which also
/// changes nothing); it is ignored for the other commands. Returns whether the command acted.
pub fn run_session_command(
    main: &mut MainWorld,
    status: XrStatus,
    command: SessionCommand,
    created: Option<SessionResources>,
) -> (r: bool)
    ensures
        r == (status == required_status(command) && (command == SessionCommand::Create
            ==> created is Some)),
        !r ==> *final(main) == *old(main),
        r ==> match command {
            SessionCommand::Create => main_after_create(*old(main), *final(main), created->0),
            SessionCommand::Begin => main_with_started(*old(main), *final(main), true),
            SessionCommand::End => main_with_started(*old(main), *final(main), false),
            SessionCommand::Destroy => main_after_destroy(*old(main), *final(main)),
        },
{
    if !command_honored(command, status) {
        return false;
    }
    match command {
        SessionCommand::Create => create_xr_session(main, created),
        SessionCommand::Begin => {
            begin_xr_session(main);
            true
        },
        SessionCommand::End => {
            end_xr_session(main);
            true
        },
        SessionCommand::Destroy => {
            destroy_xr_session(main);
            true
        },
    }
}

/// Tearing down the render context twice in a row is the same as once: the second pass finds
/// nothing, and every session resource stays absent.
pub proof fn lemma_render_teardown_idempotent(r: RenderWorld)
    ensures
        render_torn_down(render_torn_down(r)) == render_torn_down(r),
        render_torn_down(r).session is None,
        render_torn_down(r).frame_stream is None,
        render_torn_down(r).swapchain is None,
        render_torn_down(r).images is None,
        render_torn_down(r).graphics_info is None,
        !render_torn_down(r).session_started,
{
}

} // verus!
