use vstd::prelude::*;

verus! {

/// Lifecycle status of the XR session, as seen by the application.
#[derive(Clone, Copy, Debug, PartialEq, Eq, Structural)]
pub enum XrStatus {
    /// No XR session can be had here.
    Unavailable,
    /// A session can be created with a create command.
    Available,
    /// A session exists but is not ready to begin.
    Idle,
    /// The session is ready to begin rendering.
    Ready,
    /// The session is running and can be ended.
    Running,
    /// The session is being stopped.
    Stopping,
    /// The session is being destroyed.
    Exiting,
}

/// A session state as the XR runtime reports it in a state-change event.
#[derive(Clone, Copy, Debug, PartialEq, Eq, Structural)]
pub enum RuntimeSessionState {
    Idle,
    Ready,
    Synchronized,
    Visible,
    Focused,
    Stopping,
    LossPending,
    Exiting,
}

/// Lifecycle signals raised at two edges of the status machine.
#[derive(Clone, Copy, Debug, PartialEq, Eq, Structural)]
pub enum OxrSessionStatusEvent {
    /// The session left `Available` for `Idle`: it has been created.
    Created,
    /// The session is exiting or about to be lost.
    AboutToBeDestroyed,
}

/// The signal that carries every new status value.
#[derive(Clone, Copy, Debug, PartialEq, Eq, Structural)]
pub struct XrStatusChanged(pub XrStatus);

/// The commands that drive a session.
#[derive(Clone, Copy, Debug, PartialEq, Eq, Structural)]
pub enum SessionCommand {
    Create,
    Begin,
    End,
    Destroy,
}

/// Whether the automatic policy still has to ask for a session once one is available.
#[derive(Clone, Copy, Debug, PartialEq, Eq, Structural)]
pub struct XrCreateSessionWhenAvailabe(pub bool);

impl XrCreateSessionWhenAvailabe {
    /// The policy starts armed.
    pub fn new() -> (r: Self)
        ensures
            r.0,
    {
        XrCreateSessionWhenAvailabe(true)
    }
}

/// The status that a runtime state maps to.
pub open spec fn status_of_runtime_state(state: RuntimeSessionState) -> XrStatus {
    match state {
        RuntimeSessionState::Idle => XrStatus::Idle,
        RuntimeSessionState::Ready => XrStatus::Ready,
        RuntimeSessionState::Synchronized => XrStatus::Running,
        RuntimeSessionState::Visible => XrStatus::Running,
        RuntimeSessionState::Focused => XrStatus::Running,
        RuntimeSessionState::Stopping => XrStatus::Stopping,
        RuntimeSessionState::LossPending => XrStatus::Exiting,
        RuntimeSessionState::Exiting => XrStatus::Exiting,
    }
}

/// The lifecycle signal raised when `state` is reported while the status is `current`.
pub open spec fn signal_of(current: XrStatus, state: RuntimeSessionState) -> Option<OxrSessionStatusEvent> {
    match state {
        RuntimeSessionState::Idle => if current == XrStatus::Available {
            Some(OxrSessionStatusEvent::Created)
        } else {
            None
        },
        RuntimeSessionState::LossPending => Some(OxrSessionStatusEvent::AboutToBeDestroyed),
        RuntimeSessionState::Exiting => Some(OxrSessionStatusEvent::AboutToBeDestroyed),
        _ => None,
    }
}

/// The status after the runtime has reported `states` in order, starting from `start`.
pub open spec fn status_after(start: XrStatus, states: Seq<RuntimeSessionState>) -> XrStatus {
    if states.len() == 0 {
        start
    } else {
        status_of_runtime_state(states.last())
    }
}

pub open spec fn option_seq<T>(o: Option<T>) -> Seq<T> {
    match o {
        Some(v) => seq![v],
        None => Seq::empty(),
    }
}

/// The lifecycle signals raised, in order, while `states` are handled from `start`.
pub open spec fn signals_of(start: XrStatus, states: Seq<RuntimeSessionState>) -> Seq<OxrSessionStatusEvent>
    decreases states.len(),
{
    if states.len() == 0 {
        Seq::empty()
    } else {
        let before = states.drop_last();
        signals_of(start, before) + option_seq(signal_of(status_after(start, before), states.last()))
    }
}

/// The status that a command requires before it is honored.
pub open spec fn required_status(command: SessionCommand) -> XrStatus {
    match command {
        SessionCommand::Create => XrStatus::Available,
        SessionCommand::Begin => XrStatus::Ready,
        SessionCommand::End => XrStatus::Running,
        SessionCommand::Destroy => XrStatus::Exiting,
    }
}

/// The command that the automatic policy raises when the status has just become `current`.
pub open spec fn policy_command(current: XrStatus, armed: bool) -> Option<SessionCommand> {
    match current {
        XrStatus::Available => if armed {
            Some(SessionCommand::Create)
        } else {
            None
        },
        XrStatus::Ready => Some(SessionCommand::Begin),
        XrStatus::Exiting => Some(SessionCommand::Destroy),
        _ => None,
    }
}

/// Maps one reported runtime state to the new status and the lifecycle signal it raises.
pub fn map_runtime_state(current: XrStatus, state: RuntimeSessionState) -> (r: (
    XrStatus,
    Option<OxrSessionStatusEvent>,
))
    ensures
        r.0 == status_of_runtime_state(state),
        r.1 == signal_of(current, state),
{
    match state {
        RuntimeSessionState::Idle => {
            let signal = if current == XrStatus::Available {
                Some(OxrSessionStatusEvent::Created)
            } else {
                None
            };
            (XrStatus::Idle, signal)
        },
        RuntimeSessionState::Ready => (XrStatus::Ready, None),
        RuntimeSessionState::Synchronized => (XrStatus::Running, None),
        RuntimeSessionState::Visible => (XrStatus::Running, None),
        RuntimeSessionState::Focused => (XrStatus::Running, None),
        RuntimeSessionState::Stopping => (XrStatus::Stopping, None),
        RuntimeSessionState::LossPending => (
            XrStatus::Exiting,
            Some(OxrSessionStatusEvent::AboutToBeDestroyed),
        ),
        RuntimeSessionState::Exiting => (
            XrStatus::Exiting,
            Some(OxrSessionStatusEvent::AboutToBeDestroyed),
        ),
    }
}

/// What one drain of the runtime's event queue produced.
pub struct PolledEvents {
    /// One status-changed signal per state-change event, in order.
    pub changed: Vec<XrStatusChanged>,
    /// The lifecycle signals raised, in order.
    pub signals: Vec<OxrSessionStatusEvent>,
}

/// Handles every state change that the runtime reported since the last tick, in order.
pub fn poll_events(status: &mut XrStatus, states: &Vec<RuntimeSessionState>) -> (r: PolledEvents)
    ensures
        *final(status) == status_after(*old(status), states@),
        r.changed@.len() == states@.len(),
        forall|i: int|
            0 <= i < states@.len() ==> #[trigger] r.changed@[i] == XrStatusChanged(
                status_of_runtime_state(states@[i]),
            ),
        r.signals@ == signals_of(*old(status), states@),
{
    let ghost start = *status;
    let mut changed: Vec<XrStatusChanged> = Vec::new();
    let mut signals: Vec<OxrSessionStatusEvent> = Vec::new();
    let mut i: usize = 0;
    while i < states.len()
        invariant
            i <= states@.len(),
            *status == status_after(start, states@.take(i as int)),
            changed@.len() == i,
            forall|k: int|
                0 <= k < i ==> #[trigger] changed@[k] == XrStatusChanged(
                    status_of_runtime_state(states@[k]),
                ),
            signals@ == signals_of(start, states@.take(i as int)),
        decreases states@.len() - i,
    {
        let state = states[i];
        let (next, signal) = map_runtime_state(*status, state);
        let ghost before = signals@;
        match signal {
            Some(s) => signals.push(s),
            None => {},
        }
        changed.push(XrStatusChanged(next));
        *status = next;
        proof {
            let taken = states@.take(i + 1);
            assert(taken.drop_last() =~= states@.take(i as int));
            assert(taken.last() == state);
            assert(signals@ =~= before + option_seq(signal));
        }
        i = i + 1;
    }
    assert(states@.take(i as int) =~= states@);
    PolledEvents { changed, signals }
}

/// The status at startup: `Available` when the XR runtime could be set up, `Unavailable`
/// otherwise.
pub fn initial_status(xr_initialized: bool) -> (r: XrStatus)
    ensures
        r == if xr_initialized {
            XrStatus::Available
        } else {
            XrStatus::Unavailable
        },
{
    if xr_initialized {
        XrStatus::Available
    } else {
        XrStatus::Unavailable
    }
}

/// Whether a status value is present and is not `Unavailable`.
pub fn session_available(status: Option<XrStatus>) -> (r: bool)
    ensures
        r == (status is Some && status->0 != XrStatus::Unavailable),
{
    match status {
        Some(s) => s != XrStatus::Unavailable,
        None => false,
    }
}

/// Whether the status is `Ready` or `Running`.
pub fn session_ready_or_running(status: Option<XrStatus>) -> (r: bool)
    ensures
        r == (status == Some(XrStatus::Ready) || status == Some(XrStatus::Running)),
{
    match status {
        Some(XrStatus::Ready) | Some(XrStatus::Running) => true,
        _ => false,
    }
}

/// Whether the status is `Running`.
pub fn session_running(status: Option<XrStatus>) -> (r: bool)
    ensures
        r == (status == Some(XrStatus::Running)),
{
    match status {
        Some(XrStatus::Running) => true,
        _ => false,
    }
}

/// Whether a status value is present and equals `wanted`.
pub fn status_equals(status: Option<XrStatus>, wanted: XrStatus) -> (r: bool)
    ensures
        r == (status == Some(wanted)),
{
    match status {
        Some(s) => s == wanted,
        None => false,
    }
}

/// Whether any of this tick's status-changed signals carries `wanted`.
pub fn status_changed_to(changes: &Vec<XrStatusChanged>, wanted: XrStatus) -> (r: bool)
    ensures
        r == exists|i: int| 0 <= i < changes@.len() && #[trigger] changes@[i].0 == wanted,
{
    let mut i: usize = 0;
    while i < changes.len()
        invariant
            i <= changes@.len(),
            forall|k: int| 0 <= k < i ==> #[trigger] changes@[k].0 != wanted,
        decreases changes@.len() - i,
    {
        if changes[i].0 == wanted {
            return true;
        }
        i = i + 1;
    }
    false
}

/// The status that `command` requires.
pub fn command_status(command: SessionCommand) -> (r: XrStatus)
    ensures
        r == required_status(command),
{
    match command {
        SessionCommand::Create => XrStatus::Available,
        SessionCommand::Begin => XrStatus::Ready,
        SessionCommand::End => XrStatus::Running,
        SessionCommand::Destroy => XrStatus::Exiting,
    }
}

/// Whether `command` is acted on under `status`; otherwise it is skipped, not an error.
pub fn command_honored(command: SessionCommand, status: XrStatus) -> (r: bool)
    ensures
        r == (status == required_status(command)),
{
    command_status(command) == status
}

/// The automatic policy, run once per tick: on a status change it asks for a session when one
/// becomes available (once), for begin when ready, and for destroy when exiting.
pub fn handle_session(
    current: XrStatus,
    previous: &mut Option<XrStatus>,
    should_start_session: &mut XrCreateSessionWhenAvailabe,
) -> (r: Option<SessionCommand>)
    ensures
        *final(previous) == Some(current),
        *old(previous) == Some(current) ==> r is None && *final(should_start_session)
            == *old(should_start_session),
        *old(previous) != Some(current) ==> r == policy_command(current, old(should_start_session).0),
        final(should_start_session).0 == (old(should_start_session).0 && !(*old(previous) != Some(
            current) && current == XrStatus::Available)),
{
    let mut command: Option<SessionCommand> = None;
    let changed = match *previous {
        Some(p) => p != current,
        None => true,
    };
    if changed {
        match current {
            XrStatus::Available => {
                if should_start_session.0 {
                    command = Some(SessionCommand::Create);
                    should_start_session.0 = false;
                }
            },
            XrStatus::Ready => {
                command = Some(SessionCommand::Begin);
            },
            XrStatus::Exiting => {
                command = Some(SessionCommand::Destroy);
            },
            _ => {},
        }
    }
    *previous = Some(current);
    command
}

/// How many `Created` signals a sequence of signals holds.
pub open spec fn count_created(signals: Seq<OxrSessionStatusEvent>) -> nat
    decreases signals.len(),
{
    if signals.len() == 0 {
        0
    } else {
        count_created(signals.drop_last()) + if signals.last() == OxrSessionStatusEvent::Created {
            1nat
        } else {
            0nat
        }
    }
}

proof fn lemma_count_created_append(a: Seq<OxrSessionStatusEvent>, o: Option<OxrSessionStatusEvent>)
    ensures
        count_created(a + option_seq(o)) == count_created(a) + if o == Some(
            OxrSessionStatusEvent::Created,
        ) {
            1nat
        } else {
            0nat
        },
{
    match o {
        Some(x) => {
            assert((a + seq![x]).drop_last() =~= a);
        },
        None => {
            assert(a + Seq::<OxrSessionStatusEvent>::empty() =~= a);
        },
    }
}

proof fn lemma_created_once(start: XrStatus, states: Seq<RuntimeSessionState>)
    ensures
        count_created(signals_of(start, states)) == if start == XrStatus::Available && states.len()
            > 0 && states[0] == RuntimeSessionState::Idle {
            1nat
        } else {
            0nat
        },
    decreases states.len(),
{
    if states.len() > 0 {
        let before = states.drop_last();
        lemma_created_once(start, before);
        lemma_count_created_append(
            signals_of(start, before),
            signal_of(status_after(start, before), states.last()),
        );
        if before.len() > 0 {
            assert(before[0] == states[0]);
        }
    }
}

/// A create command is honored exactly when the status is `Available`. When the runtime
/// first reports the newly created session as idle, the status is `Idle` before it can be
/// `Ready`; and over any run of reports from `Available`, the created signal fires once
/// exactly when that first report is idle, and never otherwise.
pub proof fn lemma_create_then_idle_before_ready(status: XrStatus, states: Seq<RuntimeSessionState>)
    ensures
        (status == required_status(SessionCommand::Create)) <==> status == XrStatus::Available,
        status == XrStatus::Available && states.len() > 0 && states[0] == RuntimeSessionState::Idle
            ==> status_after(status, states.take(1)) == XrStatus::Idle && forall|k: int|
            1 <= k <= states.len() && status_after(status, #[trigger] states.take(k))
                == XrStatus::Ready ==> k > 1,
        count_created(signals_of(status, states)) == if status == XrStatus::Available
            && states.len() > 0 && states[0] == RuntimeSessionState::Idle {
            1nat
        } else {
            0nat
        },
{
    lemma_created_once(status, states);
    if states.len() > 0 {
        assert(states.take(1).last() == states[0]);
    }
}

proof fn lemma_status_after_concat(start: XrStatus, a: Seq<RuntimeSessionState>, b: Seq<
    RuntimeSessionState,
>)
    ensures
        status_after(status_after(start, a), b) == status_after(start, a + b),
{
    if b.len() > 0 {
        assert((a + b).last() == b.last());
    } else {
        assert(a + b =~= a);
    }
}

/// Handling the reports of one poll and then those of the next gives the same status and the
/// same lifecycle signals, in order, as handling all of them in one poll. Applied poll after
/// poll, the facts proved of a single run of reports (Idle reached before Ready once the first
/// report of a new session is idle, and the created signal raised once) hold across any
/// number of polls.
pub proof fn lemma_polls_compose(start: XrStatus, a: Seq<RuntimeSessionState>, b: Seq<
    RuntimeSessionState,
>)
    ensures
        status_after(status_after(start, a), b) == status_after(start, a + b),
        signals_of(start, a) + signals_of(status_after(start, a), b) == signals_of(start, a + b),
    decreases b.len(),
{
    lemma_status_after_concat(start, a, b);
    let mid = status_after(start, a);
    if b.len() == 0 {
        assert(a + b =~= a);
        assert(signals_of(start, a) + signals_of(mid, b) =~= signals_of(start, a));
    } else {
        let b1 = b.drop_last();
        lemma_polls_compose(start, a, b1);
        lemma_status_after_concat(start, a, b1);
        assert((a + b).drop_last() =~= a + b1);
        assert((a + b).last() == b.last());
        let tail = option_seq(signal_of(status_after(mid, b1), b.last()));
        assert(signals_of(mid, b) == signals_of(mid, b1) + tail);
        assert(signals_of(start, a + b) == signals_of(start, a + b1) + tail);
        assert(signals_of(start, a) + (signals_of(mid, b1) + tail) =~= (signals_of(start, a)
            + signals_of(mid, b1)) + tail);
    }
}

} // verus!
