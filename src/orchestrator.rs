use vstd::prelude::*;

use crate::bounds::CaptureBounds;
use crate::capture::CaptureResult;
use crate::error::{AppError, ErrorKind};
use crate::permission::{AppState, PermissionStatus};

verus! {

/// Where a capture sequence stands. Every phase but `Idle` has a sequence
/// in flight; the region it works on is carried along.
#[derive(Clone, Copy, Debug, PartialEq, Eq, Structural)]
pub enum Phase {
    Idle,
    PermissionPending(CaptureBounds),
    Capturing(CaptureBounds),
    Delivering(CaptureBounds),
    Denied,
    Failed(ErrorKind),
}

/// A signal that resumes the state machine.
#[derive(Debug)]
pub enum Event {
    /// The global hotkey was pressed, asking for the given region.
    HotkeyFired(CaptureBounds),
    /// A fresh reading of the permissions arrived.
    PermissionsChecked(PermissionStatus),
    /// The region capture finished.
    CaptureFinished(Result<CaptureResult, AppError>),
    /// The clipboard write finished.
    DeliveryFinished(Result<(), AppError>),
    /// The shell has shown the prompt or the error of the last sequence.
    Acknowledged,
}

/// What the shell is to do next.
#[derive(Clone, Debug)]
pub enum Action {
    Nothing,
    CheckPermissions,
    Capture(CaptureBounds),
    Publish(CaptureResult),
    NotifySuccess(CaptureBounds),
    PromptForPermission(PermissionStatus),
    ReportFailure(AppError),
}

/// One transition: the next phase and the action that goes with it. A
/// signal that does not fit the phase is dropped.
pub open spec fn step(p: Phase, e: Event) -> (Phase, Action) {
    match e {
        Event::HotkeyFired(b) => if p is Idle {
            (Phase::PermissionPending(b), Action::CheckPermissions)
        } else {
            (p, Action::Nothing)
        },
        Event::PermissionsChecked(s) => match p {
            Phase::PermissionPending(b) => if s.all_granted_spec() {
                (Phase::Capturing(b), Action::Capture(b))
            } else {
                (Phase::Denied, Action::PromptForPermission(s))
            },
            _ => (p, Action::Nothing),
        },
        Event::CaptureFinished(res) => match p {
            Phase::Capturing(_) => match res {
                Ok(c) => (Phase::Delivering(c.bounds), Action::Publish(c)),
                Err(err) => (Phase::Failed(err.kind), Action::ReportFailure(err)),
            },
            _ => (p, Action::Nothing),
        },
        Event::DeliveryFinished(res) => match p {
            Phase::Delivering(b) => match res {
                Ok(_) => (Phase::Idle, Action::NotifySuccess(b)),
                Err(err) => (Phase::Failed(err.kind), Action::ReportFailure(err)),
            },
            _ => (p, Action::Nothing),
        },
        Event::Acknowledged => match p {
            Phase::Denied => (Phase::Idle, Action::Nothing),
            Phase::Failed(_) => (Phase::Idle, Action::Nothing),
            _ => (p, Action::Nothing),
        },
    }
}

/// The phase reached and the actions taken when the events arrive in order.
pub open spec fn run(p: Phase, events: Seq<Event>) -> (Phase, Seq<Action>)
    decreases events.len(),
{
    if events.len() == 0 {
        (p, Seq::empty())
    } else {
        let first = step(p, events[0]);
        let rest = run(first.0, events.drop_first());
        (rest.0, seq![first.1].add(rest.1))
    }
}

/// A capture is asked for only when a permission check is pending and the
/// reading that answers it grants both permissions.
pub proof fn lemma_capture_needs_grant(p: Phase, e: Event)
    ensures
        step(p, e).1 is Capture ==> p is PermissionPending,
        step(p, e).1 is Capture ==> (e matches Event::PermissionsChecked(s) && s.all_granted_spec()),
{
}

/// When no reading of the permissions grants both of them, no sequence of
/// events leads to a capture.
pub proof fn lemma_denied_readings_never_capture(p: Phase, events: Seq<Event>)
    requires
        forall|i: int|
            0 <= i < events.len() ==> ((#[trigger] events[i]) matches Event::PermissionsChecked(s)
                ==> !s.all_granted_spec()),
    ensures
        forall|j: int|
            0 <= j < run(p, events).1.len() ==> !((#[trigger] run(p, events).1[j]) is Capture),
    decreases events.len(),
{
    if events.len() > 0 {
        let first = step(p, events[0]);
        let tail = events.drop_first();
        assert forall|i: int| 0 <= i < tail.len() implies ((#[trigger] tail[i]) matches Event::PermissionsChecked(s)
            ==> !s.all_granted_spec()) by {
            assert(tail[i] == events[i + 1]);
        }
        lemma_denied_readings_never_capture(first.0, tail);
        lemma_capture_needs_grant(p, events[0]);
        let acts = run(p, events).1;
        assert(acts == seq![first.1].add(run(first.0, tail).1));
        assert forall|j: int| 0 <= j < acts.len() implies !((#[trigger] acts[j]) is Capture) by {
            if j > 0 {
                assert(acts[j] == run(first.0, tail).1[j - 1]);
            }
        }
    }
}

/// While a sequence is in flight a hotkey signal is dropped: nothing
/// changes and nothing is done.
pub proof fn lemma_busy_drops_hotkey(p: Phase, b: CaptureBounds)
    requires
        !(p is Idle),
    ensures
        step(p, Event::HotkeyFired(b)) == (p, Action::Nothing),
{
}

/// Two hotkey signals, then a granted reading, a capture and a delivery
/// that succeed: the second signal is dropped, one capture of the first
/// region is asked for, and the machine is back in `Idle` after the one
/// success notice.
pub proof fn lemma_one_capture_per_sequence(
    b1: CaptureBounds,
    b2: CaptureBounds,
    s: PermissionStatus,
    c: CaptureResult,
)
    requires
        s.all_granted_spec(),
    ensures
        run(
            Phase::Idle,
            seq![
                Event::HotkeyFired(b1),
                Event::HotkeyFired(b2),
                Event::PermissionsChecked(s),
                Event::CaptureFinished(Ok(c)),
                Event::DeliveryFinished(Ok(())),
            ],
        ) == (Phase::Idle, seq![
            Action::CheckPermissions,
            Action::Nothing,
            Action::Capture(b1),
            Action::Publish(c),
            Action::NotifySuccess(c.bounds),
        ]),
{
    let events = seq![
        Event::HotkeyFired(b1),
        Event::HotkeyFired(b2),
        Event::PermissionsChecked(s),
        Event::CaptureFinished(Ok(c)),
        Event::DeliveryFinished(Ok(())),
    ];
    let e1 = events.drop_first();
    let e2 = e1.drop_first();
    let e3 = e2.drop_first();
    let e4 = e3.drop_first();
    let e5 = e4.drop_first();
    assert(e5.len() == 0);
    let p1 = Phase::PermissionPending(b1);
    let p3 = Phase::Capturing(b1);
    let p4 = Phase::Delivering(c.bounds);
    assert(run(Phase::Idle, e5) == (Phase::Idle, Seq::<Action>::empty()));
    assert(run(p4, e4) == (Phase::Idle, seq![Action::NotifySuccess(c.bounds)]));
    assert(run(p3, e3) =~= (Phase::Idle, seq![Action::Publish(c), Action::NotifySuccess(c.bounds)]));
    assert(run(p1, e2) =~= (Phase::Idle, seq![
        Action::Capture(b1),
        Action::Publish(c),
        Action::NotifySuccess(c.bounds),
    ]));
    assert(run(p1, e1) =~= (Phase::Idle, seq![
        Action::Nothing,
        Action::Capture(b1),
        Action::Publish(c),
        Action::NotifySuccess(c.bounds),
    ]));
    assert(run(Phase::Idle, events) =~= (Phase::Idle, seq![
        Action::CheckPermissions,
        Action::Nothing,
        Action::Capture(b1),
        Action::Publish(c),
        Action::NotifySuccess(c.bounds),
    ]));
}

/// A hotkey signal answered by a reading that lacks a permission: the
/// machine passes through `Denied`, asks the shell to prompt for the
/// permissions, asks for no capture, and is back in `Idle` once the shell
/// has shown the prompt.
pub proof fn lemma_denied_sequence(b: CaptureBounds, s: PermissionStatus)
    requires
        !s.all_granted_spec(),
    ensures
        step(Phase::PermissionPending(b), Event::PermissionsChecked(s)) == (
            Phase::Denied,
            Action::PromptForPermission(s),
        ),
        run(
            Phase::Idle,
            seq![Event::HotkeyFired(b), Event::PermissionsChecked(s), Event::Acknowledged],
        ) == (Phase::Idle, seq![
            Action::CheckPermissions,
            Action::PromptForPermission(s),
            Action::Nothing,
        ]),
{
    let events = seq![Event::HotkeyFired(b), Event::PermissionsChecked(s), Event::Acknowledged];
    let e1 = events.drop_first();
    let e2 = e1.drop_first();
    let e3 = e2.drop_first();
    assert(e3.len() == 0);
    assert(run(Phase::Idle, e3) == (Phase::Idle, Seq::<Action>::empty()));
    assert(run(Phase::Denied, e2) =~= (Phase::Idle, seq![Action::Nothing]));
    assert(run(Phase::PermissionPending(b), e1) =~= (Phase::Idle, seq![
        Action::PromptForPermission(s),
        Action::Nothing,
    ]));
    assert(run(Phase::Idle, events) =~= (Phase::Idle, seq![
        Action::CheckPermissions,
        Action::PromptForPermission(s),
        Action::Nothing,
    ]));
}

/// The state machine that runs one capture sequence at a time: permission
/// check, capture, clipboard delivery.
#[derive(Debug)]
pub struct CaptureOrchestrator {
    phase: Phase,
}

impl View for CaptureOrchestrator {
    type V = Phase;

    closed spec fn view(&self) -> Phase {
        self.phase
    }
}

impl CaptureOrchestrator {
    pub fn new() -> (r: CaptureOrchestrator)
        ensures
            r@ == Phase::Idle,
    {
        CaptureOrchestrator { phase: Phase::Idle }
    }

    pub fn phase(&self) -> (r: Phase)
        ensures
            r == self@,
    {
        self.phase
    }

    /// Takes one event. Every permission reading is stored in `app`, in
    /// any phase, and the capture gate reads `app` afterwards.
    pub fn handle(&mut self, app: &mut AppState, event: Event) -> (action: Action)
        ensures
            (final(self)@, action) == step(old(self)@, event),
            action is Capture ==> final(app).permissions_granted,
            event matches Event::PermissionsChecked(s) ==> final(app).permissions_granted
                == s.all_granted_spec(),
            !(event is PermissionsChecked) ==> final(app).permissions_granted
                == old(app).permissions_granted,
    {
        match event {
            Event::HotkeyFired(b) => {
                match self.phase {
                    Phase::Idle => {
                        self.phase = Phase::PermissionPending(b);
                        Action::CheckPermissions
                    },
                    _ => Action::Nothing,
                }
            },
            Event::PermissionsChecked(s) => {
                app.record(s);
                match self.phase {
                    Phase::PermissionPending(b) => {
                        if app.permissions_granted {
                            self.phase = Phase::Capturing(b);
                            Action::Capture(b)
                        } else {
                            self.phase = Phase::Denied;
                            Action::PromptForPermission(s)
                        }
                    },
                    _ => Action::Nothing,
                }
            },
            Event::CaptureFinished(res) => {
                match self.phase {
                    Phase::Capturing(_) => match res {
                        Ok(c) => {
                            self.phase = Phase::Delivering(c.bounds);
                            Action::Publish(c)
                        },
                        Err(err) => {
                            self.phase = Phase::Failed(err.kind);
                            Action::ReportFailure(err)
                        },
                    },
                    _ => Action::Nothing,
                }
            },
            Event::DeliveryFinished(res) => {
                match self.phase {
                    Phase::Delivering(b) => match res {
                        Ok(()) => {
                            self.phase = Phase::Idle;
                            Action::NotifySuccess(b)
                        },
                        Err(err) => {
                            self.phase = Phase::Failed(err.kind);
                            Action::ReportFailure(err)
                        },
                    },
                    _ => Action::Nothing,
                }
            },
            Event::Acknowledged => {
                match self.phase {
                    Phase::Denied => {
                        self.phase = Phase::Idle;
                    },
                    Phase::Failed(_) => {
                        self.phase = Phase::Idle;
                    },
                    _ => {},
                }
                Action::Nothing
            },
        }
    }
}

} // verus!
