//! Main loop driver and view lifecycle controller.
//!
//! One `Driver` holds everything the host loop owns between two native
//! events: the lifecycle phase, the viewport, the translator state, the last
//! reported animation state, and the queue of translated events waiting for
//! the next submission to the engine. The host loop feeds it one native event
//! or engine notification at a time and performs the `HostAction`s it orders;
//! every decision — what to submit, when to stop, when to present — is made
//! here.
//!
//! The lifecycle of the window is `Running`, then `ShuttingDown` once the
//! engine's shutdown notification is observed, then `Terminated` once the
//! host confirms that the engine's resources were released. Leaving `Running`
//! is one-way: from then on no input is enqueued, nothing more is submitted,
//! and a repeated shutdown notification changes nothing.

use vstd::prelude::*;
use crate::coords::{DevicePoint, Viewport};
use crate::events::{
    DrainControl, EngineEvent, HostAction, CursorKind, NativeCursorIcon, NativeEvent, Notification,
    ViewHandle,
};
use crate::scheduler::{mode_for_animation, SchedulingMode};
use crate::translate::{
    spec_translated_events, spec_translated_state, spec_translated_viewport, Translator,
};

verus! {

/// Lifecycle phase of the window.
#[derive(Clone, Copy, Debug, PartialEq, Eq, Structural)]
pub enum Phase {
    /// Normal operation: input is translated and submitted.
    Running,
    /// The engine announced its shutdown; its resources are being released.
    ShuttingDown,
    /// The engine is gone; the host loop may exit.
    Terminated,
}

/// The driver's state as the contracts see it: the pending queue as a
/// sequence, the translator reduced to its pointer cache.
pub struct DriverModel {
    pub phase: Phase,
    pub primary_view: ViewHandle,
    pub viewport: Viewport,
    pub pointer: DevicePoint,
    pub animating: bool,
    pub pending: Seq<EngineEvent>,
    pub need_present: bool,
    pub close_requested: bool,
}

impl DriverModel {
    pub open spec fn wf(self) -> bool {
        self.viewport.wf()
    }
}

/// The driver submits to the engine only while the window is running.
pub open spec fn spec_submit_allowed(m: DriverModel) -> bool {
    m.phase is Running
}

/// The native cursor icon for an engine cursor kind; a kind with no native
/// counterpart leaves the icon unchanged rather than erroring.
pub open spec fn spec_cursor_icon(kind: CursorKind) -> Option<NativeCursorIcon> {
    match kind {
        CursorKind::Unset => Some(NativeCursorIcon::Default),
        CursorKind::Pointer => Some(NativeCursorIcon::Hand),
        CursorKind::Text => Some(NativeCursorIcon::Text),
        CursorKind::Other => None,
    }
}

pub fn map_cursor(kind: CursorKind) -> (r: Option<NativeCursorIcon>)
    ensures
        r == spec_cursor_icon(kind),
{
    match kind {
        CursorKind::Unset => Some(NativeCursorIcon::Default),
        CursorKind::Pointer => Some(NativeCursorIcon::Hand),
        CursorKind::Text => Some(NativeCursorIcon::Text),
        CursorKind::Other => None,
    }
}

/// The events that welcome a newly opened view: focus it, move it to the
/// current viewport, and raise it to the top, in that order. A new view
/// always takes over the single-window surface.
pub open spec fn spec_welcome_events(view: ViewHandle, viewport: Viewport) -> Seq<EngineEvent> {
    seq![
        EngineEvent::FocusView { view },
        EngineEvent::MoveResizeView { view, rect: viewport.spec_rect() },
        EngineEvent::RaiseViewToTop { view },
    ]
}

/// The driver after one native event, with the actions ordered for the host.
/// Outside `Running` the event is dropped: no state change, no action.
pub open spec fn spec_native_step(m: DriverModel, ev: NativeEvent) -> (DriverModel, Seq<
    HostAction,
>) {
    if !(m.phase is Running) {
        (m, Seq::empty())
    } else {
        let t = Translator { pointer: m.pointer };
        let stepped = DriverModel {
            pointer: spec_translated_state(t, ev).pointer,
            viewport: spec_translated_viewport(m.viewport, ev),
            pending: m.pending + spec_translated_events(t, m.viewport, m.primary_view, ev),
            close_requested: m.close_requested || ev is CloseRequested,
            ..m
        };
        let actions = match ev {
            NativeEvent::Resized { size } => {
                if size.positive() {
                    seq![HostAction::ResizeRenderTargets { size }]
                } else {
                    Seq::<HostAction>::empty()
                }
            },
            NativeEvent::CloseRequested => seq![HostAction::RequestEngineShutdown],
            NativeEvent::Wake => seq![HostAction::RequestRedraw],
            _ => Seq::<HostAction>::empty(),
        };
        (stepped, actions)
    }
}

/// The driver after one engine notification, with the drain decision and the
/// actions ordered for the host. Outside `Running` the notification is
/// dropped and the drain stops: the engine is no longer spoken to.
pub open spec fn spec_processed(m: DriverModel, source: ViewHandle, note: Notification) -> (
    DriverModel,
    DrainControl,
    Seq<HostAction>,
) {
    if !(m.phase is Running) {
        (m, DrainControl::Stop, Seq::empty())
    } else {
        match note {
            Notification::ViewOpened { view } => (
                DriverModel { pending: m.pending + spec_welcome_events(view, m.viewport), ..m },
                DrainControl::Continue,
                Seq::<HostAction>::empty(),
            ),
            Notification::ReadyToPresent => (
                DriverModel { need_present: true, ..m },
                DrainControl::Continue,
                seq![HostAction::RequestRedraw],
            ),
            Notification::AllowNavigationRequest { request } => (
                DriverModel {
                    pending: m.pending + seq![
                        EngineEvent::AllowNavigationResponse { request, allow: true },
                    ],
                    ..m
                },
                DrainControl::Continue,
                Seq::<HostAction>::empty(),
            ),
            Notification::SetCursor { kind } => (
                m,
                DrainControl::Continue,
                match spec_cursor_icon(kind) {
                    Some(icon) => seq![HostAction::SetCursorIcon { icon }],
                    None => Seq::<HostAction>::empty(),
                },
            ),
            Notification::EventDelivered => (m, DrainControl::Continue, Seq::<HostAction>::empty()),
            Notification::Shutdown => (
                DriverModel { phase: Phase::ShuttingDown, ..m },
                DrainControl::Stop,
                seq![HostAction::ReleaseEngineResources],
            ),
        }
    }
}

/// Host-loop state between two native events.
pub struct Driver {
    pub phase: Phase,
    pub primary_view: ViewHandle,
    pub viewport: Viewport,
    pub translator: Translator,
    pub animating: bool,
    pub pending: Vec<EngineEvent>,
    pub need_present: bool,
    pub close_requested: bool,
}

impl View for Driver {
    type V = DriverModel;

    open spec fn view(&self) -> DriverModel {
        DriverModel {
            phase: self.phase,
            primary_view: self.primary_view,
            viewport: self.viewport,
            pointer: self.translator.pointer,
            animating: self.animating,
            pending: self.pending@,
            need_present: self.need_present,
            close_requested: self.close_requested,
        }
    }
}

impl Driver {
    /// A fresh driver for one window: running, idle pointer at the origin,
    /// nothing pending, not animating.
    pub fn new(primary_view: ViewHandle, viewport: Viewport) -> (d: Driver)
        requires
            viewport.wf(),
        ensures
            d@ == (DriverModel {
                phase: Phase::Running,
                primary_view,
                viewport,
                pointer: DevicePoint { x: 0, y: 0 },
                animating: false,
                pending: Seq::empty(),
                need_present: false,
                close_requested: false,
            }),
            d@.wf(),
    {
        let d = Driver {
            phase: Phase::Running,
            primary_view,
            viewport,
            translator: Translator::new(),
            animating: false,
            pending: Vec::new(),
            need_present: false,
            close_requested: false,
        };
        proof {
            assert(d@.pending =~= Seq::<EngineEvent>::empty());
        }
        d
    }

    /// The viewport as the engine queries it.
    pub fn get_coordinates(&self) -> (v: Viewport)
        ensures
            v == self@.viewport,
    {
        self.viewport
    }

    /// The engine reported a new animation state; remembered for scheduling.
    pub fn set_animation_state(&mut self, animating: bool)
        ensures
            *final(self) == (Driver { animating, ..*old(self) }),
    {
        self.animating = animating;
    }

    /// Busy-poll exactly while the page animates, block otherwise.
    pub fn scheduling_mode(&self) -> (m: SchedulingMode)
        ensures
            (m is Poll) <==> self@.animating,
    {
        mode_for_animation(self.animating)
    }

    /// Feed one native event: translate it into pending engine events, update
    /// viewport and pointer, and order the host calls it entails. Once the
    /// window is no longer running the event is dropped entirely.
    pub fn handle_native_event(&mut self, ev: &NativeEvent) -> (actions: Vec<HostAction>)
        requires
            old(self)@.wf(),
        ensures
            final(self)@ == spec_native_step(old(self)@, *ev).0,
            actions@ == spec_native_step(old(self)@, *ev).1,
            final(self)@.wf(),
    {
        let mut actions: Vec<HostAction> = Vec::new();
        if !matches!(self.phase, Phase::Running) {
            proof {
                assert(actions@ =~= spec_native_step(old(self)@, *ev).1);
            }
            return actions;
        }
        self.translator.translate(self.primary_view, &mut self.viewport, ev, &mut self.pending);
        match ev {
            NativeEvent::Resized { size } => {
                if size.is_positive() {
                    actions.push(HostAction::ResizeRenderTargets { size: *size });
                }
            },
            NativeEvent::CloseRequested => {
                self.close_requested = true;
                actions.push(HostAction::RequestEngineShutdown);
            },
            NativeEvent::Wake => {
                actions.push(HostAction::RequestRedraw);
            },
            _ => {},
        }
        proof {
            assert(actions@ =~= spec_native_step(old(self)@, *ev).1);
            assert(final(self)@.pending =~= spec_native_step(old(self)@, *ev).0.pending);
        }
        actions
    }

    /// Hand out the batch to submit to the engine, emptying the queue — or
    /// nothing, once the window is no longer running: after a shutdown
    /// notification was observed, no further submission is ever made.
    pub fn next_batch(&mut self) -> (b: Option<Vec<EngineEvent>>)
        ensures
            (b is Some) <==> spec_submit_allowed(old(self)@),
            b matches Some(batch) ==> {
                &&& batch@ == old(self)@.pending
                &&& final(self)@ == (DriverModel { pending: Seq::empty(), ..old(self)@ })
            },
            b is None ==> *final(self) == *old(self),
    {
        if matches!(self.phase, Phase::Running) {
            let mut batch: Vec<EngineEvent> = Vec::new();
            core::mem::swap(&mut batch, &mut self.pending);
            proof {
                assert(final(self)@.pending =~= Seq::<EngineEvent>::empty());
            }
            Some(batch)
        } else {
            None
        }
    }

    /// Record whether the engine, on taking the batch, reported that a
    /// present is needed.
    pub fn note_submit_result(&mut self, presents_needed: bool)
        ensures
            *final(self) == (Driver {
                need_present: old(self).need_present || presents_needed,
                ..*old(self)
            }),
    {
        if presents_needed {
            self.need_present = true;
        }
    }

    /// Process one entry of the engine's outbound queue and say whether the
    /// drain goes on. An observed shutdown stops it and starts the release of
    /// the engine's resources; outside `Running` everything is a no-op.
    pub fn process_notification(&mut self, source: ViewHandle, note: &Notification) -> (r: (
        DrainControl,
        Vec<HostAction>,
    ))
        requires
            old(self)@.wf(),
        ensures
            final(self)@ == spec_processed(old(self)@, source, *note).0,
            r.0 == spec_processed(old(self)@, source, *note).1,
            r.1@ == spec_processed(old(self)@, source, *note).2,
            final(self)@.wf(),
    {
        let mut actions: Vec<HostAction> = Vec::new();
        if !matches!(self.phase, Phase::Running) {
            proof {
                assert(actions@ =~= spec_processed(old(self)@, source, *note).2);
            }
            return (DrainControl::Stop, actions);
        }
        let control = match note {
            Notification::ViewOpened { view } => {
                let rect = self.viewport.rect();
                self.pending.push(EngineEvent::FocusView { view: *view });
                self.pending.push(EngineEvent::MoveResizeView { view: *view, rect });
                self.pending.push(EngineEvent::RaiseViewToTop { view: *view });
                DrainControl::Continue
            },
            Notification::ReadyToPresent => {
                self.need_present = true;
                actions.push(HostAction::RequestRedraw);
                DrainControl::Continue
            },
            Notification::AllowNavigationRequest { request } => {
                self.pending.push(
                    EngineEvent::AllowNavigationResponse { request: *request, allow: true },
                );
                DrainControl::Continue
            },
            Notification::SetCursor { kind } => {
                match map_cursor(*kind) {
                    Some(icon) => actions.push(HostAction::SetCursorIcon { icon }),
                    None => {},
                }
                DrainControl::Continue
            },
            Notification::EventDelivered => DrainControl::Continue,
            Notification::Shutdown => {
                self.phase = Phase::ShuttingDown;
                actions.push(HostAction::ReleaseEngineResources);
                DrainControl::Stop
            },
        };
        proof {
            assert(actions@ =~= spec_processed(old(self)@, source, *note).2);
            assert(final(self)@.pending =~= spec_processed(old(self)@, source, *note).0.pending);
        }
        (control, actions)
    }

    /// The host confirmed that every engine-owned resource was released: the
    /// window is terminated, the queue is discarded, and the loop may exit.
    /// This is the only way into `Terminated`, and nothing leaves it.
    pub fn finish_shutdown(&mut self) -> (actions: Vec<HostAction>)
        requires
            old(self)@.phase is ShuttingDown,
        ensures
            final(self)@ == (DriverModel {
                phase: Phase::Terminated,
                pending: Seq::empty(),
                ..old(self)@
            }),
            actions@ == seq![HostAction::ExitLoop],
    {
        self.phase = Phase::Terminated;
        self.pending.clear();
        let mut actions: Vec<HostAction> = Vec::new();
        actions.push(HostAction::ExitLoop);
        proof {
            assert(final(self)@.pending =~= Seq::<EngineEvent>::empty());
            assert(actions@ =~= seq![HostAction::ExitLoop]);
        }
        actions
    }

    /// Decide and consume the present flag for this iteration: a present is
    /// performed if the engine asked for one or the page animates, and only
    /// while the window is running — never after the engine announced its
    /// shutdown.
    pub fn take_present_decision(&mut self) -> (present: bool)
        ensures
            present == (spec_submit_allowed(old(self)@) && (old(self)@.need_present
                || old(self)@.animating)),
            *final(self) == (Driver { need_present: false, ..*old(self) }),
    {
        let decide = matches!(self.phase, Phase::Running) && (self.need_present
            || self.animating);
        self.need_present = false;
        decide
    }
}

/// Once a shutdown notification is observed, the shutdown is final: the
/// driver never submits again, a second shutdown notification (or any other
/// notification, or any further native event) is a complete no-op, and so the
/// window reaches `Terminated` exactly once.
pub proof fn lemma_shutdown_is_final(
    m: DriverModel,
    source: ViewHandle,
    later_source: ViewHandle,
    later_note: Notification,
    later_event: NativeEvent,
)
    requires
        m.phase is Running,
    ensures
        ({
            let after = spec_processed(m, source, Notification::Shutdown).0;
            &&& spec_processed(m, source, Notification::Shutdown).1 is Stop
            &&& !spec_submit_allowed(after)
            &&& spec_processed(after, later_source, later_note) == (
                after,
                DrainControl::Stop,
                Seq::<HostAction>::empty(),
            )
            &&& spec_native_step(after, later_event) == (after, Seq::<HostAction>::empty())
        }),
{
}

/// Outside `Running` — shutting down or terminated — the driver is inert:
/// nothing may touch engine state any more, so every notification and every
/// native event leaves it unchanged, orders nothing, and no submission is
/// allowed.
pub proof fn lemma_not_running_absorbs_everything(
    m: DriverModel,
    source: ViewHandle,
    note: Notification,
    ev: NativeEvent,
)
    requires
        !(m.phase is Running),
    ensures
        spec_processed(m, source, note) == (m, DrainControl::Stop, Seq::<HostAction>::empty()),
        spec_native_step(m, ev) == (m, Seq::<HostAction>::empty()),
        !spec_submit_allowed(m),
{
}

/// A newly opened view is welcomed with exactly focus, move-resize to the
/// current viewport, and raise-to-top, in that order, appended to the pending
/// queue; nothing else changes.
pub proof fn lemma_view_opened_emits_welcome(m: DriverModel, source: ViewHandle, view: ViewHandle)
    requires
        m.phase is Running,
    ensures
        ({
            let r = spec_processed(m, source, Notification::ViewOpened { view });
            &&& r.0 == DriverModel {
                pending: m.pending + seq![
                    EngineEvent::FocusView { view },
                    EngineEvent::MoveResizeView { view, rect: m.viewport.spec_rect() },
                    EngineEvent::RaiseViewToTop { view },
                ],
                ..m
            }
            &&& r.1 is Continue
            &&& r.2 === Seq::<HostAction>::empty()
        }),
{
}

} // verus!
