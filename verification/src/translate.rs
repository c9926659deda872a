//! Event translator: native input events to engine input events.
//!
//! The translator keeps the last pointer position as its only state. Button
//! events carry no position of their own, so they are stamped with that
//! cached position; a button release always implies a click at the same
//! position (this embedding has no drag-distance threshold). A resize to a
//! degenerate (zero or negative) size is ignored outright: the viewport is
//! left untouched and no event is emitted.

use vstd::prelude::*;
use crate::coords::{DevicePoint, DeviceSize, Viewport};
use crate::events::{EngineEvent, NativeEvent, ViewHandle};

verus! {

/// Translator state: the most recently observed pointer position.
#[derive(Clone, Copy, Debug, PartialEq, Eq, Structural)]
pub struct Translator {
    pub pointer: DevicePoint,
}

/// Translator state after one native event: only a pointer move changes it.
pub open spec fn spec_translated_state(t: Translator, ev: NativeEvent) -> Translator {
    match ev {
        NativeEvent::CursorMoved { position } => Translator { pointer: position },
        _ => t,
    }
}

/// Viewport after one native event: only a resize to a strictly positive
/// size changes it.
pub open spec fn spec_translated_viewport(vp: Viewport, ev: NativeEvent) -> Viewport {
    match ev {
        NativeEvent::Resized { size } => {
            if size.positive() {
                vp.spec_resized(size)
            } else {
                vp
            }
        },
        _ => vp,
    }
}

/// The engine events one native event translates to, in emission order.
pub open spec fn spec_translated_events(
    t: Translator,
    vp: Viewport,
    view: ViewHandle,
    ev: NativeEvent,
) -> Seq<EngineEvent> {
    match ev {
        NativeEvent::Resized { size } => {
            if size.positive() {
                seq![
                    EngineEvent::MoveResizeView { view, rect: vp.spec_resized(size).spec_rect() },
                    EngineEvent::WindowResize,
                ]
            } else {
                Seq::empty()
            }
        },
        NativeEvent::CursorMoved { position } => seq![EngineEvent::PointerMove { position }],
        NativeEvent::PrimaryButtonDown => seq![EngineEvent::PointerDown { position: t.pointer }],
        NativeEvent::PrimaryButtonUp => seq![
            EngineEvent::PointerUp { position: t.pointer },
            EngineEvent::Click { position: t.pointer },
        ],
        NativeEvent::CloseRequested => Seq::empty(),
        NativeEvent::Wake => seq![EngineEvent::Idle],
    }
}

impl Translator {
    pub fn new() -> (t: Translator)
        ensures
            t.pointer == (DevicePoint { x: 0, y: 0 }),
    {
        Translator { pointer: DevicePoint { x: 0, y: 0 } }
    }

    /// Translate one native event: update the pointer cache and the viewport
    /// and append the derived engine events, in order, to `out`.
    pub fn translate(
        &mut self,
        view: ViewHandle,
        viewport: &mut Viewport,
        ev: &NativeEvent,
        out: &mut Vec<EngineEvent>,
    )
        requires
            old(viewport).wf(),
        ensures
            *final(self) == spec_translated_state(*old(self), *ev),
            *final(viewport) == spec_translated_viewport(*old(viewport), *ev),
            final(viewport).wf(),
            final(out)@ == old(out)@ + spec_translated_events(
                *old(self),
                *old(viewport),
                view,
                *ev,
            ),
    {
        match ev {
            NativeEvent::Resized { size } => {
                if size.is_positive() {
                    *viewport = viewport.resized(*size);
                    out.push(EngineEvent::MoveResizeView { view, rect: viewport.rect() });
                    out.push(EngineEvent::WindowResize);
                }
            },
            NativeEvent::CursorMoved { position } => {
                self.pointer = *position;
                out.push(EngineEvent::PointerMove { position: *position });
            },
            NativeEvent::PrimaryButtonDown => {
                out.push(EngineEvent::PointerDown { position: self.pointer });
            },
            NativeEvent::PrimaryButtonUp => {
                out.push(EngineEvent::PointerUp { position: self.pointer });
                out.push(EngineEvent::Click { position: self.pointer });
            },
            NativeEvent::CloseRequested => {},
            NativeEvent::Wake => {
                out.push(EngineEvent::Idle);
            },
        }
        proof {
            assert(out@ =~= old(out)@ + spec_translated_events(
                *old(self),
                *old(viewport),
                view,
                *ev,
            ));
        }
    }
}

/// A resize to a strictly positive size sets the viewport and framebuffer to
/// exactly the reported size and emits a window-resize event exactly once
/// (one event of the pair is `WindowResize`, the other is not).
pub proof fn lemma_resize_updates_viewport(
    t: Translator,
    vp: Viewport,
    view: ViewHandle,
    size: DeviceSize,
)
    requires
        size.positive(),
    ensures
        spec_translated_viewport(vp, NativeEvent::Resized { size }).size == size,
        spec_translated_viewport(vp, NativeEvent::Resized { size }).framebuffer == size,
        ({
            let evs = spec_translated_events(t, vp, view, NativeEvent::Resized { size });
            &&& evs.len() == 2
            &&& forall|i: int|
                0 <= i < evs.len() ==> ((evs[i] is WindowResize) <==> i == 1)
        }),
{
}

/// A resize to a degenerate size is a complete no-op: no viewport mutation,
/// no translator mutation, no event.
pub proof fn lemma_degenerate_resize_is_noop(
    t: Translator,
    vp: Viewport,
    view: ViewHandle,
    size: DeviceSize,
)
    requires
        !size.positive(),
    ensures
        spec_translated_viewport(vp, NativeEvent::Resized { size }) == vp,
        spec_translated_state(t, NativeEvent::Resized { size }) == t,
        spec_translated_events(t, vp, view, NativeEvent::Resized { size }) == Seq::<
            EngineEvent,
        >::empty(),
{
}

/// A button press followed by a button release (with no pointer move in
/// between) emits exactly pointer-down, pointer-up, click, in that order,
/// all three carrying the same position: the cached pointer position.
pub proof fn lemma_down_up_emits_click(t: Translator, vp: Viewport, view: ViewHandle)
    ensures
        ({
            let t1 = spec_translated_state(t, NativeEvent::PrimaryButtonDown);
            let vp1 = spec_translated_viewport(vp, NativeEvent::PrimaryButtonDown);
            let down = spec_translated_events(t, vp, view, NativeEvent::PrimaryButtonDown);
            let up = spec_translated_events(t1, vp1, view, NativeEvent::PrimaryButtonUp);
            down + up =~= seq![
                EngineEvent::PointerDown { position: t.pointer },
                EngineEvent::PointerUp { position: t.pointer },
                EngineEvent::Click { position: t.pointer },
            ]
        }),
{
}

} // verus!
