//! Event vocabulary of the shim.
//!
//! `NativeEvent` is what the windowing toolkit delivers to the host loop,
//! already reduced to plain values. `EngineEvent` is what the shim submits to
//! the engine. `Notification` is what the engine hands back on its outbound
//! queue. `HostAction` is an order from the verified core to the host loop:
//! a windowing, GL or engine call that only the host can perform.

use vstd::prelude::*;
use crate::coords::{DevicePoint, DeviceRect, DeviceSize};

verus! {

/// Opaque identifier of one logical view (one tab / webview).
#[derive(Clone, Copy, Debug, PartialEq, Eq, Structural)]
pub struct ViewHandle {
    pub id: u64,
}

impl ViewHandle {
    pub fn new(id: u64) -> (v: ViewHandle)
        ensures
            v.id == id,
    {
        ViewHandle { id }
    }
}

/// An input event as the windowing toolkit reports it, in device pixels.
#[derive(Clone, Copy, Debug, PartialEq, Eq, Structural)]
pub enum NativeEvent {
    /// The drawable area changed to the given size.
    Resized { size: DeviceSize },
    /// The pointer moved to the given position.
    CursorMoved { position: DevicePoint },
    /// The primary button was pressed.
    PrimaryButtonDown,
    /// The primary button was released.
    PrimaryButtonUp,
    /// The user asked to close the window.
    CloseRequested,
    /// The engine's waker asked the loop to pump once.
    Wake,
}

/// An input event in the form the engine consumes.
#[derive(Clone, Copy, Debug, PartialEq, Eq, Structural)]
pub enum EngineEvent {
    /// Nothing happened; gives the engine a chance to run internal work.
    Idle,
    /// The window (and with it the framebuffer) was resized.
    WindowResize,
    /// Move and resize one view to the given rectangle.
    MoveResizeView { view: ViewHandle, rect: DeviceRect },
    /// Give one view keyboard focus.
    FocusView { view: ViewHandle },
    /// Raise one view above its siblings.
    RaiseViewToTop { view: ViewHandle },
    /// The pointer moved.
    PointerMove { position: DevicePoint },
    /// The primary button went down at the given position.
    PointerDown { position: DevicePoint },
    /// The primary button went up at the given position.
    PointerUp { position: DevicePoint },
    /// A click at the given position.
    Click { position: DevicePoint },
    /// Answer to a pending navigation request.
    AllowNavigationResponse { request: u64, allow: bool },
}

/// Cursor shape requested by the engine.
#[derive(Clone, Copy, Debug, PartialEq, Eq, Structural)]
pub enum CursorKind {
    /// The engine does not ask for any particular cursor.
    Unset,
    Pointer,
    Text,
    /// A cursor kind this shim has no native icon for.
    Other,
}

/// Cursor icon the windowing toolkit understands.
#[derive(Clone, Copy, Debug, PartialEq, Eq, Structural)]
pub enum NativeCursorIcon {
    Default,
    Hand,
    Text,
}

/// One entry of the engine's outbound event queue.
#[derive(Clone, Copy, Debug, PartialEq, Eq, Structural)]
pub enum Notification {
    /// The engine opened a new view.
    ViewOpened { view: ViewHandle },
    /// The engine has a frame ready; the host should schedule a present.
    ReadyToPresent,
    /// The engine asks whether a navigation may proceed.
    AllowNavigationRequest { request: u64 },
    /// The engine wants the pointer cursor changed.
    SetCursor { kind: CursorKind },
    /// The engine delivered an earlier input event; informational only.
    EventDelivered,
    /// The engine finished shutting down.
    Shutdown,
}

/// A call only the host loop can perform, ordered by the verified core.
#[derive(Clone, Copy, Debug, PartialEq, Eq, Structural)]
pub enum HostAction {
    /// Ask the toolkit to schedule a redraw of the window.
    RequestRedraw,
    /// Resize the engine-side render target and the native GL surface.
    ResizeRenderTargets { size: DeviceSize },
    /// Change the window's cursor icon.
    SetCursorIcon { icon: NativeCursorIcon },
    /// Ask the engine to begin an orderly shutdown.
    RequestEngineShutdown,
    /// Release every engine-owned resource (contexts, surfaces) synchronously.
    ReleaseEngineResources,
    /// Leave the native event loop.
    ExitLoop,
}

/// Whether draining the engine's outbound queue should go on.
#[derive(Clone, Copy, Debug, PartialEq, Eq, Structural)]
pub enum DrainControl {
    Continue,
    Stop,
}

} // verus!
