//! Surface bridge: the window-side GL state used to present one frame.
//!
//! The engine leases its current front surface out for the duration of one
//! redraw only: a transient texture is created over it immediately before the
//! blit and must be destroyed immediately after, on every path, or the
//! engine's surface pool is exhausted. `Gl` models exactly the state this
//! layer mutates — the read framebuffer it owns, the texture currently bound,
//! and a ledger of bindings — and decides what to do with each outcome. The
//! host program performs the GL calls a `BlitOp` describes on its own context
//! and reports back the error code it observed.

use vstd::prelude::*;
use crate::coords::DeviceSize;

verus! {

/// The GL error code that means no error was recorded.
pub const GL_NO_ERROR: u32 = 0;

/// A non-zero GL error code observed while presenting; the frame is dropped.
#[derive(Clone, Copy, Debug, PartialEq, Eq, Structural)]
pub struct GlError {
    pub code: u32,
}

/// Why a present failed.
#[derive(Clone, Copy, Debug, PartialEq, Eq, Structural)]
pub enum PresentError {
    /// The engine had no current frame to lease out. The caller must only
    /// present after the engine confirms it is ready, so this is fatal.
    NoFrontSurface,
    /// The blit reported a GL error; this frame is dropped, the loop goes on.
    Blit { error: GlError },
}

/// One framebuffer blit for the host to perform: attach `texture` to the
/// read framebuffer `read_fb`, copy the rectangle (0,0)..`source` onto
/// (0,0)..`dest` of the window's default framebuffer, then detach.
#[derive(Clone, Copy, Debug, PartialEq, Eq, Structural)]
pub struct BlitOp {
    pub read_fb: u32,
    pub texture: u32,
    pub source: DeviceSize,
    pub dest: DeviceSize,
}

/// Window-side GL state of the surface bridge.
///
/// `bound_texture` is the transient texture over the engine's front surface,
/// present only between a bind and its release. `acquired` and `released`
/// count the bind/release pairs, so that balance is part of the type's
/// invariant and not just of one code path.
#[derive(Clone, Copy, Debug, PartialEq, Eq, Structural)]
pub struct Gl {
    pub fb: u32,
    pub bound_texture: Option<u32>,
    pub acquired: u64,
    pub released: u64,
}

impl Gl {
    /// Every release matches an earlier bind, and at most one binding is ever
    /// open.
    pub open spec fn wf(self) -> bool {
        match self.bound_texture {
            Some(_) => self.acquired == self.released + 1,
            None => self.acquired == self.released,
        }
    }

    /// No binding is currently open.
    pub open spec fn balanced(self) -> bool {
        self.bound_texture is None
    }

    /// A fresh bridge over the host's read framebuffer `fb`, with no binding
    /// open.
    pub fn new(fb: u32) -> (g: Gl)
        ensures
            g.fb == fb,
            g.balanced(),
            g.acquired == 0,
            g.released == 0,
            g.wf(),
    {
        Gl { fb, bound_texture: None, acquired: 0, released: 0 }
    }

    /// Record that a transient texture was created over the engine's front
    /// surface. A second bind before the release would leak the lease, so it
    /// is ruled out.
    pub fn bind_surface_texture(&mut self, texture: u32)
        requires
            old(self).wf(),
            old(self).balanced(),
            old(self).acquired < u64::MAX,
        ensures
            final(self).wf(),
            final(self).bound_texture == Some(texture),
            final(self).acquired == old(self).acquired + 1,
            final(self).released == old(self).released,
            final(self).fb == old(self).fb,
    {
        self.bound_texture = Some(texture);
        self.acquired = self.acquired + 1;
    }

    /// The blit that presents the bound texture: check the error code the
    /// host observed and hand back either the operation for the sizes given
    /// or the error that drops this frame. Decides nothing else: the binding
    /// stays open either way and must still be released.
    pub fn draw_texture(&self, source: DeviceSize, dest: DeviceSize, error_code: u32) -> (r:
        Result<BlitOp, GlError>)
        requires
            self.bound_texture is Some,
        ensures
            error_code == GL_NO_ERROR ==> r == Ok::<BlitOp, GlError>(
                BlitOp {
                    read_fb: self.fb,
                    texture: self.bound_texture->0,
                    source,
                    dest,
                },
            ),
            error_code != GL_NO_ERROR ==> r == Err::<BlitOp, GlError>(GlError { code: error_code }),
    {
        let texture = match self.bound_texture {
            Some(t) => t,
            None => 0,  // unreachable: a texture is bound
        };
        if error_code == GL_NO_ERROR {
            Ok(BlitOp { read_fb: self.fb, texture, source, dest })
        } else {
            Err(GlError { code: error_code })
        }
    }

    /// Report whether an observed GL error code is clean; the error itself is
    /// handed back so the caller can drop the frame with a diagnostic.
    pub fn assert_no_error(&self, error_code: u32) -> (r: Result<(), GlError>)
        ensures
            (r is Ok) <==> error_code == GL_NO_ERROR,
            r matches Err(e) ==> e.code == error_code,
    {
        if error_code == GL_NO_ERROR {
            Ok(())
        } else {
            Err(GlError { code: error_code })
        }
    }

    /// Record that the transient texture was destroyed and the surface
    /// returned to the engine's pool.
    pub fn release_surface_texture(&mut self)
        requires
            old(self).wf(),
            old(self).bound_texture is Some,
        ensures
            final(self).wf(),
            final(self).balanced(),
            final(self).acquired == old(self).acquired,
            final(self).released == old(self).released + 1,
            final(self).fb == old(self).fb,
    {
        self.bound_texture = None;
        self.released = self.released + 1;
    }

    /// One whole present: bind the surface texture, decide the blit from the
    /// error code the host observed, and release the binding. The release
    /// happens on the error path exactly as on the success path: whatever the
    /// outcome, the ledger gains one bind and one release and no binding is
    /// left open.
    pub fn present_frame(
        &mut self,
        texture: u32,
        source: DeviceSize,
        dest: DeviceSize,
        error_code: u32,
    ) -> (r: Result<BlitOp, GlError>)
        requires
            old(self).wf(),
            old(self).balanced(),
            old(self).acquired < u64::MAX,
        ensures
            final(self).wf(),
            final(self).balanced(),
            final(self).acquired == old(self).acquired + 1,
            final(self).released == old(self).released + 1,
            final(self).fb == old(self).fb,
            error_code == GL_NO_ERROR ==> r == Ok::<BlitOp, GlError>(
                BlitOp { read_fb: old(self).fb, texture, source, dest },
            ),
            error_code != GL_NO_ERROR ==> r == Err::<BlitOp, GlError>(GlError { code: error_code }),
    {
        self.bind_surface_texture(texture);
        let outcome = self.draw_texture(source, dest, error_code);
        self.release_surface_texture();
        outcome
    }

    /// A present starting from the engine's answer to the front-surface
    /// request. No current frame is a protocol violation (the caller asked to
    /// present before the engine was ready): nothing is bound and the fatal
    /// error is handed up. With a frame, this is one balanced present.
    pub fn present_from_front(
        &mut self,
        front_texture: Option<u32>,
        source: DeviceSize,
        dest: DeviceSize,
        error_code: u32,
    ) -> (r: Result<BlitOp, PresentError>)
        requires
            old(self).wf(),
            old(self).balanced(),
            old(self).acquired < u64::MAX,
        ensures
            final(self).wf(),
            final(self).balanced(),
            final(self).fb == old(self).fb,
            front_texture is None ==> {
                &&& r == Err::<BlitOp, PresentError>(PresentError::NoFrontSurface)
                &&& *final(self) == *old(self)
            },
            front_texture matches Some(texture) ==> {
                &&& final(self).acquired == old(self).acquired + 1
                &&& final(self).released == old(self).released + 1
                &&& (error_code == GL_NO_ERROR ==> r == Ok::<BlitOp, PresentError>(
                    BlitOp { read_fb: old(self).fb, texture, source, dest },
                ))
                &&& (error_code != GL_NO_ERROR ==> r == Err::<BlitOp, PresentError>(
                    PresentError::Blit { error: GlError { code: error_code } },
                ))
            },
    {
        match front_texture {
            None => Err(PresentError::NoFrontSurface),
            Some(texture) => match self.present_frame(texture, source, dest, error_code) {
                Ok(op) => Ok(op),
                Err(error) => Err(PresentError::Blit { error }),
            },
        }
    }
}

} // verus!
