//! The lifecycle of the graphics surface.
//!
//! The host may take the window away at any time while the process lives on.
//! The rendering context and the painter are costly to rebuild, so they are
//! kept across the loss of the window: the state separates "a surface to draw
//! on" from "a rendering context". Each transition takes the old state by value
//! and builds the new one, so that a surface without a context cannot be
//! represented.
//!
//! The state is generic over the host's objects: `W` a native window, `S` a
//! drawing surface, `C` a rendering context that is current, `N` one that is
//! not, and `P` the painter. The host calls that create or switch a context are
//! handed in as closures.

use vstd::prelude::*;

verus! {

/// Where the graphics objects of the process stand.
pub enum SurfaceState<W, S, C, N, P> {
    /// No window has been attached yet: there is no context either.
    Uninitialized,
    /// A window is attached: its surface is drawn on with a current context.
    Active { window: W, surface: S, context: C, painter: P },
    /// The window was taken away: the context is kept, not current.
    Suspended { saved_context: N, painter: P },
}

impl<W, S, C, N, P> SurfaceState<W, S, C, N, P> {
    /// The state after the window is detached, where `saved` is the context
    /// made not current. Only an active state changes.
    pub open spec fn detached(self, saved: N) -> Self {
        match self {
            SurfaceState::Active { painter, .. } => SurfaceState::Suspended {
                saved_context: saved,
                painter,
            },
            other => other,
        }
    }

    /// The state after `window` and its `surface` are attached, where
    /// `created` is a newly created context and painter, and `resumed` is the
    /// saved context made current. A state without a context takes the new
    /// one; a suspended state takes its own context back.
    pub open spec fn attached(self, window: W, surface: S, created: (C, P), resumed: C) -> Self {
        match self {
            SurfaceState::Uninitialized => SurfaceState::Active {
                window,
                surface,
                context: created.0,
                painter: created.1,
            },
            SurfaceState::Suspended { painter, .. } => SurfaceState::Active {
                window,
                surface,
                context: resumed,
                painter,
            },
            other => other,
        }
    }

    /// The state of a process that has not seen a window yet.
    pub fn new() -> (r: Self)
        ensures
            r is Uninitialized,
    {
        SurfaceState::Uninitialized
    }

    /// Whether a surface can be drawn on now.
    pub fn is_active(&self) -> (r: bool)
        ensures
            r == (*self is Active),
    {
        match self {
            SurfaceState::Active { .. } => true,
            _ => false,
        }
    }

    /// Attaches a window and its surface.
    ///
    /// Without a context, `create` makes a context and a painter for the
    /// surface; a suspended context is made current on the surface by
    /// `make_current`, and keeps its painter. Attaching while active is a
    /// contract violation.
    pub fn attach_window<F, G>(&mut self, window: W, surface: S, create: F, make_current: G)
        where
            F: FnOnce(&S) -> (C, P),
            G: FnOnce(N, &S) -> C,
        requires
            !(*old(self) is Active),
            *old(self) is Uninitialized ==> create.requires((&surface,)),
            *old(self) is Suspended ==> make_current.requires(
                (old(self)->saved_context, &surface),
            ),
        ensures
            *final(self) is Active,
            *final(self) == old(self).attached(
                window,
                surface,
                (final(self)->context, final(self)->Active_painter),
                final(self)->context,
            ),
            *old(self) is Uninitialized ==> create.ensures(
                (&surface,),
                (final(self)->context, final(self)->Active_painter),
            ),
            *old(self) is Suspended ==> make_current.ensures(
                (old(self)->saved_context, &surface),
                final(self)->context,
            ),
    {
        let mut previous = SurfaceState::Uninitialized;
        std::mem::swap(self, &mut previous);
        match previous {
            SurfaceState::Suspended { saved_context, painter } => {
                let context = make_current(saved_context, &surface);
                *self = SurfaceState::Active { window, surface, context, painter };
            },
            _ => {
                let (context, painter) = create(&surface);
                *self = SurfaceState::Active { window, surface, context, painter };
            },
        }
    }

    /// Detaches the window: an active state keeps its context, made not
    /// current by `make_not_current`, and its painter, and drops the surface
    /// and the window. Any other state is left as it is.
    pub fn detach_window<G>(&mut self, make_not_current: G)
        where
            G: FnOnce(C) -> N,
        requires
            *old(self) is Active ==> make_not_current.requires((old(self)->context,)),
        ensures
            *old(self) is Active ==> {
                &&& *final(self) is Suspended
                &&& make_not_current.ensures((old(self)->context,), final(self)->saved_context)
                &&& *final(self) == old(self).detached(final(self)->saved_context)
            },
            !(*old(self) is Active) ==> *final(self) == *old(self),
    {
        let mut previous = SurfaceState::Uninitialized;
        std::mem::swap(self, &mut previous);
        match previous {
            SurfaceState::Active { context, painter, .. } => {
                let saved_context = make_not_current(context);
                *self = SurfaceState::Suspended { saved_context, painter };
            },
            other => {
                *self = other;
            },
        }
    }

    /// Ends the lifecycle: an active context is made not current first. The
    /// painter, whose resources the caller releases, is handed back where there
    /// is one.
    pub fn teardown<G>(self, make_not_current: G) -> (r: Option<P>)
        where
            G: FnOnce(C) -> N,
        requires
            self is Active ==> make_not_current.requires((self->context,)),
        ensures
            (match self {
                SurfaceState::Uninitialized => r is None,
                SurfaceState::Active { painter, .. } => r == Some(painter),
                SurfaceState::Suspended { painter, .. } => r == Some(painter),
            }),
    {
        match self {
            SurfaceState::Uninitialized => None,
            SurfaceState::Active { context, painter, .. } => {
                let _released = make_not_current(context);
                Some(painter)
            },
            SurfaceState::Suspended { painter, .. } => Some(painter),
        }
    }
}

/// Attaching a window to a state without one, then detaching it, reaches the
/// suspended state, which holds no surface and no window, only the saved
/// context and the painter. Attaching again reaches the active state with that
/// context made current and that painter: what a newly created context would
/// have been plays no part, so the context is not created again.
pub proof fn lemma_suspend_then_resume<W, S, C, N, P>(
    st: SurfaceState<W, S, C, N, P>,
    window1: W,
    surface1: S,
    created1: (C, P),
    resumed1: C,
    saved: N,
    window2: W,
    surface2: S,
    created2: (C, P),
    created3: (C, P),
    resumed2: C,
)
    requires
        !(st is Active),
    ensures
        ({
            let active = st.attached(window1, surface1, created1, resumed1);
            let suspended = active.detached(saved);
            &&& active is Active
            &&& suspended == (SurfaceState::<W, S, C, N, P>::Suspended {
                saved_context: saved,
                painter: active->Active_painter,
            })
            &&& suspended.attached(window2, surface2, created2, resumed2) == suspended.attached(
                window2,
                surface2,
                created3,
                resumed2,
            )
            &&& suspended.attached(window2, surface2, created2, resumed2)
                == (SurfaceState::<W, S, C, N, P>::Active {
                window: window2,
                surface: surface2,
                context: resumed2,
                painter: active->Active_painter,
            })
        }),
{
}

} // verus!
