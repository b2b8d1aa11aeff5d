//! Surface and shell state: committed buffer bookkeeping per surface and
//! the top-level shell surface lifecycle. Window geometry is dictated in
//! exactly one place: a new top-level surface's pending size is set to
//! the compositor's current output size and it is marked activated, then
//! the client is asked to configure.

use vstd::prelude::*;

verus! {

/// A size in pixels.
#[derive(Debug, Clone, Copy, PartialEq, Eq, Structural)]
pub struct Size {
    /// Width.
    pub w: i32,
    /// Height.
    pub h: i32,
}

/// A position in the global space.
#[derive(Debug, Clone, Copy, PartialEq, Eq, Structural)]
pub struct Point {
    /// Horizontal coordinate.
    pub x: i32,
    /// Vertical coordinate.
    pub y: i32,
}

/// A mode of an output: a resolution and a refresh rate.
#[derive(Debug, Clone, Copy, PartialEq, Eq, Structural)]
pub struct Mode {
    /// The resolution, in pixels.
    pub size: Size,
    /// The refresh rate, in millihertz.
    pub refresh: i32,
}

/// The physical display surfaced to clients.
#[derive(Debug, Clone)]
pub struct Output {
    /// The output's name.
    pub name: String,
    /// The physical dimensions, in millimetres.
    pub physical_size: Size,
    /// The make of the monitor.
    pub make: String,
    /// The model of the monitor.
    pub model: String,
    /// The current mode, once configured.
    pub current_mode: Option<Mode>,
    /// The preferred mode, once set.
    pub preferred_mode: Option<Mode>,
    /// The scale factor, in thousandths.
    pub scale_milli: u32,
    /// The position in the global space.
    pub position: Point,
}

impl Output {
    /// A fresh output with the given name and physical properties, not
    /// yet configured.
    pub fn new(name: String, physical_size: Size, make: String, model: String) -> (r:
        Output)
        ensures
            r.name@ == name@,
            r.physical_size == physical_size,
            r.make@ == make@,
            r.model@ == model@,
            r.current_mode is None,
            r.preferred_mode is None,
            r.scale_milli == 1000u32,
            r.position == (Point { x: 0, y: 0 }),
    {
        Output {
            name,
            physical_size,
            make,
            model,
            current_mode: None,
            preferred_mode: None,
            scale_milli: 1000,
            position: Point { x: 0, y: 0 },
        }
    }

    /// Change the parts of the output's state that are given.
    pub fn change_current_state(
        &mut self,
        mode: Option<Mode>,
        scale_milli: Option<u32>,
        position: Option<Point>,
    )
        ensures
            final(self).current_mode == if mode is Some {
                mode
            } else {
                old(self).current_mode
            },
            final(self).scale_milli == match scale_milli {
                Some(s) => s,
                None => old(self).scale_milli,
            },
            final(self).position == match position {
                Some(p) => p,
                None => old(self).position,
            },
            final(self).name == old(self).name,
            final(self).physical_size == old(self).physical_size,
            final(self).make == old(self).make,
            final(self).model == old(self).model,
            final(self).preferred_mode == old(self).preferred_mode,
    {
        if let Some(m) = mode {
            self.current_mode = Some(m);
        }
        if let Some(s) = scale_milli {
            self.scale_milli = s;
        }
        if let Some(p) = position {
            self.position = p;
        }
    }

    /// Set the preferred mode.
    pub fn set_preferred(&mut self, mode: Mode)
        ensures
            *final(self) == (Output { preferred_mode: Some(mode), ..*old(self) }),
    {
        self.preferred_mode = Some(mode);
    }

    /// The width of the output's current mode, or zero before one is set.
    pub fn mode_width(&self) -> (r: i32)
        ensures
            r == match self.current_mode {
                Some(m) => m.size.w,
                None => 0i32,
            },
    {
        match &self.current_mode {
            Some(m) => m.size.w,
            None => 0,
        }
    }

    /// The height of the output's current mode, or zero before one is set.
    pub fn mode_height(&self) -> (r: i32)
        ensures
            r == match self.current_mode {
                Some(m) => m.size.h,
                None => 0i32,
            },
    {
        match &self.current_mode {
            Some(m) => m.size.h,
            None => 0,
        }
    }
}

/// The double-buffered state of a top-level surface.
#[derive(Debug, Clone, Copy, PartialEq, Eq, Structural)]
pub struct SurfaceState {
    /// The size dictated to the client, if any.
    pub size: Option<Size>,
    /// Whether the surface is the active window.
    pub activated: bool,
}

/// A client's top-level window surface.
#[derive(Debug, Clone)]
pub struct ToplevelSurface {
    /// The underlying surface's identity.
    pub surface_id: u64,
    /// The state to take effect at the next configure.
    pub pending: SurfaceState,
    /// The state the client last acknowledged.
    pub current: SurfaceState,
    /// How many configure requests were sent to the client.
    pub configures_sent: u64,
    /// The buffer the client last committed, if any.
    pub buffer: Option<u64>,
    /// The frame callbacks the client registered and has not yet been
    /// sent; fired in order at the end of a drawn frame.
    pub frame_callbacks: Vec<u64>,
}

impl ToplevelSurface {
    /// A fresh top-level surface over `surface_id`: nothing pending,
    /// nothing committed.
    pub fn new(surface_id: u64) -> (r: ToplevelSurface)
        ensures
            r.surface_id == surface_id,
            r.pending == (SurfaceState { size: None, activated: false }),
            r.current == (SurfaceState { size: None, activated: false }),
            r.configures_sent == 0u64,
            r.buffer is None,
            r.frame_callbacks@.len() == 0,
    {
        ToplevelSurface {
            surface_id,
            pending: SurfaceState { size: None, activated: false },
            current: SurfaceState { size: None, activated: false },
            configures_sent: 0,
            buffer: None,
            frame_callbacks: Vec::new(),
        }
    }

    /// Ask the client to configure: one more configure request is on the
    /// wire for the pending state.
    pub fn send_configure(&mut self)
        requires
            old(self).configures_sent < u64::MAX,
        ensures
            *final(self) == (ToplevelSurface {
                configures_sent: (old(self).configures_sent + 1) as u64,
                ..*old(self)
            }),
    {
        self.configures_sent = self.configures_sent + 1;
    }

    /// The client committed: the attached buffer, if any, becomes the
    /// committed one and the pending state becomes current. Pixel
    /// contents are not interpreted here.
    pub fn commit(&mut self, attached: Option<u64>)
        ensures
            *final(self) == (ToplevelSurface {
                current: old(self).pending,
                buffer: attached,
                ..*old(self)
            }),
    {
        self.buffer = attached;
        self.current = self.pending;
    }

    /// The client registered a frame callback, to be fired when the next
    /// frame is drawn.
    pub fn register_frame_callback(&mut self, callback: u64)
        ensures
            *final(self) == (ToplevelSurface {
                frame_callbacks: final(self).frame_callbacks,
                ..*old(self)
            }),
            final(self).frame_callbacks@ == old(self).frame_callbacks@.push(callback),
    {
        self.frame_callbacks.push(callback);
    }

    /// Drain the pending frame callbacks, stamping each with the given
    /// time so the client throttles its own redraw rate. The callbacks
    /// fire in registration order and each fires once.
    pub fn take_frame_callbacks(&mut self, time: u32) -> (r: Vec<(u64, u32)>)
        ensures
            final(self).frame_callbacks@.len() == 0,
            r@.len() == old(self).frame_callbacks@.len(),
            forall|i: int|
                0 <= i < r@.len() ==> #[trigger] r@[i]
                    == (old(self).frame_callbacks@[i], time),
            *final(self) == (ToplevelSurface {
                frame_callbacks: final(self).frame_callbacks,
                ..*old(self)
            }),
    {
        let mut fired: Vec<(u64, u32)> = Vec::new();
        let mut i: usize = 0;
        let n = self.frame_callbacks.len();
        while i < n
            invariant
                n == self.frame_callbacks@.len(),
                self.frame_callbacks == old(self).frame_callbacks,
                i <= n,
                fired@.len() == i,
                forall|j: int|
                    0 <= j < i ==> #[trigger] fired@[j] == (old(self).frame_callbacks@[j], time),
            decreases n - i,
        {
            fired.push((self.frame_callbacks[i], time));
            i = i + 1;
        }
        self.frame_callbacks = Vec::new();
        fired
    }
}

/// The shell state: the top-level surfaces, in creation order. Only the
/// first is ever treated as the interactive target.
#[derive(Debug)]
pub struct XdgShellState {
    /// The top-level surfaces.
    pub toplevels: Vec<ToplevelSurface>,
}

impl XdgShellState {
    /// No surface yet.
    pub fn new() -> (r: XdgShellState)
        ensures
            r.toplevels@.len() == 0,
    {
        XdgShellState { toplevels: Vec::new() }
    }

    /// The first top-level surface's underlying surface id, if any: the
    /// single interactive target.
    pub fn first_surface(&self) -> (r: Option<u64>)
        ensures
            r == if self.toplevels@.len() > 0 {
                Some(self.toplevels@[0].surface_id)
            } else {
                None::<u64>
            },
    {
        if self.toplevels.len() > 0 {
            Some(self.toplevels[0].surface_id)
        } else {
            None
        }
    }

    /// A new top-level surface appears: its pending size is dictated to
    /// be exactly the compositor's current output size, it is marked
    /// activated, and the client is asked to configure. No client-driven
    /// resizing is honored anywhere else.
    pub fn new_toplevel(&mut self, surface_id: u64, output_size: Size)
        ensures
            final(self).toplevels@.len() == old(self).toplevels@.len() + 1,
            final(self).toplevels@.take(old(self).toplevels@.len() as int) == old(
                self).toplevels@,
            final(self).toplevels@.last().surface_id == surface_id,
            final(self).toplevels@.last().pending == (SurfaceState {
                size: Some(output_size),
                activated: true,
            }),
            final(self).toplevels@.last().configures_sent == 1u64,
            final(self).toplevels@.last().buffer is None,
            final(self).toplevels@.last().frame_callbacks@.len() == 0,
    {
        let mut surface = ToplevelSurface::new(surface_id);
        surface.pending = SurfaceState { size: Some(output_size), activated: true };
        surface.send_configure();
        self.toplevels.push(surface);
        proof {
            assert(self.toplevels@.take(old(self).toplevels@.len() as int)
                =~= old(self).toplevels@);
        }
    }
}

} // verus!
