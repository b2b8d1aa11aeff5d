//! The compositor: the display's client registry bound to one listening
//! endpoint, a seat with a keyboard and touch, the shell state, and the
//! per-frame dispatcher that turns centralized host events into protocol
//! state changes and an ordered frame plan. Within one frame the plan
//! dispatches, then flushes, then submits: swapping before flushing can
//! visibly stall a client.

use vstd::prelude::*;
use crate::event::{
    spec_clamp_coords, spec_outputs_wf, spec_total_width, clamp_coords, total_width,
    transform_normalized, CentralizedEvent, InputEvent, PPM,
};
use crate::keyboard::{FilterResult, KeyState};
use crate::xkb::ModifiersState;
use crate::registry::{ClientRegistry, SocketBindError, SocketNamespace};
use crate::seat::Seat;
use crate::serial::{Serial, SerialCounter};
use crate::shell::{Mode, Output, Size, ToplevelSurface, XdgShellState};
use crate::render::{Color, Rect};
use crate::xkb::KeymapModel;

verus! {

/// An event delivered to a pointer focus.
#[derive(Debug, Clone, Copy, PartialEq, Eq, Structural)]
pub enum PointerEvent {
    /// The pointer moved over a target.
    Motion {
        /// The surface under the pointer, if any.
        target: Option<u64>,
        /// Horizontal position, pixels.
        x: i64,
        /// Vertical position, pixels.
        y: i64,
        /// The serial of the event.
        serial: Serial,
        /// Event time, milliseconds.
        time: u32,
    },
    /// A button changed state.
    Button {
        /// The button code.
        button: u32,
        /// Whether the button is now down.
        pressed: bool,
        /// The serial of the event.
        serial: Serial,
        /// Event time, milliseconds.
        time: u32,
    },
    /// The pointer scrolled.
    Axis {
        /// Horizontal amount, thousandths of a step.
        horizontal_milli: i32,
        /// Vertical amount, thousandths of a step.
        vertical_milli: i32,
        /// Event time, milliseconds.
        time: u32,
    },
    /// The batch of pointer events up to here forms one frame.
    Frame,
}

/// The pointer capability: its location and the events it delivered.
#[derive(Debug)]
pub struct PointerHandle {
    /// The current location, pixels.
    pub x: i64,
    /// The current location, pixels.
    pub y: i64,
    /// The events delivered, in order.
    pub events: Vec<PointerEvent>,
}

/// An event delivered to a touch focus.
#[derive(Debug, Clone, Copy, PartialEq, Eq, Structural)]
pub enum TouchEvent {
    /// A touch point went down on a target.
    Down {
        /// The touch slot.
        slot: u32,
        /// The surface under the touch, if any.
        target: Option<u64>,
        /// Horizontal position, parts per million.
        x_ppm: u64,
        /// Vertical position, parts per million.
        y_ppm: u64,
        /// The serial of the event.
        serial: Serial,
        /// Event time, milliseconds.
        time: u32,
    },
    /// A touch point lifted.
    Up {
        /// The touch slot.
        slot: u32,
        /// The serial of the event.
        serial: Serial,
        /// Event time, milliseconds.
        time: u32,
    },
    /// A touch point moved.
    Motion {
        /// The touch slot.
        slot: u32,
        /// Horizontal position, parts per million.
        x_ppm: u64,
        /// Vertical position, parts per million.
        y_ppm: u64,
        /// Event time, milliseconds.
        time: u32,
    },
}

/// The touch capability: the events it delivered.
#[derive(Debug)]
pub struct TouchHandle {
    /// The events delivered, in order.
    pub events: Vec<TouchEvent>,
}

/// The protocol-facing state the handlers mutate.
#[derive(Debug)]
pub struct State {
    /// The shell state: the top-level surfaces.
    pub xdg_shell_state: XdgShellState,
    /// The current drawable size, dictated to new top-level surfaces.
    pub size: Size,
    /// The outputs, arranged side by side.
    pub outputs: Vec<Output>,
}

impl State {
    /// A new top-level surface: its pending size is the compositor's
    /// current output size and it is marked activated, then the client is
    /// asked to configure. The one place window geometry is dictated.
    pub fn new_toplevel(&mut self, surface_id: u64)
        ensures
            final(self).xdg_shell_state.toplevels@.len() == old(
                self).xdg_shell_state.toplevels@.len() + 1,
            final(self).xdg_shell_state.toplevels@.take(
                old(self).xdg_shell_state.toplevels@.len() as int) == old(
                self).xdg_shell_state.toplevels@,
            final(self).xdg_shell_state.toplevels@.last().surface_id == surface_id,
            final(self).xdg_shell_state.toplevels@.last().pending.size == Some(old(self).size),
            final(self).xdg_shell_state.toplevels@.last().pending.activated,
            final(self).xdg_shell_state.toplevels@.last().configures_sent == 1u64,
            final(self).size == old(self).size,
            final(self).outputs == old(self).outputs,
    {
        let size = self.size;
        self.xdg_shell_state.new_toplevel(surface_id, size);
    }
}

/// One ordered step of the per-frame pipeline.
#[derive(Debug, Clone, Copy, PartialEq, Eq, Structural)]
pub enum FrameAction {
    /// Accept a newly connected client, if one is waiting.
    AcceptClient,
    /// Process the queued incoming protocol messages.
    DispatchClients,
    /// Push every outgoing message to the clients.
    FlushClients,
    /// Hand the frame to the host for the buffer swap.
    Submit,
}

/// The plan of one drawn frame, handed to the host: what to draw, which
/// frame callbacks to fire, and the pipeline steps in their mandatory
/// order.
#[derive(Debug)]
pub struct RedrawPlan {
    /// The fixed background color the damage is cleared to before the
    /// elements are drawn.
    pub background: Color,
    /// The damage to redraw: the full drawable.
    pub damage: Rect,
    /// The surfaces to draw, in tree order, at zero offset and unit scale.
    pub elements: Vec<u64>,
    /// The frame callbacks to fire, each stamped with the elapsed time.
    pub callbacks: Vec<(u64, u32)>,
    /// The pipeline steps: accept, dispatch, flush, submit — in order.
    pub actions: Vec<FrameAction>,
}

/// The result of handling one centralized event.
#[derive(Debug)]
pub struct HandleResult {
    /// Whether the host should stop the compositor.
    pub exit: bool,
    /// The frame plan, when the event asked for a redraw.
    pub plan: Option<RedrawPlan>,
}

/// The surface ids of the top-level surfaces, in tree order.
pub open spec fn spec_surface_ids(toplevels: Seq<ToplevelSurface>) -> Seq<u64>
    decreases toplevels.len(),
{
    if toplevels.len() == 0 {
        Seq::empty()
    } else {
        spec_surface_ids(toplevels.drop_last()).push(toplevels.last().surface_id)
    }
}

/// The frame callbacks of one surface, stamped with the elapsed time.
pub open spec fn spec_stamped_callbacks(callbacks: Seq<u64>, time: u32) -> Seq<(u64, u32)> {
    callbacks.map_values(|cb: u64| (cb, time))
}

/// Every pending frame callback of the surfaces, in tree order and in
/// registration order within one surface, stamped with the elapsed time.
pub open spec fn spec_all_frame_callbacks(toplevels: Seq<ToplevelSurface>, time: u32) -> Seq<
    (u64, u32),
>
    decreases toplevels.len(),
{
    if toplevels.len() == 0 {
        Seq::empty()
    } else {
        spec_all_frame_callbacks(toplevels.drop_last(), time) + spec_stamped_callbacks(
            toplevels.last().frame_callbacks@, time)
    }
}

/// The id of the single interactive target: the first top-level surface.
pub open spec fn spec_first_surface(state: State) -> Option<u64> {
    if state.xdg_shell_state.toplevels@.len() > 0 {
        Some(state.xdg_shell_state.toplevels@[0].surface_id)
    } else {
        None
    }
}

/// What one input event does to the compositor: a key event advances
/// the keyboard's state machine; a touch down or a pointer button moves
/// the keyboard focus to the single interactive target; an absolute
/// pointer motion is transformed against the combined output extent,
/// clamped to the arranged outputs, and delivered with a pointer frame.
/// Every batch that delivers anything draws exactly one fresh serial,
/// every other batch leaves the mint untouched, and the logs an event
/// does not concern stay as they were.
pub open spec fn spec_input_effects(
    pre: Compositor,
    post: Compositor,
    input: InputEvent,
    time_ms: u32,
) -> bool {
    match input {
        InputEvent::Keyboard { keycode, state } => {
            &&& post.seat.keyboard is Some
            &&& (post.seat.keyboard matches Some(k) ==> (pre.seat.keyboard matches Some(k0)
                ==> k.internal.spec_pressed() == if state == KeyState::Pressed {
                k0.internal.spec_pressed().insert(keycode)
            } else {
                k0.internal.spec_pressed().remove(keycode)
            }))
            &&& post.serials.next == pre.serials.next + 1
            &&& post.pointer.events == pre.pointer.events
            &&& post.touch.events == pre.touch.events
        },
        InputEvent::TouchDown { slot, x_ppm, y_ppm } => match spec_first_surface(pre.state) {
            Some(sid) => {
                &&& (pre.seat.keyboard is Some ==> (post.seat.keyboard matches Some(k)
                    && k.internal.focus == Some((sid, Serial { value: pre.serials.next }))))
                &&& post.touch.events@ == pre.touch.events@.push(TouchEvent::Down {
                    slot,
                    target: Some(sid),
                    x_ppm,
                    y_ppm,
                    serial: Serial { value: pre.serials.next },
                    time: time_ms,
                })
                &&& post.serials.next == pre.serials.next + 1
                &&& post.pointer.events == pre.pointer.events
            },
            None => {
                &&& post.touch.events == pre.touch.events
                &&& post.pointer.events == pre.pointer.events
                &&& post.seat == pre.seat
                &&& post.serials == pre.serials
            },
        },
        InputEvent::TouchUp { slot } => {
            &&& post.touch.events@ == if pre.state.xdg_shell_state.toplevels@.len() > 0 {
                pre.touch.events@.push(TouchEvent::Up {
                    slot,
                    serial: Serial { value: pre.serials.next },
                    time: time_ms,
                })
            } else {
                pre.touch.events@
            }
            &&& post.serials.next == if pre.state.xdg_shell_state.toplevels@.len() > 0 {
                pre.serials.next + 1
            } else {
                pre.serials.next as int
            }
            &&& post.pointer.events == pre.pointer.events
            &&& post.seat == pre.seat
        },
        InputEvent::TouchMotion { slot, x_ppm, y_ppm } => {
            &&& post.touch.events@ == if pre.state.xdg_shell_state.toplevels@.len() > 0 {
                pre.touch.events@.push(TouchEvent::Motion { slot, x_ppm, y_ppm, time: time_ms })
            } else {
                pre.touch.events@
            }
            &&& post.serials == pre.serials
            &&& post.pointer.events == pre.pointer.events
            &&& post.seat == pre.seat
        },
        InputEvent::PointerMotionAbsolute { x_ppm, y_ppm, time_msec } => {
            &&& (spec_clamp_coords(pre.state.outputs@, (spec_clip_ppm(x_ppm)
                * spec_total_width(pre.state.outputs@)) / (PPM as int), (spec_clip_ppm(y_ppm)
                * spec_max_output_height(pre.state.outputs@)) / (PPM as int)) == (
                post.pointer.x as int, post.pointer.y as int))
            &&& post.pointer.events@ == pre.pointer.events@ + (match spec_first_surface(
                pre.state) {
                Some(sid) => seq![PointerEvent::Motion {
                    target: Some(sid),
                    x: post.pointer.x,
                    y: post.pointer.y,
                    serial: Serial { value: pre.serials.next },
                    time: time_msec,
                }],
                None => Seq::empty(),
            }) + seq![PointerEvent::Frame]
            &&& post.serials.next == pre.serials.next + 1
            &&& post.touch.events == pre.touch.events
            &&& post.seat == pre.seat
        },
        InputEvent::PointerButton { button, pressed, time_msec } => {
            &&& (match spec_first_surface(pre.state) {
                Some(sid) => pre.seat.keyboard is Some ==> (post.seat.keyboard matches Some(k)
                    && k.internal.focus == Some((sid, Serial { value: pre.serials.next }))),
                None => post.seat == pre.seat,
            })
            &&& post.pointer.events@ == pre.pointer.events@ + seq![PointerEvent::Button {
                button,
                pressed,
                serial: Serial { value: pre.serials.next },
                time: time_msec,
            }, PointerEvent::Frame]
            &&& post.serials.next == pre.serials.next + 1
            &&& post.touch.events == pre.touch.events
        },
        InputEvent::PointerAxis { horizontal_milli, vertical_milli, time_msec } => {
            &&& post.pointer.events@ == pre.pointer.events@ + seq![PointerEvent::Axis {
                horizontal_milli,
                vertical_milli,
                time: time_msec,
            }, PointerEvent::Frame]
            &&& post.serials == pre.serials
            &&& post.touch.events == pre.touch.events
            &&& post.seat == pre.seat
        },
    }
}

/// The compositor: one display, one seat, one output.
#[derive(Debug)]
pub struct Compositor {
    /// The protocol-facing state.
    pub state: State,
    /// The client registry of the display.
    pub display: ClientRegistry,
    /// The handle of the bound listening socket.
    pub socket: usize,
    /// The seat, carrying the keyboard.
    pub seat: Seat,
    /// The touch capability.
    pub touch: TouchHandle,
    /// The pointer capability.
    pub pointer: PointerHandle,
    /// The output advertised to clients.
    pub output: Output,
    /// The serial mint; every focus change, input batch and grab draws
    /// from it.
    pub serials: SerialCounter,
}

impl Compositor {
    /// The compositor's internal consistency.
    pub open spec fn wf(self) -> bool {
        &&& self.seat.wf()
        &&& self.seat.keyboard is Some
        &&& self.display.wf()
        &&& spec_outputs_wf(self.state.outputs@)
    }

    /// Build a compositor: bind the listening endpoint, create the seat
    /// with a keyboard over `keymap` and the given repeat parameters, and
    /// advertise one output of the given size at sixty hertz and integer
    /// scale one. Binding an endpoint already taken is fatal: the error
    /// is returned and nothing is built.
    pub fn build(
        namespace: &mut SocketNamespace,
        socket_path: String,
        seat_name: String,
        keymap: KeymapModel,
        size: Size,
    ) -> (r: Result<Compositor, SocketBindError>)
        requires
            keymap.wf(),
            0 <= size.w < 65536,
            0 <= size.h < 65536,
        ensures
            match r {
                Ok(c) => {
                    &&& !old(namespace).spec_is_bound(socket_path@)
                    &&& final(namespace).spec_is_bound(socket_path@)
                    &&& c.wf()
                    &&& c.seat.keyboard matches Some(k) && k.internal.xkb.state.keymap == keymap
                        && k.internal.focus is None && k.internal.repeat_delay == 1000i32
                        && k.internal.repeat_rate == 200i32
                    &&& c.state.size == size
                    &&& c.output.current_mode == Some(Mode { size, refresh: 60000 })
                    &&& c.output.preferred_mode == Some(Mode { size, refresh: 60000 })
                    &&& c.output.scale_milli == 1000u32
                    &&& c.state.outputs@.len() == 1
                    &&& c.state.outputs@[0].current_mode == Some(Mode { size, refresh: 60000 })
                    &&& c.state.xdg_shell_state.toplevels@.len() == 0
                    &&& c.display.clients@.len() == 0
                    &&& c.serials.next == 1u64
                },
                Err(e) => {
                    &&& old(namespace).spec_is_bound(socket_path@)
                    &&& *final(namespace) == *old(namespace)
                },
            },
    {
        let socket = match namespace.bind(socket_path) {
            Ok(handle) => handle,
            Err(e) => {
                return Err(e);
            },
        };
        let mut seat = Seat { id: 0, name: seat_name, keyboard: None, events: Vec::new() };
        seat.add_keyboard(keymap, 1000, 200);
        let mode = Mode { size, refresh: 60000 };
        let mut output = Output::new(
            String::new(),
            Size { w: size.w, h: size.h },
            String::new(),
            String::new(),
        );
        output.change_current_state(Some(mode), Some(1000), None);
        output.set_preferred(mode);
        let mut space_output = Output::new(
            String::new(),
            Size { w: size.w, h: size.h },
            String::new(),
            String::new(),
        );
        space_output.change_current_state(Some(mode), Some(1000), None);
        space_output.set_preferred(mode);
        let mut outputs: Vec<Output> = Vec::new();
        outputs.push(space_output);
        proof {
            assert(spec_outputs_wf(outputs@));
        }
        Ok(Compositor {
            state: State { xdg_shell_state: XdgShellState::new(), size, outputs },
            display: ClientRegistry::new(),
            socket,
            seat,
            touch: TouchHandle { events: Vec::new() },
            pointer: PointerHandle { x: 0, y: 0, events: Vec::new() },
            output,
            serials: SerialCounter::new(),
        })
    }

    /// Drain the frame callbacks of every top-level surface, stamped with
    /// the elapsed time, in tree order.
    fn take_all_frame_callbacks(&mut self, time: u32) -> (r: Vec<(u64, u32)>)
        requires
            old(self).wf(),
        ensures
            final(self).wf(),
            r@ == spec_all_frame_callbacks(old(self).state.xdg_shell_state.toplevels@, time),
            forall|i: int|
                0 <= i < final(self).state.xdg_shell_state.toplevels@.len() ==> (
                #[trigger] final(self).state.xdg_shell_state.toplevels@[i]).frame_callbacks@.len()
                    == 0,
            final(self).state.xdg_shell_state.toplevels@.len() == old(
                self).state.xdg_shell_state.toplevels@.len(),
            forall|i: int|
                0 <= i < final(self).state.xdg_shell_state.toplevels@.len()
                    ==> (#[trigger] final(self).state.xdg_shell_state.toplevels@[i]).surface_id
                    == old(self).state.xdg_shell_state.toplevels@[i].surface_id,
            *final(self) == (Compositor {
                state: State {
                    xdg_shell_state: final(self).state.xdg_shell_state,
                    ..old(self).state
                },
                ..*old(self)
            }),
    {
        let mut fired: Vec<(u64, u32)> = Vec::new();
        let mut i: usize = 0;
        let n = self.state.xdg_shell_state.toplevels.len();
        while i < n
            invariant
                old(self).wf(),
                n == self.state.xdg_shell_state.toplevels@.len(),
                n == old(self).state.xdg_shell_state.toplevels@.len(),
                i <= n,
                forall|j: int|
                    0 <= j < i ==> (#[trigger] self.state.xdg_shell_state.toplevels@[
                    j]).frame_callbacks@.len() == 0,
                forall|j: int|
                    0 <= j < n ==> (#[trigger] self.state.xdg_shell_state.toplevels@[j]).surface_id
                        == old(self).state.xdg_shell_state.toplevels@[j].surface_id,
                forall|j: int|
                    i <= j < n ==> #[trigger] self.state.xdg_shell_state.toplevels@[j] == old(
                    self).state.xdg_shell_state.toplevels@[j],
                fired@ == spec_all_frame_callbacks(
                    old(self).state.xdg_shell_state.toplevels@.take(i as int), time),
                *self == (Compositor {
                    state: State {
                        xdg_shell_state: self.state.xdg_shell_state,
                        ..old(self).state
                    },
                    ..*old(self)
                }),
            decreases n - i,
        {
            let ghost olds = old(self).state.xdg_shell_state.toplevels@;
            let mut surface = self.state.xdg_shell_state.toplevels.remove(i);
            let mut batch = surface.take_frame_callbacks(time);
            proof {
                assert(batch@ =~= spec_stamped_callbacks(olds[i as int].frame_callbacks@, time));
            }
            fired.append(&mut batch);
            self.state.xdg_shell_state.toplevels.insert(i, surface);
            proof {
                assert(olds.take(i + 1).drop_last() =~= olds.take(i as int));
                assert(olds.take(i + 1).last() == olds[i as int]);
                assert(fired@ =~= spec_all_frame_callbacks(olds.take(i + 1), time));
            }
            i = i + 1;
        }
        proof {
            assert(old(self).state.xdg_shell_state.toplevels@.take(n as int)
                =~= old(self).state.xdg_shell_state.toplevels@);
        }
        fired
    }

    /// Handle one centralized event.
    ///
    /// A redraw produces the frame plan: the full-drawable damage, the
    /// surfaces in tree order, every pending frame callback stamped with
    /// `time_ms`, and the pipeline steps accept, dispatch, flush, submit
    /// in exactly that order. Input events advance the seat's state.
    /// A resize or scale change only updates the stored output
    /// description, consumed on the next configure; it moves no surface.
    pub fn handle(&mut self, event: CentralizedEvent, time_ms: u32) -> (r: HandleResult)
        requires
            old(self).wf(),
            old(self).serials.next < 0xfffffffffffffff0u64,
        ensures
            final(self).wf(),
            final(self).serials.next <= old(self).serials.next + 2,
            final(self).serials.next >= old(self).serials.next,
            !(event is Input) ==> final(self).serials == old(self).serials,
            r.exit == (event == CentralizedEvent::CloseRequested),
            match event {
                CentralizedEvent::Redraw => {
                    &&& r.plan matches Some(plan)
                    &&& (r.plan matches Some(plan) ==> {
                        &&& plan.actions@ == seq![FrameAction::AcceptClient,
                            FrameAction::DispatchClients, FrameAction::FlushClients,
                            FrameAction::Submit]
                        &&& plan.background == (Color { r: 26, g: 0, b: 0, a: 255 })
                        &&& plan.damage == (Rect {
                            x: 0,
                            y: 0,
                            w: old(self).state.size.w,
                            h: old(self).state.size.h,
                        })
                        &&& plan.elements@ == spec_surface_ids(
                            old(self).state.xdg_shell_state.toplevels@)
                        &&& plan.callbacks@ == spec_all_frame_callbacks(
                            old(self).state.xdg_shell_state.toplevels@, time_ms)
                        &&& forall|i: int|
                            0 <= i < final(self).state.xdg_shell_state.toplevels@.len() ==> (
                            #[trigger] final(self).state.xdg_shell_state.toplevels@[
                            i]).frame_callbacks@.len() == 0
                    })
                },
                CentralizedEvent::Input { event: ie } => spec_input_effects(*old(self),
                    *final(self), ie, time_ms),
                CentralizedEvent::Resized { size } => *final(self) == (Compositor {
                    state: State { size, ..old(self).state },
                    ..*old(self)
                }),
                CentralizedEvent::ScaleFactorChanged { scale_milli } => *final(self) == (
                Compositor { output: Output { scale_milli, ..old(self).output }, ..*old(self) }),
                CentralizedEvent::Focused { focused } => *final(self) == *old(self),
                CentralizedEvent::CloseRequested => *final(self) == *old(self),
            },
    {
        match event {
            CentralizedEvent::CloseRequested => HandleResult { exit: true, plan: None },
            CentralizedEvent::Redraw => {
                let damage = Rect::from_size(self.state.size);
                let mut elements: Vec<u64> = Vec::new();
                let mut i: usize = 0;
                let n = self.state.xdg_shell_state.toplevels.len();
                while i < n
                    invariant
                        n == self.state.xdg_shell_state.toplevels@.len(),
                        i <= n,
                        elements@ == spec_surface_ids(
                            self.state.xdg_shell_state.toplevels@.take(i as int)),
                    decreases n - i,
                {
                    proof {
                        assert(self.state.xdg_shell_state.toplevels@.take(i + 1).drop_last()
                            =~= self.state.xdg_shell_state.toplevels@.take(i as int));
                        assert(self.state.xdg_shell_state.toplevels@.take(i + 1).last()
                            == self.state.xdg_shell_state.toplevels@[i as int]);
                    }
                    elements.push(self.state.xdg_shell_state.toplevels[i].surface_id);
                    i = i + 1;
                }
                proof {
                    assert(self.state.xdg_shell_state.toplevels@.take(n as int)
                        =~= self.state.xdg_shell_state.toplevels@);
                }
                let callbacks = self.take_all_frame_callbacks(time_ms);
                let mut actions: Vec<FrameAction> = Vec::new();
                actions.push(FrameAction::AcceptClient);
                actions.push(FrameAction::DispatchClients);
                actions.push(FrameAction::FlushClients);
                actions.push(FrameAction::Submit);
                proof {
                    assert(actions@ =~= seq![FrameAction::AcceptClient,
                        FrameAction::DispatchClients, FrameAction::FlushClients,
                        FrameAction::Submit]);
                }
                let background = Color { r: 26, g: 0, b: 0, a: 255 };
                HandleResult {
                    exit: false,
                    plan: Some(RedrawPlan { background, damage, elements, callbacks, actions }),
                }
            },
            CentralizedEvent::Input { event: input } => {
                self.handle_input(input, time_ms);
                HandleResult { exit: false, plan: None }
            },
            CentralizedEvent::Resized { size } => {
                self.state.size = size;
                HandleResult { exit: false, plan: None }
            },
            CentralizedEvent::ScaleFactorChanged { scale_milli } => {
                self.output.scale_milli = scale_milli;
                HandleResult { exit: false, plan: None }
            },
            CentralizedEvent::Focused { focused } => {
                let _ = focused;
                HandleResult { exit: false, plan: None }
            },
        }
    }

    /// Route one input event into the seat.
    fn handle_input(&mut self, input: InputEvent, time_ms: u32)
        requires
            old(self).wf(),
            old(self).serials.next < 0xfffffffffffffff0u64,
        ensures
            final(self).wf(),
            final(self).serials.next <= old(self).serials.next + 2,
            final(self).serials.next >= old(self).serials.next,
            spec_input_effects(*old(self), *final(self), input, time_ms),
    {
        match input {
            InputEvent::Keyboard { keycode, state } => {
                let serial = self.serials.next_serial();
                match &mut self.seat.keyboard {
                    Some(keyboard) => {
                        let _ = keyboard.input::<(), _>(
                            keycode,
                            state,
                            serial,
                            time_ms,
                            |_mods: ModifiersState, _sym: u32, _kc: u32| FilterResult::Forward,
                        );
                    },
                    None => {},
                }
            },
            InputEvent::TouchDown { slot, x_ppm, y_ppm } => {
                let surface = self.state.xdg_shell_state.first_surface();
                match surface {
                    Some(surface_id) => {
                        let serial = self.serials.next_serial();
                        match &mut self.seat.keyboard {
                            Some(keyboard) => {
                                keyboard.set_focus(Some(surface_id), serial);
                            },
                            None => {},
                        }
                        self.touch.events.push(TouchEvent::Down {
                            slot,
                            target: Some(surface_id),
                            x_ppm,
                            y_ppm,
                            serial,
                            time: time_ms,
                        });
                    },
                    None => {},
                }
            },
            InputEvent::TouchUp { slot } => {
                if self.state.xdg_shell_state.toplevels.len() > 0 {
                    let serial = self.serials.next_serial();
                    self.touch.events.push(TouchEvent::Up { slot, serial, time: time_ms });
                }
            },
            InputEvent::TouchMotion { slot, x_ppm, y_ppm } => {
                if self.state.xdg_shell_state.toplevels.len() > 0 {
                    self.touch.events.push(TouchEvent::Motion {
                        slot,
                        x_ppm,
                        y_ppm,
                        time: time_ms,
                    });
                }
            },
            InputEvent::PointerMotionAbsolute { x_ppm, y_ppm, time_msec } => {
                let serial = self.serials.next_serial();
                let max_x = total_width(&self.state.outputs);
                let max_y = max_output_height(&self.state.outputs);
                let x = transform_normalized(clip_ppm(x_ppm), max_x);
                let y = transform_normalized(clip_ppm(y_ppm), max_y);
                let (cx, cy) = clamp_coords(&self.state.outputs, x, y);
                self.pointer.x = cx;
                self.pointer.y = cy;
                let target = self.state.xdg_shell_state.first_surface();
                match target {
                    Some(surface_id) => {
                        self.pointer.events.push(PointerEvent::Motion {
                            target: Some(surface_id),
                            x: cx,
                            y: cy,
                            serial,
                            time: time_msec,
                        });
                    },
                    None => {},
                }
                self.pointer.events.push(PointerEvent::Frame);
                proof {
                    assert(self.pointer.events@ =~= old(self).pointer.events@ + (
                    match spec_first_surface(old(self).state) {
                        Some(sid) => seq![PointerEvent::Motion {
                            target: Some(sid),
                            x: self.pointer.x,
                            y: self.pointer.y,
                            serial: Serial { value: old(self).serials.next },
                            time: time_msec,
                        }],
                        None => Seq::empty(),
                    }) + seq![PointerEvent::Frame]);
                }
            },
            InputEvent::PointerButton { button, pressed, time_msec } => {
                let serial = self.serials.next_serial();
                let surface = self.state.xdg_shell_state.first_surface();
                match surface {
                    Some(surface_id) => {
                        match &mut self.seat.keyboard {
                            Some(keyboard) => {
                                keyboard.set_focus(Some(surface_id), serial);
                            },
                            None => {},
                        }
                    },
                    None => {},
                }
                self.pointer.events.push(PointerEvent::Button {
                    button,
                    pressed,
                    serial,
                    time: time_msec,
                });
                self.pointer.events.push(PointerEvent::Frame);
                proof {
                    assert(self.pointer.events@ =~= old(self).pointer.events@
                        + seq![PointerEvent::Button {
                        button,
                        pressed,
                        serial: Serial { value: old(self).serials.next },
                        time: time_msec,
                    }, PointerEvent::Frame]);
                }
            },
            InputEvent::PointerAxis { horizontal_milli, vertical_milli, time_msec } => {
                self.pointer.events.push(PointerEvent::Axis {
                    horizontal_milli,
                    vertical_milli,
                    time: time_msec,
                });
                self.pointer.events.push(PointerEvent::Frame);
                proof {
                    assert(self.pointer.events@ =~= old(self).pointer.events@
                        + seq![PointerEvent::Axis {
                        horizontal_milli,
                        vertical_milli,
                        time: time_msec,
                    }, PointerEvent::Frame]);
                }
            },
        }
    }
}

/// Serials minted for two key-event batches handled in order compare in
/// that order: every batch's serial is the counter before its call, the
/// batch advances the counter past it, and the counter never moves
/// backward between the calls.
pub proof fn lemma_handled_serials_ordered(
    pre1: Compositor,
    post1: Compositor,
    pre2: Compositor,
    post2: Compositor,
    event1: InputEvent,
    event2: InputEvent,
    time1: u32,
    time2: u32,
)
    requires
        event1 is Keyboard,
        event2 is Keyboard,
        spec_input_effects(pre1, post1, event1, time1),
        spec_input_effects(pre2, post2, event2, time2),
        post1.serials.next <= pre2.serials.next,
    ensures
        (Serial { value: pre1.serials.next }).spec_lt(Serial { value: pre2.serials.next }),
{
}

/// The height of the tallest output, or zero with no output.
pub open spec fn spec_max_output_height(outs: Seq<Output>) -> int
    decreases outs.len(),
{
    if outs.len() == 0 {
        0
    } else {
        let rest = spec_max_output_height(outs.drop_last());
        let h = crate::event::spec_output_height(outs.last());
        if h > rest {
            h
        } else {
            rest
        }
    }
}

/// The height of the tallest output.
pub fn max_output_height(outputs: &Vec<Output>) -> (r: i64)
    requires
        spec_outputs_wf(outputs@),
    ensures
        r == spec_max_output_height(outputs@),
        0 <= r < 65536,
{
    let mut acc: i64 = 0;
    let mut i: usize = 0;
    proof {
        assert(outputs@.take(0).len() == 0);
    }
    while i < outputs.len()
        invariant
            spec_outputs_wf(outputs@),
            i <= outputs@.len(),
            acc == spec_max_output_height(outputs@.take(i as int)),
            0 <= acc < 65536,
        decreases outputs@.len() - i,
    {
        proof {
            assert(outputs@.take(i + 1).drop_last() =~= outputs@.take(i as int));
            assert(outputs@.take(i + 1).last() == outputs@[i as int]);
        }
        let h = outputs[i].mode_height() as i64;
        if h > acc {
            acc = h;
        }
        i = i + 1;
    }
    proof {
        assert(outputs@.take(outputs@.len() as int) =~= outputs@);
    }
    acc
}

/// A normalized coordinate clipped into the range the transform accepts.
pub open spec fn spec_clip_ppm(ppm: u64) -> u64 {
    if ppm <= 0x10000000u64 {
        ppm
    } else {
        0x10000000u64
    }
}

/// A normalized coordinate clipped into the range the transform accepts.
fn clip_ppm(ppm: u64) -> (r: u64)
    ensures
        r == spec_clip_ppm(ppm),
{
    if ppm <= 0x10000000 {
        ppm
    } else {
        0x10000000
    }
}

} // verus!
