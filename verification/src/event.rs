//! Event centralization: the pure, total mapping from host window-system
//! events to the compositor's input-event representation. Pointer
//! positions arrive normalized in parts per million of the output extent
//! and are transformed and clamped against the arranged outputs before
//! any protocol coordinate is produced, so host scale changes never leak
//! into protocol coordinates.

use vstd::prelude::*;
use crate::keyboard::KeyState;
use crate::shell::{Output, Size};

verus! {

/// One million: the denominator of normalized coordinates.
pub const PPM: u64 = 1000000;

/// An input event in the compositor's canonical shape.
#[derive(Debug, Clone, Copy, PartialEq, Eq, Structural)]
pub enum InputEvent {
    /// A key changed state.
    Keyboard {
        /// The physical key code.
        keycode: u32,
        /// Pressed or released.
        state: KeyState,
    },
    /// The pointer moved to an absolute, normalized position.
    PointerMotionAbsolute {
        /// Horizontal position, in parts per million of the total width.
        x_ppm: u64,
        /// Vertical position, in parts per million of the output height.
        y_ppm: u64,
        /// Event time, milliseconds.
        time_msec: u32,
    },
    /// A pointer button changed state.
    PointerButton {
        /// The button code.
        button: u32,
        /// Whether the button is now down.
        pressed: bool,
        /// Event time, milliseconds.
        time_msec: u32,
    },
    /// The pointer scrolled.
    PointerAxis {
        /// Horizontal amount, in thousandths of a step.
        horizontal_milli: i32,
        /// Vertical amount, in thousandths of a step.
        vertical_milli: i32,
        /// Event time, milliseconds.
        time_msec: u32,
    },
    /// A touch point went down.
    TouchDown {
        /// The touch slot.
        slot: u32,
        /// Horizontal position, in parts per million of the total width.
        x_ppm: u64,
        /// Vertical position, in parts per million of the output height.
        y_ppm: u64,
    },
    /// A touch point lifted.
    TouchUp {
        /// The touch slot.
        slot: u32,
    },
    /// A touch point moved.
    TouchMotion {
        /// The touch slot.
        slot: u32,
        /// Horizontal position, in parts per million of the total width.
        x_ppm: u64,
        /// Vertical position, in parts per million of the output height.
        y_ppm: u64,
    },
}

/// A host window-system event, already shaped into plain values by the
/// host input boundary.
#[derive(Debug, Clone, Copy, PartialEq, Eq, Structural)]
pub enum HostEvent {
    /// The close button was pressed.
    CloseRequested,
    /// The host asks for a redraw.
    RedrawRequested,
    /// The host window was resized.
    Resized {
        /// The new drawable size.
        size: Size,
    },
    /// The host scale factor changed.
    ScaleFactorChanged {
        /// The new scale, in thousandths.
        scale_milli: u32,
    },
    /// The host window gained or lost focus.
    Focused {
        /// Whether the window is now focused.
        focused: bool,
    },
    /// An input event.
    Input {
        /// The event, in canonical shape.
        event: InputEvent,
    },
    /// An event this mapping does not know. The mapping is expected to be
    /// total over the events the host can produce: meeting this variant
    /// indicates a host version mismatch and is a hard failure.
    Unknown {
        /// The host's code for the event.
        code: u32,
    },
}

/// A centralized event, consumed by the compositor's dispatcher.
#[derive(Debug, Clone, Copy, PartialEq, Eq, Structural)]
pub enum CentralizedEvent {
    /// Stop the compositor.
    CloseRequested,
    /// Draw a frame and run the per-frame pipeline.
    Redraw,
    /// An input event for the seat.
    Input {
        /// The event.
        event: InputEvent,
    },
    /// The drawable size changed; consumed on the next configure.
    Resized {
        /// The new drawable size.
        size: Size,
    },
    /// The scale factor changed; consumed on the next configure.
    ScaleFactorChanged {
        /// The new scale, in thousandths.
        scale_milli: u32,
    },
    /// The host window focus changed.
    Focused {
        /// Whether the window is now focused.
        focused: bool,
    },
}

/// The error for a host event outside the mapping: a programmer error,
/// treated as a hard stop rather than a silently dropped input event.
#[derive(Debug, Clone, Copy, PartialEq, Eq, Structural)]
pub struct UnhandledHostEvent {
    /// The host's code for the event.
    pub code: u32,
}

/// Translate one host event into the compositor's representation. The
/// mapping is total over the known events and fails exactly on the
/// unknown ones.
pub fn centralize(event: HostEvent) -> (r: Result<CentralizedEvent, UnhandledHostEvent>)
    ensures
        r == match event {
            HostEvent::CloseRequested => Ok::<CentralizedEvent, UnhandledHostEvent>(
                CentralizedEvent::CloseRequested,
            ),
            HostEvent::RedrawRequested => Ok(CentralizedEvent::Redraw),
            HostEvent::Resized { size } => Ok(CentralizedEvent::Resized { size }),
            HostEvent::ScaleFactorChanged { scale_milli } => Ok(
                CentralizedEvent::ScaleFactorChanged { scale_milli },
            ),
            HostEvent::Focused { focused } => Ok(CentralizedEvent::Focused { focused }),
            HostEvent::Input { event } => Ok(CentralizedEvent::Input { event }),
            HostEvent::Unknown { code } => Err(UnhandledHostEvent { code }),
        },
{
    match event {
        HostEvent::CloseRequested => Ok(CentralizedEvent::CloseRequested),
        HostEvent::RedrawRequested => Ok(CentralizedEvent::Redraw),
        HostEvent::Resized { size } => Ok(CentralizedEvent::Resized { size }),
        HostEvent::ScaleFactorChanged { scale_milli } => Ok(CentralizedEvent::ScaleFactorChanged {
            scale_milli,
        }),
        HostEvent::Focused { focused } => Ok(CentralizedEvent::Focused { focused }),
        HostEvent::Input { event } => Ok(CentralizedEvent::Input { event }),
        HostEvent::Unknown { code } => Err(UnhandledHostEvent { code }),
    }
}

/// The width of an output's current mode, or zero.
pub open spec fn spec_output_width(o: Output) -> int {
    match o.current_mode {
        Some(m) => m.size.w as int,
        None => 0,
    }
}

/// The height of an output's current mode, or zero.
pub open spec fn spec_output_height(o: Output) -> int {
    match o.current_mode {
        Some(m) => m.size.h as int,
        None => 0,
    }
}

/// Outputs an arrangement can clamp against: every mode size fits a
/// sixteen-bit range, so sums stay well inside the arithmetic.
pub open spec fn spec_outputs_wf(outs: Seq<Output>) -> bool {
    &&& outs.len() <= 65536
    &&& forall|i: int|
        0 <= i < outs.len() ==> 0 <= spec_output_width(#[trigger] outs[i]) < 65536
            && 0 <= spec_output_height(outs[i]) < 65536
}

/// The combined width of the outputs, arranged side by side.
pub open spec fn spec_total_width(outs: Seq<Output>) -> int
    decreases outs.len(),
{
    if outs.len() == 0 {
        0
    } else {
        spec_total_width(outs.drop_last()) + spec_output_width(outs.last())
    }
}

proof fn lemma_total_width_bound(outs: Seq<Output>)
    requires
        forall|i: int| 0 <= i < outs.len() ==> 0 <= spec_output_width(#[trigger] outs[i]) < 65536,
    ensures
        0 <= spec_total_width(outs) <= outs.len() * 65536,
    decreases outs.len(),
{
    if outs.len() > 0 {
        lemma_total_width_bound(outs.drop_last());
    }
}

/// The combined width of the outputs.
pub fn total_width(outputs: &Vec<Output>) -> (r: i64)
    requires
        spec_outputs_wf(outputs@),
    ensures
        r == spec_total_width(outputs@),
        0 <= r <= 0x100000000i64,
{
    let mut acc: i64 = 0;
    let mut i: usize = 0;
    proof {
        assert(outputs@.take(0).len() == 0);
    }
    while i < outputs.len()
        invariant
            spec_outputs_wf(outputs@),
            i <= outputs@.len(),
            acc == spec_total_width(outputs@.take(i as int)),
            0 <= acc <= i * 65536,
        decreases outputs@.len() - i,
    {
        proof {
            assert(outputs@.take(i + 1).drop_last() =~= outputs@.take(i as int));
            assert(outputs@.take(i + 1).last() == outputs@[i as int]);
        }
        acc = acc + outputs[i].mode_width() as i64;
        i = i + 1;
    }
    proof {
        assert(outputs@.take(outputs@.len() as int) =~= outputs@);
        lemma_total_width_bound(outputs@);
        assert(outputs@.len() * 65536 <= 65536 * 65536) by (nonlinear_arith)
            requires
                outputs@.len() <= 65536,
        ;
    }
    acc
}

/// The height of the output whose horizontal span contains `cx`, with
/// the outputs arranged side by side from `x_off`; `None` when no output
/// contains it.
pub open spec fn spec_height_at(outs: Seq<Output>, x_off: int, cx: int) -> Option<int>
    decreases outs.len(),
{
    if outs.len() == 0 {
        None
    } else {
        if x_off <= cx < x_off + spec_output_width(outs[0]) {
            Some(spec_output_height(outs[0]))
        } else {
            spec_height_at(outs.drop_first(), x_off + spec_output_width(outs[0]), cx)
        }
    }
}

/// Clamp a pointer position to the arranged outputs: the horizontal
/// coordinate to the combined width, the vertical coordinate to the
/// height of the output under it, if one is there. With no output the
/// position passes through.
pub open spec fn spec_clamp_coords(outs: Seq<Output>, x: int, y: int) -> (int, int) {
    if outs.len() == 0 {
        (x, y)
    } else {
        let max_x = spec_total_width(outs);
        let cx = if x < 0 {
            0
        } else if x > max_x {
            max_x
        } else {
            x
        };
        match spec_height_at(outs, 0, cx) {
            Some(h) => {
                let cy = if y < 0 {
                    0
                } else if y > h {
                    h
                } else {
                    y
                };
                (cx, cy)
            },
            None => (cx, y),
        }
    }
}

/// Clamp a pointer position to the arranged outputs.
pub fn clamp_coords(outputs: &Vec<Output>, x: i64, y: i64) -> (r: (i64, i64))
    requires
        spec_outputs_wf(outputs@),
    ensures
        (r.0 as int, r.1 as int) == spec_clamp_coords(outputs@, x as int, y as int),
{
    if outputs.len() == 0 {
        return (x, y);
    }
    let max_x = total_width(outputs);
    let cx: i64 = if x < 0 {
        0
    } else if x > max_x {
        max_x
    } else {
        x
    };
    let mut x_off: i64 = 0;
    let mut i: usize = 0;
    let mut found_h: Option<i64> = None;
    proof {
        assert(outputs@.skip(0) =~= outputs@);
    }
    let mut done = false;
    while i < outputs.len() && !done
        invariant
            spec_outputs_wf(outputs@),
            i <= outputs@.len(),
            0 <= x_off <= i * 65536,
            match found_h {
                Some(h) => done && spec_height_at(outputs@, 0, cx as int) == Some(h as int),
                None => !done && spec_height_at(outputs@, 0, cx as int) == spec_height_at(
                    outputs@.skip(i as int), x_off as int, cx as int),
            },
        decreases outputs@.len() - i + (if done { 0int } else { 1int }),
    {
        let w = outputs[i].mode_width() as i64;
        if x_off <= cx && cx < x_off + w {
            found_h = Some(outputs[i].mode_height() as i64);
            done = true;
            proof {
                assert(outputs@.skip(i as int)[0] == outputs@[i as int]);
            }
        } else {
            proof {
                assert(outputs@.skip(i as int)[0] == outputs@[i as int]);
                assert(outputs@.skip(i as int).drop_first() =~= outputs@.skip(i + 1));
            }
            x_off = x_off + w;
            i = i + 1;
        }
    }
    proof {
        if found_h is None {
            assert(outputs@.skip(outputs@.len() as int).len() == 0);
        }
    }
    match found_h {
        Some(h) => {
            let cy: i64 = if y < 0 {
                0
            } else if y > h {
                h
            } else {
                y
            };
            (cx, cy)
        },
        None => (cx, y),
    }
}

/// Transform a normalized coordinate against an extent: the number of
/// whole pixels the fraction selects.
pub fn transform_normalized(ppm: u64, extent: i64) -> (r: i64)
    requires
        0 <= extent <= 0x100000000i64,
        ppm <= 0x10000000u64,
    ensures
        r == (ppm * extent) / (PPM as int),
{
    proof {
        assert(ppm * (extent as u64) <= 0x10000000u64 * 0x100000000u64) by (nonlinear_arith)
            requires
                ppm <= 0x10000000u64,
                0 <= extent <= 0x100000000i64,
        ;
    }
    ((ppm * (extent as u64)) / PPM) as i64
}

} // verus!
