//! How the tracked state changes with each event the compositor sends.
//!
//! The shell listens on the live Wayland event stream; for every event the
//! tracking logic cares about, it resolves the protocol object the event
//! names to the index of the matching record and applies the event here.
//! Each transition is stated exactly: which record changes, to what, and
//! that everything else is kept.

use vstd::prelude::*;

use super::state::{State, WlOutputInfo, ZXdgOutputInfo};

verus! {

/// The `zxdg_output` events the tracking logic reads.
#[derive(Clone, Debug, PartialEq)]
pub enum ZxdgOutputEvent {
    /// The output's logical size was advertised.
    LogicalSize { width: i32, height: i32 },
    /// The output's position within the global space was advertised.
    LogicalPosition { x: i32, y: i32 },
    /// The output's name was advertised.
    Name { name: String },
    /// The output's description was advertised.
    Description { description: String },
    /// Any other event of the object; it carries nothing the tracking reads.
    Other,
}

/// The `wl_output` events the tracking logic reads.
#[derive(Clone, Debug, PartialEq)]
pub enum OutputEvent {
    /// The output's name was advertised.
    Name { name: String },
    /// The output's description was advertised.
    Description { description: String },
    /// The output's pixel size was advertised.
    Mode { width: i32, height: i32 },
    /// Any other event of the object; it carries nothing the tracking reads.
    Other,
}

/// The pointer events the tracking logic reads.  Surface coordinates arrive
/// in logical pixels, already rounded to integers; `surface` is the index of
/// the overlay surface the pointer entered, or `None` when the event names a
/// surface that is not one of the overlays.
#[derive(Clone, Copy, Debug, PartialEq, Eq, Structural)]
pub enum PointerEvent {
    /// The pointer entered an overlay surface.
    Enter { surface: Option<usize>, surface_x: i32, surface_y: i32 },
    /// The pointer moved within the current overlay surface.
    Motion { surface_x: i32, surface_y: i32 },
    /// Any other pointer event; it carries nothing the tracking reads.
    Other,
}

/// The geometry record `info` after the event `event`: the fields the event
/// advertises are replaced, the rest are kept.
pub open spec fn zxdg_applied(info: ZXdgOutputInfo, event: ZxdgOutputEvent) -> ZXdgOutputInfo {
    match event {
        ZxdgOutputEvent::LogicalSize { width, height } => ZXdgOutputInfo { width, height, ..info },
        ZxdgOutputEvent::LogicalPosition { x, y } => ZXdgOutputInfo {
            start_x: x,
            start_y: y,
            ..info
        },
        ZxdgOutputEvent::Name { name } => ZXdgOutputInfo { name, ..info },
        ZxdgOutputEvent::Description { description } => ZXdgOutputInfo { description, ..info },
        ZxdgOutputEvent::Other => info,
    }
}

/// The output record `info` after the event `event`: the fields the event
/// advertises are replaced, the rest are kept.
pub open spec fn output_applied(info: WlOutputInfo, event: OutputEvent) -> WlOutputInfo {
    match event {
        OutputEvent::Name { name } => WlOutputInfo { name, ..info },
        OutputEvent::Description { description } => WlOutputInfo { description, ..info },
        OutputEvent::Mode { width, height } => WlOutputInfo { size: (width, height), ..info },
        OutputEvent::Other => info,
    }
}

impl State {
    /// Applies a `zxdg_output` event to the geometry record at `index`.
    /// Exactly that record changes, to [`zxdg_applied`] of its old value.
    pub fn zxdg_output_event(&mut self, index: usize, event: ZxdgOutputEvent)
        requires
            index < old(self).zxdg_outputs.len(),
        ensures
            final(self).zxdg_outputs.len() == old(self).zxdg_outputs.len(),
            final(self).zxdg_outputs@[index as int] == zxdg_applied(
                old(self).zxdg_outputs@[index as int],
                event,
            ),
            forall|k: int|
                0 <= k < old(self).zxdg_outputs.len() && k != index
                    ==> final(self).zxdg_outputs@[k] == old(self).zxdg_outputs@[k],
            final(self).outputs == old(self).outputs,
            final(self).current_pos == old(self).current_pos,
            final(self).current_screen == old(self).current_screen,
    {
        let info = &mut self.zxdg_outputs[index];
        match event {
            ZxdgOutputEvent::LogicalSize { width, height } => {
                info.width = width;
                info.height = height;
            },
            ZxdgOutputEvent::LogicalPosition { x, y } => {
                info.start_x = x;
                info.start_y = y;
            },
            ZxdgOutputEvent::Name { name } => {
                info.name = name;
            },
            ZxdgOutputEvent::Description { description } => {
                info.description = description;
            },
            ZxdgOutputEvent::Other => {},
        }
    }

    /// Applies a `wl_output` event to the output record at `index`.  Exactly
    /// that record changes, to [`output_applied`] of its old value.
    pub fn output_event(&mut self, index: usize, event: OutputEvent)
        requires
            index < old(self).outputs.len(),
        ensures
            final(self).outputs.len() == old(self).outputs.len(),
            final(self).outputs@[index as int] == output_applied(
                old(self).outputs@[index as int],
                event,
            ),
            forall|k: int|
                0 <= k < old(self).outputs.len() && k != index
                    ==> final(self).outputs@[k] == old(self).outputs@[k],
            final(self).zxdg_outputs == old(self).zxdg_outputs,
            final(self).current_pos == old(self).current_pos,
            final(self).current_screen == old(self).current_screen,
    {
        let info = &mut self.outputs[index];
        match event {
            OutputEvent::Name { name } => {
                info.name = name;
            },
            OutputEvent::Description { description } => {
                info.description = description;
            },
            OutputEvent::Mode { width, height } => {
                info.size = (width, height);
            },
            OutputEvent::Other => {},
        }
    }

    /// Applies a pointer event.  An enter over the overlay of output `i`
    /// makes `i` the current screen; an enter or a motion places the pointer
    /// at the event's surface coordinates offset by the current output's
    /// start within the global space.  Every other event changes nothing.
    pub fn event(&mut self, event: PointerEvent)
        requires
            match event {
                PointerEvent::Enter { surface: Some(i), surface_x, surface_y } => {
                    &&& i < old(self).zxdg_outputs.len()
                    &&& i32::MIN <= surface_x + old(self).zxdg_outputs@[i as int].start_x
                        <= i32::MAX
                    &&& i32::MIN <= surface_y + old(self).zxdg_outputs@[i as int].start_y
                        <= i32::MAX
                },
                PointerEvent::Motion { surface_x, surface_y } => {
                    &&& old(self).current_screen < old(self).zxdg_outputs.len()
                    &&& i32::MIN <= surface_x
                        + old(self).zxdg_outputs@[old(self).current_screen as int].start_x
                        <= i32::MAX
                    &&& i32::MIN <= surface_y
                        + old(self).zxdg_outputs@[old(self).current_screen as int].start_y
                        <= i32::MAX
                },
                _ => true,
            },
        ensures
            match event {
                PointerEvent::Enter { surface: Some(i), surface_x, surface_y } => {
                    &&& final(self).current_screen == i
                    &&& final(self).current_pos.0 == surface_x + old(self).zxdg_outputs@[i as int].start_x
                    &&& final(self).current_pos.1 == surface_y + old(self).zxdg_outputs@[i as int].start_y
                    &&& final(self).outputs == old(self).outputs
                    &&& final(self).zxdg_outputs == old(self).zxdg_outputs
                },
                PointerEvent::Motion { surface_x, surface_y } => {
                    &&& final(self).current_screen == old(self).current_screen
                    &&& final(self).current_pos.0 == surface_x
                        + old(self).zxdg_outputs@[old(self).current_screen as int].start_x
                    &&& final(self).current_pos.1 == surface_y
                        + old(self).zxdg_outputs@[old(self).current_screen as int].start_y
                    &&& final(self).outputs == old(self).outputs
                    &&& final(self).zxdg_outputs == old(self).zxdg_outputs
                },
                _ => *final(self) == *old(self),
            },
    {
        match event {
            PointerEvent::Enter { surface, surface_x, surface_y } => {
                match surface {
                    Some(i) => {
                        self.current_screen = i;
                        let start_x = self.zxdg_outputs[i].start_x;
                        let start_y = self.zxdg_outputs[i].start_y;
                        self.current_pos = (surface_x + start_x, surface_y + start_y);
                    },
                    None => {},
                }
            },
            PointerEvent::Motion { surface_x, surface_y } => {
                let start_x = self.zxdg_outputs[self.current_screen].start_x;
                let start_y = self.zxdg_outputs[self.current_screen].start_y;
                self.current_pos = (surface_x + start_x, surface_y + start_y);
            },
            PointerEvent::Other => {},
        }
    }
}

/// The position `pos` lies within the logical rectangle of the output
/// described by `info`.
pub open spec fn within_output(pos: (i32, i32), info: ZXdgOutputInfo) -> bool {
    &&& info.start_x <= pos.0 <= info.start_x + info.width
    &&& info.start_y <= pos.1 <= info.start_y + info.height
}

/// A position derived from a pointer event lies within the bounds of the
/// output the event refers to: whenever the event's surface coordinates lie
/// within the output's logical size, their offset by the output's start lies
/// within the output's logical rectangle.
pub proof fn lemma_tracked_position_within_output(
    pos: (i32, i32),
    info: ZXdgOutputInfo,
    surface_x: i32,
    surface_y: i32,
)
    requires
        0 <= surface_x <= info.width,
        0 <= surface_y <= info.height,
        pos.0 == surface_x + info.start_x,
        pos.1 == surface_y + info.start_y,
    ensures
        within_output(pos, info),
{
}

} // verus!
