//! The passively tracked Wayland session state.
//!
//! Wayland has no synchronous "query cursor now" call: a client binds the
//! compositor's outputs, lays an invisible surface over each of them, and
//! keeps a position up to date from the pointer events the compositor sends.
//! The protocol objects themselves live with the shell; what the tracking
//! logic reads of them — output geometry, names, and the current pointer
//! position — is mirrored here as plain values.

use vstd::prelude::*;

verus! {

/// What the tracking logic reads of one `zxdg_output`: the output's logical
/// geometry and its advertised name and description.
#[derive(Clone, Debug, PartialEq)]
pub struct ZXdgOutputInfo {
    /// The output's logical width, in pixels.
    pub width: i32,
    /// The output's logical height, in pixels.
    pub height: i32,
    /// The x coordinate where the output starts within the global space.
    pub start_x: i32,
    /// The y coordinate where the output starts within the global space.
    pub start_y: i32,
    /// The output's advertised name.
    pub name: String,
    /// The output's advertised description.
    pub description: String,
}

impl ZXdgOutputInfo {
    /// A fresh record, before any geometry event has arrived: zero size at
    /// the origin, with empty name and description.
    pub fn new() -> (r: Self)
        ensures
            r.width == 0,
            r.height == 0,
            r.start_x == 0,
            r.start_y == 0,
            r.name@ == Seq::<char>::empty(),
            r.description@ == Seq::<char>::empty(),
    {
        ZXdgOutputInfo {
            width: 0,
            height: 0,
            start_x: 0,
            start_y: 0,
            name: String::new(),
            description: String::new(),
        }
    }
}

/// What the tracking logic reads of one `wl_output`: its advertised name,
/// description and pixel size.
#[derive(Debug)]
pub struct WlOutputInfo {
    /// The output's advertised description.
    pub description: String,
    /// The output's advertised name.
    pub name: String,
    /// The output's pixel size, as (width, height).
    pub size: (i32, i32),
}

impl WlOutputInfo {
    /// A fresh record, before any output event has arrived: zero size, with
    /// empty name and description.
    pub fn new() -> (r: Self)
        ensures
            r.description@ == Seq::<char>::empty(),
            r.name@ == Seq::<char>::empty(),
            r.size == (0i32, 0i32),
    {
        WlOutputInfo { description: String::new(), name: String::new(), size: (0, 0) }
    }
}

/// The tracked session state: one record per bound output, one logical
/// geometry record per output, and the pointer position most recently
/// derived from the compositor's events.
#[derive(Debug)]
pub struct State {
    /// One record per bound `wl_output`, in binding order.
    pub outputs: Vec<WlOutputInfo>,
    /// One logical geometry record per bound output, in the same order.
    pub zxdg_outputs: Vec<ZXdgOutputInfo>,
    /// The pointer position most recently derived from an enter or motion
    /// event, in the global logical space.
    pub current_pos: (i32, i32),
    /// The index of the output whose overlay surface the pointer last
    /// entered.
    pub current_screen: usize,
}

impl State {
    /// Binds one more output: appends a fresh record for it, keeping
    /// everything else.  The shell calls this when the compositor's registry
    /// advertises a `wl_output` global.
    pub fn add_output(&mut self)
        ensures
            final(self).outputs.len() == old(self).outputs.len() + 1,
            forall|k: int|
                0 <= k < old(self).outputs.len()
                    ==> final(self).outputs@[k] == old(self).outputs@[k],
            final(self).outputs@[old(self).outputs.len() as int].name@ == Seq::<char>::empty(),
            final(self).outputs@[old(self).outputs.len() as int].description@ == Seq::<
                char,
            >::empty(),
            final(self).outputs@[old(self).outputs.len() as int].size == (0i32, 0i32),
            final(self).zxdg_outputs == old(self).zxdg_outputs,
            final(self).current_pos == old(self).current_pos,
            final(self).current_screen == old(self).current_screen,
    {
        self.outputs.push(WlOutputInfo::new());
    }

    /// Starts tracking one more output's logical geometry: appends a fresh
    /// geometry record, keeping everything else.  The shell calls this when
    /// it asks the output manager for an output's `zxdg_output`.
    pub fn add_zxdg_output(&mut self)
        ensures
            final(self).zxdg_outputs.len() == old(self).zxdg_outputs.len() + 1,
            forall|k: int|
                0 <= k < old(self).zxdg_outputs.len()
                    ==> final(self).zxdg_outputs@[k] == old(self).zxdg_outputs@[k],
            final(self).zxdg_outputs@[old(self).zxdg_outputs.len() as int].width == 0,
            final(self).zxdg_outputs@[old(self).zxdg_outputs.len() as int].height == 0,
            final(self).zxdg_outputs@[old(self).zxdg_outputs.len() as int].start_x == 0,
            final(self).zxdg_outputs@[old(self).zxdg_outputs.len() as int].start_y == 0,
            final(self).zxdg_outputs@[old(self).zxdg_outputs.len() as int].name@ == Seq::<
                char,
            >::empty(),
            final(self).zxdg_outputs@[old(self).zxdg_outputs.len() as int].description@ == Seq::<
                char,
            >::empty(),
            final(self).outputs == old(self).outputs,
            final(self).current_pos == old(self).current_pos,
            final(self).current_screen == old(self).current_screen,
    {
        self.zxdg_outputs.push(ZXdgOutputInfo::new());
    }
}

impl Default for State {
    /// The state before any event has arrived: no outputs, the position at
    /// the origin, the first screen current.
    fn default() -> (r: Self)
        ensures
            r.outputs@ == Seq::<WlOutputInfo>::empty(),
            r.zxdg_outputs@ == Seq::<ZXdgOutputInfo>::empty(),
            r.current_pos == (0i32, 0i32),
            r.current_screen == 0,
    {
        State {
            outputs: Vec::new(),
            zxdg_outputs: Vec::new(),
            current_pos: (0, 0),
            current_screen: 0,
        }
    }
}

} // verus!
