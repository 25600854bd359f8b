use std::collections::BTreeSet;
use vstd::prelude::*;
use crate::keys::{match_key, parse_modifier, Binding, BuiltinAction, modifier_spec, first_builtin, matching_commands};
use crate::pointer::{drag_target, drag_position, scale_down, scale_up, scale_down_spec, scale_up_spec, DragState, Geometry, Scaled};
use crate::tiling::{tile, rect_is, tile_spec, TileRect};
use crate::windows::{Window, WindowSets};

verus! {

/// Pointer buttons of the move and scale bindings.
pub const MOVE_BUTTON: u32 = 1;
pub const SCROLL_UP_BUTTON: u32 = 4;
pub const SCROLL_DOWN_BUTTON: u32 = 5;

/// The window type a client announces; the absence of one is `None`.
#[derive(Clone, Copy, Debug, PartialEq, Eq, Structural)]
pub enum WindowType {
    Notification,
    Dock,
    Dialog,
    Splash,
    Other,
}

/// Notifications, docks, dialogs and splash screens are left where they are;
/// a window without a type is tiled.
pub open spec fn type_is_tiled(t: Option<WindowType>) -> bool {
    match t {
        Some(WindowType::Notification) | Some(WindowType::Dock) | Some(WindowType::Dialog) | Some(
            WindowType::Splash,
        ) => false,
        _ => true,
    }
}

pub fn type_tileable(t: Option<WindowType>) -> (r: bool)
    ensures
        r == type_is_tiled(t),
{
    match t {
        Some(WindowType::Notification) | Some(WindowType::Dock) | Some(WindowType::Dialog) | Some(
            WindowType::Splash,
        ) => false,
        _ => true,
    }
}

/// A window and the rectangle the tiler gives it.
#[derive(Clone, Copy, Debug, PartialEq, Eq, Structural)]
pub struct Placement {
    pub window: Window,
    pub rect: TileRect,
}

/// The windows to hide and to show when the visible desktop changes.
pub struct DesktopSwitch {
    pub unmap: Vec<Window>,
    pub map: Vec<Window>,
}

/// What a button press is, given the move and resize modifiers.
#[derive(Clone, Copy, Debug, PartialEq, Eq, Structural)]
pub enum ButtonKind {
    Drag,
    ScaleUp,
    ScaleDown,
    Click,
}

pub open spec fn held(state: u32, mask: Option<u32>) -> bool {
    match mask {
        Some(m) => state & m == m,
        None => false,
    }
}

pub open spec fn button_spec(state: u32, button: u32, move_mask: Option<u32>, resize_mask: Option<u32>) -> ButtonKind {
    if held(state, move_mask) && button == MOVE_BUTTON {
        ButtonKind::Drag
    } else if held(state, resize_mask) && button == SCROLL_UP_BUTTON {
        ButtonKind::ScaleUp
    } else if held(state, resize_mask) && button == SCROLL_DOWN_BUTTON {
        ButtonKind::ScaleDown
    } else {
        ButtonKind::Click
    }
}

/// One step of the climb from a clicked subwindow to the toplevel the manager tracks:
/// the parent is next, unless it is none (0) or the root, where the climb stops.
pub fn climb_step(parent: Window, root: Window) -> (r: Option<Window>)
    ensures
        r == (if parent == 0 || parent == root { None } else { Some(parent) }),
{
    if parent == 0 || parent == root {
        None
    } else {
        Some(parent)
    }
}

/// What the display side has to do after a key press.
pub struct KeyResponse {
    /// A window to close politely and unmap.
    pub close: Option<Window>,
    /// Windows to unmap and map for a desktop change.
    pub switch: Option<DesktopSwitch>,
    /// Whether the current desktop must be laid out again.
    pub relayout: bool,
    /// Command lines to launch.
    pub commands: Vec<String>,
}

/// A protocol event that the manager decides on without asking the server anything.
#[derive(Clone, Copy, Debug, PartialEq, Eq, Structural)]
pub enum Event {
    /// A client asks for its window to be shown.
    MapRequest(Window),
    /// A window was unmapped.
    Unmapped(Window),
    /// A window was mapped.
    Mapped(Window),
    /// The pointer moved to this root position (the latest of a burst).
    Motion(i32, i32),
    /// A pointer button was released.
    Release,
}

/// What the display side carries out for an event.
#[derive(Clone, Copy, Debug)]
pub struct Reaction {
    /// A window to map.
    pub map: Option<Window>,
    /// A window to focus and raise.
    pub focus: Option<Window>,
    /// Whether the current desktop is laid out again.
    pub layout: bool,
    /// A window to move to this position.
    pub move_to: Option<(Window, i64, i64)>,
    /// Whether the pointer grab ends and queued pointer events flow again.
    pub release_pointer: bool,
}

/// The reaction with nothing to do.
pub open spec fn quiet() -> Reaction {
    Reaction { map: None, focus: None, layout: false, move_to: None, release_pointer: false }
}

/// The window-management state: desktops and floating windows, the desktop on
/// screen, the drag in progress, and the settings the handlers consult.
pub struct WindowManager {
    pub sets: WindowSets,
    pub current_desktop: usize,
    pub drag_state: Option<DragState>,
    pub screen_width: i32,
    pub screen_height: i32,
    pub bar_enabled: bool,
    pub bar_height: u32,
    pub scale_step: u32,
    pub move_mask: Option<u32>,
    pub resize_mask: Option<u32>,
    pub bindings: Vec<Binding>,
}

/// The settings a manager starts from.
pub struct ManagerSettings {
    pub screen_width: i32,
    pub screen_height: i32,
    pub bar_enabled: bool,
    pub bar_height: u32,
    pub scale_step: u32,
    pub move_mod: String,
    pub resize_mod: String,
    pub bindings: Vec<Binding>,
}

/// The windows of `ws` that the tiler places: not floating and of a tiled type.
pub open spec fn tileable_seq(ws: Seq<Window>, kinds: Seq<Option<WindowType>>, floating: Set<Window>) -> Seq<Window>
    decreases ws.len(),
{
    if ws.len() == 0 || kinds.len() == 0 {
        Seq::empty()
    } else {
        let rest = tileable_seq(ws.drop_last(), kinds.drop_last(), floating);
        if !floating.contains(ws.last()) && type_is_tiled(kinds.last()) {
            rest.push(ws.last())
        } else {
            rest
        }
    }
}

impl WindowManager {
    pub open spec fn wf(&self) -> bool {
        &&& self.sets.wf()
        &&& self.current_desktop < usize::MAX
        &&& self.screen_width >= 0
        &&& self.screen_height >= 0
        &&& self.bar_height <= i32::MAX
    }

    /// The strip at the top of the screen that tiling leaves to the bar.
    pub open spec fn reserved_top_spec(&self) -> u32 {
        if self.bar_enabled {
            self.bar_height
        } else {
            0
        }
    }

    pub fn new(settings: ManagerSettings) -> (r: WindowManager)
        requires
            settings.screen_width >= 0,
            settings.screen_height >= 0,
            settings.bar_height <= i32::MAX,
        ensures
            r.wf(),
            forall|i: int| #[trigger] r.sets.desktop(i) == Set::<Window>::empty(),
            r.sets.floating() == Set::<Window>::empty(),
            r.current_desktop == 0,
            r.drag_state is None,
            r.screen_width == settings.screen_width,
            r.screen_height == settings.screen_height,
            r.bar_enabled == settings.bar_enabled,
            r.bar_height == settings.bar_height,
            r.scale_step == settings.scale_step,
            r.move_mask == modifier_spec(settings.move_mod@),
            r.resize_mask == modifier_spec(settings.resize_mod@),
            r.bindings@ == settings.bindings@,
    {
        let move_mask = parse_modifier(settings.move_mod.as_str());
        let resize_mask = parse_modifier(settings.resize_mod.as_str());
        WindowManager {
            sets: WindowSets::new(),
            current_desktop: 0,
            drag_state: None,
            screen_width: settings.screen_width,
            screen_height: settings.screen_height,
            bar_enabled: settings.bar_enabled,
            bar_height: settings.bar_height,
            scale_step: settings.scale_step,
            move_mask,
            resize_mask,
            bindings: settings.bindings,
        }
    }

    pub fn reserved_top(&self) -> (r: u32)
        ensures
            r == self.reserved_top_spec(),
    {
        if self.bar_enabled {
            self.bar_height
        } else {
            0
        }
    }

    /// A map request: the window joins the current desktop.
    pub fn create_window(&mut self, w: Window)
        requires
            old(self).wf(),
        ensures
            final(self).wf(),
            final(self).sets.desktop(old(self).current_desktop as int) == old(self).sets.desktop(
                old(self).current_desktop as int,
            ).insert(w),
            forall|i: int| i != old(self).current_desktop ==> #[trigger] final(self).sets.desktop(i)
                == old(self).sets.desktop(i).remove(w),
            final(self).sets.floating() == old(self).sets.floating(),
            final(self).current_desktop == old(self).current_desktop,
            final(self).drag_state == old(self).drag_state,
    {
        let d = self.current_desktop;
        self.sets.insert(d, w);
    }

    /// An unmap: the window leaves the current desktop and the floating set.
    pub fn remove_window(&mut self, w: Window)
        requires
            old(self).wf(),
        ensures
            final(self).wf(),
            final(self).sets.desktop(old(self).current_desktop as int) == old(self).sets.desktop(
                old(self).current_desktop as int,
            ).remove(w),
            forall|i: int| i != old(self).current_desktop ==> #[trigger] final(self).sets.desktop(i)
                == old(self).sets.desktop(i),
            final(self).sets.floating() == old(self).sets.floating().remove(w),
            final(self).current_desktop == old(self).current_desktop,
            final(self).drag_state == old(self).drag_state,
    {
        let d = self.current_desktop;
        self.sets.remove(d, w);
    }

    /// Whether a window that was just mapped is on the current desktop, and so gets focus.
    pub fn on_current_desktop(&self, w: Window) -> (r: bool)
        ensures
            r == self.sets.desktop(self.current_desktop as int).contains(w),
    {
        self.sets.contains(self.current_desktop, w)
    }

    /// The windows of the current desktop in ascending handle order.
    pub fn current_windows(&self) -> (r: Vec<Window>)
        ensures
            r@.to_set() == self.sets.desktop(self.current_desktop as int),
            r@.no_duplicates(),
            forall|a: int, b: int| 0 <= a < b < r@.len() ==> r@[a] < r@[b],
    {
        self.sets.windows_of(self.current_desktop)
    }

    /// Whether the tiler places `w`, given the window type it announces.
    pub fn is_tileable(&self, w: Window, kind: Option<WindowType>) -> (r: bool)
        ensures
            r == (!self.sets.floating().contains(w) && type_is_tiled(kind)),
    {
        if self.sets.is_floating(w) {
            return false;
        }
        type_tileable(kind)
    }

    /// Lays out `windows` (the current desktop, in order) whose announced types are
    /// `kinds`: the tileable ones get the grid cells in order.
    pub fn layout(&self, windows: &Vec<Window>, kinds: &Vec<Option<WindowType>>) -> (r: Vec<Placement>)
        requires
            self.wf(),
            windows@.len() == kinds@.len(),
        ensures
            r@.len() == tileable_seq(windows@, kinds@, self.sets.floating()).len(),
            forall|k: int|
                0 <= k < r@.len() ==> #[trigger] r@[k].window == tileable_seq(
                    windows@,
                    kinds@,
                    self.sets.floating(),
                )[k] && rect_is(
                    r@[k].rect,
                    tile_spec(
                        k,
                        r@.len() as int,
                        self.screen_width as int,
                        self.screen_height as int,
                        self.reserved_top_spec() as int,
                    ),
                ),
    {
        let ghost fl = self.sets.floating();
        let mut chosen: Vec<Window> = Vec::new();
        let mut i: usize = 0;
        while i < windows.len()
            invariant
                i <= windows@.len(),
                windows@.len() == kinds@.len(),
                fl == self.sets.floating(),
                chosen@ == tileable_seq(windows@.take(i as int), kinds@.take(i as int), fl),
            decreases windows.len() - i,
        {
            proof {
                assert(windows@.take(i + 1).drop_last() =~= windows@.take(i as int));
                assert(kinds@.take(i + 1).drop_last() =~= kinds@.take(i as int));
            }
            if self.is_tileable(windows[i], kinds[i]) {
                chosen.push(windows[i]);
            }
            i = i + 1;
        }
        proof {
            assert(windows@.take(i as int) =~= windows@);
            assert(kinds@.take(i as int) =~= kinds@);
        }
        let top = self.reserved_top();
        let rects = tile(chosen.len(), self.screen_width, self.screen_height, top);
        let mut r: Vec<Placement> = Vec::new();
        let mut k: usize = 0;
        while k < chosen.len()
            invariant
                k <= chosen@.len(),
                rects@.len() == chosen@.len(),
                r@.len() == k,
                forall|j: int|
                    0 <= j < rects@.len() ==> #[trigger] rect_is(
                        rects@[j],
                        tile_spec(
                            j,
                            chosen@.len() as int,
                            self.screen_width as int,
                            self.screen_height as int,
                            top as int,
                        ),
                    ),
                forall|j: int| 0 <= j < k ==> (#[trigger] r@[j]).window == chosen@[j],
                forall|j: int| 0 <= j < k ==> (#[trigger] r@[j]).rect == rects@[j],
            decreases chosen.len() - k,
        {
            r.push(Placement { window: chosen[k], rect: rects[k] });
            k = k + 1;
        }
        assert forall|j: int| 0 <= j < r@.len() implies #[trigger] r@[j].window == chosen@[j] && rect_is(
            r@[j].rect,
            tile_spec(
                j,
                r@.len() as int,
                self.screen_width as int,
                self.screen_height as int,
                self.reserved_top_spec() as int,
            ),
        ) by {
            assert(r@[j].window == chosen@[j] && r@[j].rect == rects@[j]);
            assert(rect_is(rects@[j], tile_spec(j, chosen@.len() as int, self.screen_width as int, self.screen_height as int, top as int)));
        }
        r
    }

    /// Shows desktop `index` in place of the current one. Switching to the desktop
    /// already shown does nothing and returns `None`.
    pub fn change_desktop(&mut self, index: usize) -> (r: Option<DesktopSwitch>)
        requires
            old(self).wf(),
            index < usize::MAX,
        ensures
            final(self).wf(),
            index == old(self).current_desktop ==> r is None && *final(self) == *old(self),
            index != old(self).current_desktop ==> {
                &&& r matches Some(s)
                &&& s.unmap@.to_set() == old(self).sets.desktop(old(self).current_desktop as int)
                &&& s.map@.to_set() == old(self).sets.desktop(index as int)
                &&& s.unmap@.no_duplicates() && s.map@.no_duplicates()
                &&& final(self).current_desktop == index
                &&& final(self).sets == old(self).sets
                &&& final(self).drag_state == old(self).drag_state
            },
    {
        if index == self.current_desktop {
            return None;
        }
        let unmap = self.sets.windows_of(self.current_desktop);
        let map = self.sets.windows_of(index);
        self.current_desktop = index;
        Some(DesktopSwitch { unmap, map })
    }

    /// Reacts to a key press with `state` and `keycode`; `subwindow` is the window
    /// under the pointer and `root` the root window. The first matching built-in action
    /// runs: close asks the window under the pointer to close (never the root or no
    /// window); the desktop moves go one desktop right or left (not below 0, nor past
    /// the largest index the model can grow to); unfloat
    /// returns every window to the tiler. Matching command lines are handed back.
    pub fn handle_key(&mut self, state: u32, keycode: i32, subwindow: Window, root: Window) -> (r:
        KeyResponse)
        requires
            old(self).wf(),
        ensures
            final(self).wf(),
            final(self).drag_state == old(self).drag_state,
            r.commands@.map_values(|c: String| c@) == matching_commands(old(self).bindings@, state, keycode),
            match first_builtin(old(self).bindings@, state, keycode) {
                Some(BuiltinAction::Close) => {
                    &&& r.close == (if subwindow != root && subwindow != 0 { Some(subwindow) } else { None::<Window> })
                    &&& r.switch is None && !r.relayout
                    &&& *final(self) == *old(self)
                },
                Some(BuiltinAction::DesktopRight) => {
                    &&& r.close is None && !r.relayout
                    &&& final(self).sets == old(self).sets
                    &&& final(self).current_desktop == if old(self).current_desktop + 1 < usize::MAX {
                        old(self).current_desktop + 1
                    } else {
                        old(self).current_desktop as int
                    }
                    &&& (r.switch is Some <==> final(self).current_desktop != old(self).current_desktop)
                    &&& (r.switch matches Some(sw) ==> sw.unmap@.to_set() == old(self).sets.desktop(
                        old(self).current_desktop as int,
                    ) && sw.map@.to_set() == old(self).sets.desktop(final(self).current_desktop as int))
                },
                Some(BuiltinAction::DesktopLeft) => {
                    &&& r.close is None && !r.relayout
                    &&& final(self).sets == old(self).sets
                    &&& final(self).current_desktop == if old(self).current_desktop > 0 {
                        old(self).current_desktop - 1
                    } else {
                        0
                    }
                    &&& (r.switch is Some <==> final(self).current_desktop != old(self).current_desktop)
                    &&& (r.switch matches Some(sw) ==> sw.unmap@.to_set() == old(self).sets.desktop(
                        old(self).current_desktop as int,
                    ) && sw.map@.to_set() == old(self).sets.desktop(final(self).current_desktop as int))
                },
                Some(BuiltinAction::Unfloat) => {
                    &&& r.close is None && r.switch is None && r.relayout
                    &&& final(self).sets.floating() == Set::<Window>::empty()
                    &&& forall|i: int| #[trigger] final(self).sets.desktop(i) == old(self).sets.desktop(i)
                    &&& final(self).current_desktop == old(self).current_desktop
                },
                None => {
                    &&& r.close is None && r.switch is None && !r.relayout
                    &&& *final(self) == *old(self)
                },
            },
    {
        let m = match_key(&self.bindings, state, keycode);
        let mut close: Option<Window> = None;
        let mut switch: Option<DesktopSwitch> = None;
        let mut relayout = false;
        match m.builtin {
            Some(BuiltinAction::Close) => {
                if subwindow != root && subwindow != 0 {
                    close = Some(subwindow);
                }
            },
            Some(BuiltinAction::DesktopRight) => {
                let next = if self.current_desktop + 1 < usize::MAX {
                    self.current_desktop + 1
                } else {
                    self.current_desktop
                };
                switch = self.change_desktop(next);
            },
            Some(BuiltinAction::DesktopLeft) => {
                let next = if self.current_desktop > 0 {
                    self.current_desktop - 1
                } else {
                    0
                };
                switch = self.change_desktop(next);
            },
            Some(BuiltinAction::Unfloat) => {
                self.sets.clear_floating();
                relayout = true;
            },
            None => {},
        }
        KeyResponse { close, switch, relayout, commands: m.commands }
    }

    /// Classifies a button press: the move binding starts a drag, the resize binding
    /// with the wheel scales, anything else is a plain click.
    pub fn classify_button(&self, state: u32, button: u32) -> (r: ButtonKind)
        ensures
            r == button_spec(state, button, self.move_mask, self.resize_mask),
    {
        let is_drag = match self.move_mask {
            Some(m) => state & m == m && button == MOVE_BUTTON,
            None => false,
        };
        let resize_held = match self.resize_mask {
            Some(m) => state & m == m,
            None => false,
        };
        if is_drag {
            ButtonKind::Drag
        } else if resize_held && button == SCROLL_UP_BUTTON {
            ButtonKind::ScaleUp
        } else if resize_held && button == SCROLL_DOWN_BUTTON {
            ButtonKind::ScaleDown
        } else {
            ButtonKind::Click
        }
    }

    /// Starts moving `window` (the toplevel under the pointer), whose origin is at
    /// (`win_x`, `win_y`), with the pointer at (`x_root`, `y_root`): the window floats.
    pub fn begin_drag(&mut self, window: Window, win_x: i32, win_y: i32, x_root: i32, y_root: i32)
        requires
            old(self).wf(),
        ensures
            final(self).wf(),
            final(self).drag_state == Some(
                DragState {
                    window,
                    start_win_x: win_x,
                    start_win_y: win_y,
                    start_mouse_x: x_root,
                    start_mouse_y: y_root,
                },
            ),
            final(self).sets.floating() == old(self).sets.floating().insert(window),
            forall|i: int| #[trigger] final(self).sets.desktop(i) == old(self).sets.desktop(i),
            final(self).current_desktop == old(self).current_desktop,
    {
        self.sets.mark_floating(window);
        self.drag_state = Some(
            DragState {
                window,
                start_win_x: win_x,
                start_win_y: win_y,
                start_mouse_x: x_root,
                start_mouse_y: y_root,
            },
        );
    }

    /// Pointer motion: where the dragged window goes, or `None` when no drag is in progress.
    pub fn drag_motion(&self, x_root: i32, y_root: i32) -> (r: Option<(Window, i64, i64)>)
        ensures
            match self.drag_state {
                None => r is None,
                Some(s) => r matches Some(t) && t.0 == s.window && (t.1 as int, t.2 as int)
                    == drag_position(s, x_root as int, y_root as int),
            },
    {
        match &self.drag_state {
            None => None,
            Some(s) => {
                let (x, y) = drag_target(s, x_root, y_root);
                Some((s.window, x, y))
            },
        }
    }

    /// Button release: the drag, if any, ends.
    pub fn end_drag(&mut self)
        requires
            old(self).wf(),
        ensures
            final(self).wf(),
            final(self).drag_state is None,
            final(self).sets == old(self).sets,
            final(self).current_desktop == old(self).current_desktop,
    {
        self.drag_state = None;
    }

    /// Scales `window` (the toplevel under the pointer) with geometry `g` by the
    /// configured step, growing or shrinking about its center; the window floats.
    pub fn scale_window(&mut self, window: Window, g: Geometry, grow: bool) -> (r: Scaled)
        requires
            old(self).wf(),
        ensures
            final(self).wf(),
            r == if grow {
                scale_up_spec(g, old(self).scale_step as int, old(self).screen_width as int, old(self).screen_height as int)
            } else {
                scale_down_spec(g, old(self).scale_step as int)
            },
            final(self).sets.floating() == old(self).sets.floating().insert(window),
            forall|i: int| #[trigger] final(self).sets.desktop(i) == old(self).sets.desktop(i),
            final(self).current_desktop == old(self).current_desktop,
            final(self).drag_state == old(self).drag_state,
    {
        self.sets.mark_floating(window);
        if grow {
            scale_up(g, self.scale_step, self.screen_width, self.screen_height)
        } else {
            scale_down(g, self.scale_step)
        }
    }
}

impl WindowManager {
    /// Routes an event: a map request maps the window and adds it to the current
    /// desktop; an unmap removes it (and its floating mark) and lays out again; a map
    /// focuses the window when it is on the current desktop and lays out again; motion
    /// moves the dragged window, if any; a release ends the drag and the pointer grab.
    pub fn on_event(&mut self, ev: Event) -> (r: Reaction)
        requires
            old(self).wf(),
        ensures
            final(self).wf(),
            match ev {
                Event::MapRequest(w) => {
                    &&& r == Reaction { map: Some(w), ..quiet() }
                    &&& final(self).sets.desktop(old(self).current_desktop as int) == old(self).sets.desktop(
                        old(self).current_desktop as int,
                    ).insert(w)
                    &&& forall|i: int| i != old(self).current_desktop ==> #[trigger] final(self).sets.desktop(i)
                        == old(self).sets.desktop(i).remove(w)
                    &&& final(self).sets.floating() == old(self).sets.floating()
                    &&& final(self).current_desktop == old(self).current_desktop
                    &&& final(self).drag_state == old(self).drag_state
                },
                Event::Unmapped(w) => {
                    &&& r == Reaction { layout: true, ..quiet() }
                    &&& final(self).sets.desktop(old(self).current_desktop as int) == old(self).sets.desktop(
                        old(self).current_desktop as int,
                    ).remove(w)
                    &&& forall|i: int| i != old(self).current_desktop ==> #[trigger] final(self).sets.desktop(i)
                        == old(self).sets.desktop(i)
                    &&& final(self).sets.floating() == old(self).sets.floating().remove(w)
                    &&& final(self).current_desktop == old(self).current_desktop
                    &&& final(self).drag_state == old(self).drag_state
                },
                Event::Mapped(w) => {
                    &&& r == Reaction {
                        focus: if old(self).sets.desktop(old(self).current_desktop as int).contains(w) {
                            Some(w)
                        } else {
                            None
                        },
                        layout: true,
                        ..quiet()
                    }
                    &&& *final(self) == *old(self)
                },
                Event::Motion(x, y) => {
                    &&& r == Reaction {
                        move_to: match old(self).drag_state {
                            Some(s) => Some((s.window, drag_position(s, x as int, y as int).0 as i64, drag_position(s, x as int, y as int).1 as i64)),
                            None => None,
                        },
                        ..quiet()
                    }
                    &&& *final(self) == *old(self)
                },
                Event::Release => {
                    &&& r == Reaction { release_pointer: true, ..quiet() }
                    &&& final(self).drag_state is None
                    &&& final(self).sets == old(self).sets
                    &&& final(self).current_desktop == old(self).current_desktop
                },
            },
    {
        let none = Reaction { map: None, focus: None, layout: false, move_to: None, release_pointer: false };
        match ev {
            Event::MapRequest(w) => {
                self.create_window(w);
                Reaction { map: Some(w), ..none }
            },
            Event::Unmapped(w) => {
                self.remove_window(w);
                Reaction { layout: true, ..none }
            },
            Event::Mapped(w) => {
                let focus = if self.on_current_desktop(w) {
                    Some(w)
                } else {
                    None
                };
                Reaction { focus, layout: true, ..none }
            },
            Event::Motion(x, y) => {
                Reaction { move_to: self.drag_motion(x, y), ..none }
            },
            Event::Release => {
                self.end_drag();
                Reaction { release_pointer: true, ..none }
            },
        }
    }
}

} // verus!
