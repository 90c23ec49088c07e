use crate::autostart;
use crate::text;
use vstd::prelude::*;

verus! {

/// The main window.
pub const MAIN_WINDOW: &'static str = "main";

/// The small window that shows the state while the main window is minimised.
pub const INDICATOR_WINDOW: &'static str = "indicator";

/// The space between the indicator and the edges of the screen.
pub const INDICATOR_MARGIN: i32 = 12;

/// The part of the screen that windows may use: its corner and size.
#[derive(Debug, Clone, Copy, PartialEq, Eq, Structural)]
pub struct WorkArea {
    pub x: i32,
    pub y: i32,
    pub width: u32,
    pub height: u32,
}

/// Where something of a given length begins, so that it ends the margin's width before the end of
/// the space; never before the space's own beginning.
pub open spec fn edge(start: int, space: int, length: int) -> int {
    let p = start + space - length - INDICATOR_MARGIN;
    if p < start {
        start
    } else {
        p
    }
}

fn edge_at(start: i32, space: u32, length: u32) -> (r: i32)
    requires
        start + space <= i32::MAX,
    ensures
        r == edge(start as int, space as int, length as int),
{
    let p: i64 = start as i64 + space as i64 - length as i64 - INDICATOR_MARGIN as i64;
    if p < start as i64 {
        start
    } else {
        p as i32
    }
}

/// Where the indicator goes: the lower right corner of the work area.
pub fn indicator_position(area: WorkArea, width: u32, height: u32) -> (r: (i32, i32))
    requires
        area.x + area.width <= i32::MAX,
        area.y + area.height <= i32::MAX,
    ensures
        r.0 == edge(area.x as int, area.width as int, width as int),
        r.1 == edge(area.y as int, area.height as int, height as int),
{
    (edge_at(area.x, area.width, width), edge_at(area.y, area.height, height))
}

/// Whether the main window was shown since the application started. A start without the window
/// leaves it unshown until the user asks for it.
#[derive(Debug)]
pub struct MainShown {
    shown: bool,
}

impl View for MainShown {
    type V = bool;

    closed spec fn view(&self) -> bool {
        self.shown
    }
}

impl MainShown {
    pub fn new(starts_hidden: bool) -> (r: MainShown)
        ensures
            r@ == !starts_hidden,
    {
        MainShown { shown: !starts_hidden }
    }

    /// The user asked for the main window.
    pub fn mark(&mut self)
        ensures
            final(self)@,
    {
        self.shown = true;
    }

    pub fn is_shown(&self) -> (r: bool)
        ensures
            r == self@,
    {
        self.shown
    }
}

/// Whether a window that was resized is to give way to the indicator: the main window, minimised
/// after it was shown.
pub fn gives_way(label: &str, minimized: bool, gate: &MainShown) -> (r: bool)
    ensures
        r == (label@ == MAIN_WINDOW@ && minimized && gate@),
{
    text::same_text(label, MAIN_WINDOW) && minimized && gate.is_shown()
}

/// Whether the application starts without its window: one of its arguments says so.
pub fn starts_hidden(args: &Vec<String>) -> (r: bool)
    ensures
        r == exists|i: int| 0 <= i < args@.len() && (#[trigger] args@[i])@ == autostart::ARG_MINIMIZED@,
{
    let mut i: usize = 0;
    while i < args.len()
        invariant
            i <= args@.len(),
            forall|k: int| 0 <= k < i ==> (#[trigger] args@[k])@ != autostart::ARG_MINIMIZED@,
        decreases args@.len() - i,
    {
        if text::same_text(args[i].as_str(), autostart::ARG_MINIMIZED) {
            return true;
        }
        i += 1;
    }
    false
}

/// The indicator never leaves the work area to the left or top, and where the area has room for it
/// and its margin it does not leave it to the right or bottom either.
pub proof fn indicator_stays_inside(start: int, space: int, length: int)
    requires
        0 <= length,
        0 <= space,
    ensures
        edge(start, space, length) >= start,
        length + INDICATOR_MARGIN <= space ==> edge(start, space, length) + length
            + INDICATOR_MARGIN == start + space,
{
}

/// The indicator ends 12 pixels before the end of the work area, and starts with the area where
/// there is no room for that.
pub proof fn indicator_in_numbers(start: int, space: int, length: int)
    ensures
        space >= length + 12 ==> edge(start, space, length) == start + (space - length - 12),
        space < length + 12 ==> edge(start, space, length) == start,
{
}

} // verus!
