//! Containers: components that manage children, and the placement of popup
//! dialogs on the screen.
use vstd::prelude::*;
use crate::geometry::Rect;
use crate::event::{KeyEvent, MouseEvent};

verus! {

/// A frame of the terminal that widgets render into.
#[verifier::external_type_specification]
#[verifier::external_body]
pub struct ExFrame<'a>(ratatui::Frame<'a>);

/// An action that a container emits.
#[derive(Debug, Clone, PartialEq, Eq)]
pub enum ContainerAction {
    /// Close the container.
    Close,
    /// Submit the container's contents.
    Submit,
    /// A named action of the application's own.
    Custom(String),
}

impl ContainerAction {
    /// A custom action with the given name.
    pub fn custom(name: &str) -> (a: Self)
        ensures
            a matches ContainerAction::Custom(n) && n@ == name@,
    {
        ContainerAction::Custom(String::from_str(name))
    }

    /// Whether this is `Close`.
    pub fn is_close(&self) -> (b: bool)
        ensures
            b == (*self is Close),
    {
        matches!(self, ContainerAction::Close)
    }

    /// Whether this is `Submit`.
    pub fn is_submit(&self) -> (b: bool)
        ensures
            b == (*self is Submit),
    {
        matches!(self, ContainerAction::Submit)
    }

    /// The name of a custom action.
    pub fn custom_name(&self) -> (r: Option<&str>)
        ensures
            match self {
                ContainerAction::Custom(n) => r matches Some(s) && s@ == n@,
                _ => r is None,
            },
    {
        match self {
            ContainerAction::Custom(name) => Some(name.as_str()),
            _ => None,
        }
    }
}

/// How a container handled an event.
#[derive(Debug, Clone, PartialEq, Eq)]
pub enum EventResult {
    /// The event was used; nothing else should handle it.
    Consumed,
    /// The event was not handled and goes on to the parent.
    NotHandled,
    /// The event triggered an action.
    Action(ContainerAction),
}

impl EventResult {
    /// Whether the event was used (`Consumed` or an `Action`).
    pub fn is_consumed(&self) -> (b: bool)
        ensures
            b == !(*self is NotHandled),
    {
        !matches!(self, EventResult::NotHandled)
    }

    /// Whether the result is an action.
    pub fn is_action(&self) -> (b: bool)
        ensures
            b == (*self is Action),
    {
        matches!(self, EventResult::Action(_))
    }

    /// The action, when the result is one.
    pub fn action(&self) -> (r: Option<&ContainerAction>)
        ensures
            match self {
                EventResult::Action(a) => r == Some(a),
                _ => r is None,
            },
    {
        match self {
            EventResult::Action(action) => Some(action),
            _ => None,
        }
    }
}

/// A component that manages children.
pub trait Container {
    /// The state the container manages.
    type State;

    /// Renders the container into `area` of the frame.
    fn render(&self, frame: &mut ratatui::Frame, area: Rect, state: &Self::State);

    /// Handles a key event.
    fn handle_key(&self, key: KeyEvent, state: &mut Self::State) -> EventResult;

    /// Handles a mouse event.
    fn handle_mouse(&self, mouse: MouseEvent, state: &mut Self::State) -> EventResult;

    /// The preferred (width, height).
    fn preferred_size(&self) -> (u16, u16);
}

/// `a - b`, or zero when `b > a`.
pub open spec fn sat_sub(a: int, b: int) -> int {
    if a >= b {
        a - b
    } else {
        0
    }
}

/// The smaller of two integers.
pub open spec fn min_int(a: int, b: int) -> int {
    if a <= b {
        a
    } else {
        b
    }
}

/// The larger of two integers.
pub open spec fn max_int(a: int, b: int) -> int {
    if a >= b {
        a
    } else {
        b
    }
}

/// The centered popup of the preferred size, kept 2 cells from each edge.
pub open spec fn centered_popup(width: u16, height: u16, screen: Rect) -> (int, int, int, int) {
    let w = min_int(width as int, sat_sub(screen.width as int, 4));
    let h = min_int(height as int, sat_sub(screen.height as int, 4));
    (sat_sub(screen.width as int, w) / 2, sat_sub(screen.height as int, h) / 2, w, h)
}

/// The rectangle that `Rect::new` builds from these values.
pub open spec fn rect_from(v: (int, int, int, int)) -> Rect {
    Rect {
        x: v.0 as u16,
        y: v.1 as u16,
        width: min_int(v.2, u16::MAX - v.0) as u16,
        height: min_int(v.3, u16::MAX - v.1) as u16,
    }
}

/// The popup of size (`width`, `height`) centered on `screen`, shrunk to
/// keep a margin of 2 cells from the screen's edges.
pub fn popup_area_for(width: u16, height: u16, screen: Rect) -> (r: Rect)
    ensures
        r == rect_from(centered_popup(width, height, screen)),
{
    let width = if width < screen.width.saturating_sub(4) {
        width
    } else {
        screen.width.saturating_sub(4)
    };
    let height = if height < screen.height.saturating_sub(4) {
        height
    } else {
        screen.height.saturating_sub(4)
    };
    let x = (screen.width.saturating_sub(width)) / 2;
    let y = (screen.height.saturating_sub(height)) / 2;
    Rect::new(x, y, width, height)
}

/// The inputs on which anchored placement computes without overflow and
/// with a non-empty clamping range.
pub open spec fn anchored_ok(
    width: u16,
    height: u16,
    margin: u16,
    screen: Rect,
    anchor_x: Option<u16>,
    anchor_y: Option<u16>,
) -> bool {
    let w = min_int(width as int, sat_sub(screen.width as int, 2 * margin));
    let h = min_int(height as int, sat_sub(screen.height as int, 2 * margin));
    &&& 2 * margin <= u16::MAX
    &&& (anchor_x is Some ==> margin <= sat_sub(screen.width as int, w + margin))
    &&& (anchor_y matches Some(ay) ==> ay + 1 + h <= u16::MAX)
}

/// The anchored popup placement (x, y, width, height).
pub open spec fn anchored_popup(
    width: u16,
    height: u16,
    margin: u16,
    screen: Rect,
    anchor_x: Option<u16>,
    anchor_y: Option<u16>,
) -> (int, int, int, int) {
    let w = min_int(width as int, sat_sub(screen.width as int, 2 * margin));
    let h = min_int(height as int, sat_sub(screen.height as int, 2 * margin));
    let x = match anchor_x {
        Some(ax) => {
            let ideal = sat_sub(ax as int, w / 2);
            let hi = sat_sub(screen.width as int, w + margin);
            if ideal < margin {
                margin as int
            } else if ideal > hi {
                hi
            } else {
                ideal
            }
        },
        None => sat_sub(screen.width as int, w) / 2,
    };
    let y = match anchor_y {
        Some(ay) => if ay + 1 + h <= sat_sub(screen.height as int, margin as int) {
            ay + 1
        } else {
            max_int(sat_sub(ay as int, h + 1), margin as int)
        },
        None => sat_sub(screen.height as int, h) / 2,
    };
    (x, y, w, h)
}

/// The popup of the preferred size placed near an anchor: horizontally
/// centered on `anchor_x` but kept `margin` cells inside the screen, and
/// below `anchor_y` when it fits, above it otherwise. Without an anchor the
/// popup is centered on that axis.
pub fn popup_area_anchored_for(
    width: u16,
    height: u16,
    margin: u16,
    screen: Rect,
    anchor_x: Option<u16>,
    anchor_y: Option<u16>,
) -> (r: Rect)
    requires
        anchored_ok(width, height, margin, screen, anchor_x, anchor_y),
    ensures
        r == rect_from(anchored_popup(width, height, margin, screen, anchor_x, anchor_y)),
{
    let w_lim = screen.width.saturating_sub(margin * 2);
    let width = if width < w_lim {
        width
    } else {
        w_lim
    };
    let h_lim = screen.height.saturating_sub(margin * 2);
    let height = if height < h_lim {
        height
    } else {
        h_lim
    };
    let x = match anchor_x {
        Some(ax) => {
            let ideal = ax.saturating_sub(width / 2);
            let hi = screen.width.saturating_sub(width + margin);
            if ideal < margin {
                margin
            } else if ideal > hi {
                hi
            } else {
                ideal
            }
        },
        None => (screen.width.saturating_sub(width)) / 2,
    };
    let y = match anchor_y {
        Some(ay) => {
            let below = ay + 1;
            if below + height <= screen.height.saturating_sub(margin) {
                below
            } else {
                let above = ay.saturating_sub(height + 1);
                if above > margin {
                    above
                } else {
                    margin
                }
            }
        },
        None => (screen.height.saturating_sub(height)) / 2,
    };
    Rect::new(x, y, width, height)
}

/// Whether `anchored_ok` holds.
pub fn check_anchored(
    width: u16,
    height: u16,
    margin: u16,
    screen: Rect,
    anchor_x: Option<u16>,
    anchor_y: Option<u16>,
) -> (b: bool)
    ensures
        b == anchored_ok(width, height, margin, screen, anchor_x, anchor_y),
{
    if margin > 32767 {
        return false;
    }
    let w_lim = screen.width.saturating_sub(margin * 2);
    let w = if width < w_lim {
        width
    } else {
        w_lim
    };
    let h_lim = screen.height.saturating_sub(margin * 2);
    let h = if height < h_lim {
        height
    } else {
        h_lim
    };
    let x_ok = match anchor_x {
        Some(_) => (w as u32) + (margin as u32) <= 0xFFFF && margin <= screen.width.saturating_sub(
            w + margin,
        ),
        None => true,
    };
    let y_ok = match anchor_y {
        Some(ay) => (ay as u32) + 1 + (h as u32) <= 0xFFFF,
        None => true,
    };
    proof {
        if anchor_x is Some && (w as u32) + (margin as u32) > 0xFFFF {
            assert(w + margin > screen.width);
        }
    }
    x_ok && y_ok
}

/// A container shown as a popup dialog.
pub trait PopupContainer: Container {
    /// The popup centered on the screen at its preferred size, kept 2 cells
    /// from the edges (see `popup_area_for`).
    fn popup_area(&self, screen: Rect) -> (r: Rect)
        ensures
            exists|size: (u16, u16)|
                call_ensures(Self::preferred_size, (self,), size)
                && #[trigger] rect_from(centered_popup(size.0, size.1, screen)) == r,
    {
        let size = self.preferred_size();
        assert(call_ensures(Self::preferred_size, (self,), size));
        let (width, height) = size;
        popup_area_for(width, height, screen)
    }

    /// Whether clicking outside the popup closes it.
    fn close_on_outside_click(&self) -> (b: bool)
        default_ensures
            b,
    {
        true
    }

    /// Whether Escape closes the popup.
    fn close_on_escape(&self) -> (b: bool)
        default_ensures
            b,
    {
        true
    }

    /// The smallest distance kept from the screen's edges.
    fn screen_margin(&self) -> (m: u16)
        default_ensures
            m == 2,
    {
        2
    }

    /// The popup placed near an anchor (see `popup_area_anchored_for`), at
    /// the preferred size and screen margin. The placement must not
    /// overflow and its clamping range must not be empty (`anchored_ok`),
    /// whatever size and margin the component gives: elsewhere the
    /// placement panics.
    fn popup_area_anchored(&self, screen: Rect, anchor_x: Option<u16>, anchor_y: Option<u16>) -> (r:
        Rect)
        requires
            forall|size: (u16, u16), m: u16|
                #![trigger call_ensures(Self::preferred_size, (self,), size), call_ensures(Self::screen_margin, (self,), m)]
                call_ensures(Self::preferred_size, (self,), size) && call_ensures(Self::screen_margin, (self,), m)
                    ==> anchored_ok(size.0, size.1, m, screen, anchor_x, anchor_y),
        ensures
            exists|size: (u16, u16), m: u16|
                #![trigger call_ensures(Self::preferred_size, (self,), size), call_ensures(Self::screen_margin, (self,), m)]
                call_ensures(Self::preferred_size, (self,), size)
                && call_ensures(Self::screen_margin, (self,), m)
                && r == rect_from(anchored_popup(size.0, size.1, m, screen, anchor_x, anchor_y)),
    {
        let size = self.preferred_size();
        assert(call_ensures(Self::preferred_size, (self,), size));
        let margin = self.screen_margin();
        assert(call_ensures(Self::screen_margin, (self,), margin));
        let (width, height) = size;
        popup_area_anchored_for(width, height, margin, screen, anchor_x, anchor_y)
    }
}

} // verus!
