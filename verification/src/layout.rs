//! Where things go on the terminal: the popups, the rows of the servo
//! gauges, and the fill of a gauge's bar. All of it in terminal cells.

use vstd::prelude::*;
use crate::log::LogQueue;

verus! {

/// A rectangle of terminal cells.
#[derive(Clone, Copy, Debug, PartialEq, Eq, Structural)]
pub struct Rect {
    pub x: u16,
    pub y: u16,
    pub width: u16,
    pub height: u16,
}

impl Rect {
    /// The rectangle lies within the range of cell positions.
    pub open spec fn fits(&self) -> bool {
        self.x + self.width <= u16::MAX && self.y + self.height <= u16::MAX
    }
}

/// The colour that tells whether something is well.
#[derive(Clone, Copy, Debug, PartialEq, Eq, Structural)]
pub enum StatusColor {
    Green,
    Red,
}

/// Green where all is well, red where not.
pub fn status_color(ok: bool) -> (color: StatusColor)
    ensures
        color == if ok {
            StatusColor::Green
        } else {
            StatusColor::Red
        },
{
    if ok {
        StatusColor::Green
    } else {
        StatusColor::Red
    }
}

/// The mark before a list entry.
pub open spec fn indicator_text(is_selected: bool, is_editing: bool) -> Seq<char> {
    if !is_selected {
        " "@
    } else if is_editing {
        "▶"@
    } else {
        "○"@
    }
}

/// The mark before a list entry: a blank, a ring where the entry is
/// selected, an arrow where it is selected and edited.
pub fn get_indicator(is_selected: bool, is_editing: bool) -> (mark: &'static str)
    ensures
        mark@ == indicator_text(is_selected, is_editing),
{
    if is_selected {
        if is_editing {
            "▶"
        } else {
            "○"
        }
    } else {
        " "
    }
}

/// The smaller of two numbers of cells.
pub open spec fn least(a: int, b: int) -> int {
    if a <= b {
        a
    } else {
        b
    }
}

/// `a` less `b`, but not below zero.
pub open spec fn less(a: int, b: int) -> int {
    if a >= b {
        a - b
    } else {
        0
    }
}

/// The rectangle of a popup of the wished width and height, centred in the
/// area. Its width is the wished one, but leaves two cells of the area free
/// on either side; its height is the wished one.
pub open spec fn centred(area: Rect, width: u16, height: u16) -> Rect {
    let w = least(width as int, less(area.width as int, 4));
    Rect {
        x: (area.x + less(area.width as int, w) / 2) as u16,
        y: (area.y + less(area.height as int, height as int) / 2) as u16,
        width: w as u16,
        height,
    }
}

/// The rectangle of a popup of the wished width and height, centred in the
/// area.
pub fn popup_area(area: Rect, width: u16, height: u16) -> (popup: Rect)
    requires
        area.fits(),
    ensures
        popup == centred(area, width, height),
        popup.x + popup.width <= area.x + area.width,
        popup.width <= width,
{
    let room: u16 = if area.width >= 4 {
        area.width - 4
    } else {
        0
    };
    let w: u16 = if width <= room {
        width
    } else {
        room
    };
    let slack_x: u16 = if area.width >= w {
        area.width - w
    } else {
        0
    };
    let slack_y: u16 = if area.height >= height {
        area.height - height
    } else {
        0
    };
    Rect { x: area.x + slack_x / 2, y: area.y + slack_y / 2, width: w, height }
}

/// The line of text inside a popup: one cell in from the left and right
/// borders, two rows down.
pub fn popup_content_area(popup: Rect) -> (line: Rect)
    requires
        popup.width >= 2,
        popup.x < u16::MAX,
        popup.y <= u16::MAX - 2,
    ensures
        line == (Rect {
            x: (popup.x + 1) as u16,
            y: (popup.y + 2) as u16,
            width: (popup.width - 2) as u16,
            height: 1,
        }),
{
    Rect { x: popup.x + 1, y: popup.y + 2, width: popup.width - 2, height: 1 }
}

/// The rectangle of the popup that lists `count` ports, centred in the area:
/// at most forty cells wide, and as high as the list with its border, as far
/// as the area has room for it with two cells free above and below.
pub fn port_popup_area(area: Rect, count: usize) -> (popup: Rect)
    requires
        area.fits(),
        count <= u16::MAX - 2,
    ensures
        popup == centred(area, 40, least(count + 2, less(area.height as int, 4)) as u16),
{
    let room: u16 = if area.height >= 4 {
        area.height - 4
    } else {
        0
    };
    let wished: u16 = count as u16 + 2;
    let height: u16 = if wished <= room {
        wished
    } else {
        room
    };
    popup_area(area, 40, height)
}

/// The rectangle of the log popup: two cells in from the area's corner, at
/// most eighty cells wide and fifteen high, and leaving two cells of the
/// area free on either side.
pub fn log_popup_area(area: Rect) -> (popup: Rect)
    requires
        area.x <= u16::MAX - 2,
        area.y <= u16::MAX - 2,
    ensures
        popup == (Rect {
            x: (area.x + 2) as u16,
            y: (area.y + 2) as u16,
            width: least(80, less(area.width as int, 4)) as u16,
            height: least(15, less(area.height as int, 4)) as u16,
        }),
{
    let room_w: u16 = if area.width >= 4 {
        area.width - 4
    } else {
        0
    };
    let room_h: u16 = if area.height >= 4 {
        area.height - 4
    } else {
        0
    };
    Rect {
        x: area.x + 2,
        y: area.y + 2,
        width: if room_w < 80 {
            room_w
        } else {
            80
        },
        height: if room_h < 15 {
            room_h
        } else {
            15
        },
    }
}

/// Which entries of a log of `count` entries the log popup of the given
/// height lists, as a range of positions: the latest ones, at most five, and
/// no more than there are rows between the borders. Also whether a scrollbar
/// is called for: there are more entries than rows.
pub fn log_popup_entries(count: usize, popup_height: u16) -> (shown: (usize, usize, bool))
    requires
        popup_height >= 2,
    ensures
        shown.1 == count,
        shown.1 - shown.0 == least(count as int, least(5, popup_height - 2)),
        shown.2 == (count > popup_height - 2),
{
    let rows: usize = (popup_height - 2) as usize;
    let limit: usize = if rows < 5 {
        rows
    } else {
        5
    };
    let take: usize = if count < limit {
        count
    } else {
        limit
    };
    (count - take, count, count > rows)
}

/// The row of gauge `index` of six in an area of the given height: how far
/// below the top of the area it begins, and how high it is. The rows share
/// the height evenly, and the first rows take what is left over, a cell
/// each.
pub fn gauge_row(area_height: u16, index: usize) -> (row: (u16, u16))
    requires
        index < 6,
    ensures
        row.0 == index * (area_height / 6) + least(index as int, (area_height % 6) as int),
        row.1 == area_height / 6 + if index < area_height % 6 {
            1int
        } else {
            0int
        },
        row.0 + row.1 <= area_height,
{
    let each: u16 = area_height / 6;
    let extra: u16 = area_height % 6;
    let i: u16 = index as u16;
    let shift: u16 = if i < extra {
        i
    } else {
        extra
    };
    let height: u16 = if i < extra {
        each + 1
    } else {
        each
    };
    assert(i * each + shift + height <= area_height) by (nonlinear_arith)
        requires
            0 <= i < 6,
            area_height == 6 * each + extra,
            0 <= extra < 6,
            shift == if i < extra {
                i
            } else {
                extra
            },
            height == if i < extra {
                each + 1
            } else {
                each as int
            },
    ;
    assert(0 <= i * each) by (nonlinear_arith)
        requires
            0 <= i,
            0 <= each,
    ;
    (i * each + shift, height)
}

/// The bar of a gauge in a row of the given width, for a servo at `percent`
/// of its range: how many of its cells are filled and how many are empty.
/// The bar is as wide as the row less twenty cells.
pub fn gauge_bar(row_width: u16, percent: u16) -> (bar: (u16, u16))
    requires
        percent <= 100,
    ensures
        bar.0 == percent * less(row_width as int, 20) / 100,
        bar.0 + bar.1 == less(row_width as int, 20),
{
    let bar_width: u32 = if row_width >= 20 {
        (row_width - 20) as u32
    } else {
        0
    };
    assert(0 <= percent * bar_width <= 100 * bar_width) by (nonlinear_arith)
        requires
            0 <= percent <= 100,
            0 <= bar_width,
    ;
    let filled: u32 = (percent as u32) * bar_width / 100;
    (filled as u16, (bar_width - filled) as u16)
}

/// The popup that lists the log.
#[derive(Clone, Copy, Debug)]
pub struct LogPopup {
    visible: bool,
    scroll_offset: usize,
}

impl LogPopup {
    /// Whether the popup is shown.
    pub closed spec fn spec_visible(&self) -> bool {
        self.visible
    }

    /// Lines that the list is scrolled by.
    pub closed spec fn spec_scroll_offset(&self) -> usize {
        self.scroll_offset
    }

    /// A hidden popup.
    pub fn new() -> (popup: Self)
        ensures
            !popup.spec_visible(),
            popup.spec_scroll_offset() == 0,
    {
        LogPopup { visible: false, scroll_offset: 0 }
    }

    /// Shows the popup, scrolled to the top.
    pub fn show(&mut self)
        ensures
            final(self).spec_visible(),
            final(self).spec_scroll_offset() == 0,
    {
        self.visible = true;
        self.scroll_offset = 0;
    }

    /// Hides the popup.
    pub fn close(&mut self)
        ensures
            !final(self).spec_visible(),
            final(self).spec_scroll_offset() == old(self).spec_scroll_offset(),
    {
        self.visible = false;
    }

    /// Hides the popup where it is shown, and shows it where it is hidden.
    pub fn toggle(&mut self)
        ensures
            final(self).spec_visible() == !old(self).spec_visible(),
            final(self).spec_scroll_offset() == if old(self).spec_visible() {
                old(self).spec_scroll_offset()
            } else {
                0usize
            },
    {
        if self.visible {
            self.close();
        } else {
            self.show();
        }
    }

    /// Whether the popup is shown.
    pub fn is_visible(&self) -> (visible: bool)
        ensures
            visible == self.spec_visible(),
    {
        self.visible
    }

    /// Lines that the list is scrolled by.
    pub fn scroll_offset(&self) -> (offset: usize)
        ensures
            offset == self.spec_scroll_offset(),
    {
        self.scroll_offset
    }

    /// Scrolls one line down.
    pub fn scroll_down(&mut self)
        ensures
            final(self).spec_visible() == old(self).spec_visible(),
            final(self).spec_scroll_offset() == if old(self).spec_scroll_offset() < usize::MAX {
                (old(self).spec_scroll_offset() + 1) as usize
            } else {
                usize::MAX
            },
    {
        self.scroll_offset = self.scroll_offset.saturating_add(1);
    }

    /// Scrolls one line up, unless the list is at its top.
    pub fn scroll_up(&mut self)
        ensures
            final(self).spec_visible() == old(self).spec_visible(),
            final(self).spec_scroll_offset() == if old(self).spec_scroll_offset() > 0 {
                (old(self).spec_scroll_offset() - 1) as usize
            } else {
                0usize
            },
    {
        if self.scroll_offset > 0 {
            self.scroll_offset -= 1;
        }
    }

    /// Gets the popup ready to be drawn, and says whether there is anything
    /// to draw. A hidden popup opens by itself where the log has a new
    /// warning or error, which is thereby taken note of. The popup is drawn
    /// where it is shown and the log is not empty.
    pub fn prepare(&mut self, log: &mut LogQueue) -> (draw: bool)
        ensures
            final(log).spec_entries() == old(log).spec_entries(),
            if !old(self).spec_visible() && old(log).spec_important() {
                &&& final(self).spec_visible()
                &&& final(self).spec_scroll_offset() == 0
                &&& !final(log).spec_important()
            } else {
                &&& final(self).spec_visible() == old(self).spec_visible()
                &&& final(self).spec_scroll_offset() == old(self).spec_scroll_offset()
                &&& final(log).spec_important() == old(log).spec_important()
            },
            draw == (final(self).spec_visible() && old(log).spec_entries().len() > 0),
    {
        if !self.visible && log.has_new_important() {
            self.show();
            log.clear_important_flag();
        }
        if !self.visible {
            return false;
        }
        log.len() > 0
    }
}

impl Default for LogPopup {
    /// A hidden popup.
    fn default() -> (popup: Self)
        ensures
            !popup.spec_visible(),
            popup.spec_scroll_offset() == 0,
    {
        LogPopup::new()
    }
}

} // verus!
