//! Moving through sliders, equalizer bands and file picker suggestions.

use vstd::prelude::*;
use crate::mode::PanelFocus;

verus! {

/// Number of equalizer bands.
pub const EQ_BAND_COUNT: usize = 12;

/// Number of suggestions that the file picker shows at once.
pub const VISIBLE_ROWS: usize = 5;

impl PanelFocus {
    /// Number of sliders in the panel.
    pub open spec fn sliders(self) -> int {
        match self {
            PanelFocus::WorldSliders => 6,
            PanelFocus::EffectsSliders => 5,
            PanelFocus::Master => 1,
            PanelFocus::EqBands => 0,
            PanelFocus::Transport => 0,
        }
    }

    /// Number of sliders in the panel.
    pub fn slider_count(self) -> (n: usize)
        ensures
            n == self.sliders(),
    {
        match self {
            PanelFocus::WorldSliders => 6,
            PanelFocus::EffectsSliders => 5,
            PanelFocus::Master => 1,
            PanelFocus::EqBands => 0,
            PanelFocus::Transport => 0,
        }
    }
}

/// The slider above the selected one; the first slider stays selected.
pub fn slider_up(selected: usize) -> (next: usize)
    ensures
        next == if selected > 0 {
            selected - 1
        } else {
            0
        },
{
    if selected > 0 {
        selected - 1
    } else {
        0
    }
}

/// The slider below the selected one; the last of `count` sliders stays
/// selected.
pub fn slider_down(selected: usize, count: usize) -> (next: usize)
    ensures
        next == if selected + 1 < count {
            selected + 1
        } else {
            selected as int
        },
{
    if selected < count && selected + 1 < count {
        selected + 1
    } else {
        selected
    }
}

/// The band left of the selected one; the first band stays selected.
pub fn band_left(band: usize) -> (next: usize)
    ensures
        next == if band > 0 {
            band - 1
        } else {
            0
        },
        band < EQ_BAND_COUNT ==> next < EQ_BAND_COUNT,
{
    slider_up(band)
}

/// The band right of the selected one; the last band stays selected.
pub fn band_right(band: usize) -> (next: usize)
    ensures
        next == if band + 1 < EQ_BAND_COUNT {
            band + 1
        } else {
            band as int
        },
        band < EQ_BAND_COUNT ==> next < EQ_BAND_COUNT,
{
    slider_down(band, EQ_BAND_COUNT)
}

/// Where a jump to the end lands: on the start of the last frame, not one
/// past the end.
pub fn last_frame_start(total_samples: usize, channels: u16) -> (position: usize)
    ensures
        position == if total_samples >= channels {
            total_samples - channels
        } else {
            0
        },
        position <= total_samples,
{
    if total_samples >= channels as usize {
        total_samples - channels as usize
    } else {
        0
    }
}

/// The file picker's position in its list of suggestions.
#[derive(Debug, Clone, Copy, PartialEq, Eq, Structural)]
pub struct PickerCursor {
    /// The selected suggestion; `None` while the listener types.
    pub selected: Option<usize>,
    /// The first suggestion shown.
    pub scroll: usize,
}

impl PickerCursor {
    /// Whether the selection, if there is one, is a suggestion of a list of
    /// `len` and lies within the rows shown, and the list is shown from the
    /// top while nothing is selected.
    pub open spec fn in_view(self, len: int) -> bool {
        match self.selected {
            None => self.scroll == 0,
            Some(s) => s < len && self.scroll <= s < self.scroll + VISIBLE_ROWS,
        }
    }

    /// The cursor after one step down a list of `len` suggestions.
    pub open spec fn stepped_down(self, len: int) -> PickerCursor {
        if len <= 0 {
            self
        } else {
            let selected: usize = match self.selected {
                None => 0,
                Some(s) => if s + 1 < len {
                    (s + 1) as usize
                } else {
                    s
                },
            };
            PickerCursor {
                selected: Some(selected),
                scroll: if selected >= self.scroll + VISIBLE_ROWS {
                    (selected + 1 - VISIBLE_ROWS) as usize
                } else {
                    self.scroll
                },
            }
        }
    }

    /// The cursor after one step up: from the first suggestion back to the
    /// typed text.
    pub open spec fn stepped_up(self) -> PickerCursor {
        match self.selected {
            None => self,
            Some(s) => if s == 0 {
                PickerCursor { selected: None, scroll: self.scroll }
            } else {
                PickerCursor {
                    selected: Some((s - 1) as usize),
                    scroll: if s - 1 < self.scroll {
                        (s - 1) as usize
                    } else {
                        self.scroll
                    },
                }
            },
        }
    }

    /// The cursor after the list was computed anew with `len` suggestions:
    /// shown from the top, the selection kept as far as the list reaches.
    pub open spec fn refreshed(self, len: int) -> PickerCursor {
        PickerCursor {
            selected: match self.selected {
                None => None,
                Some(s) => if len <= 0 {
                    None
                } else if s >= len {
                    Some((len - 1) as usize)
                } else {
                    Some(s)
                },
            },
            scroll: 0,
        }
    }

    /// A cursor on the typed text, the list shown from the top.
    pub fn new() -> (c: Self)
        ensures
            c == (PickerCursor { selected: None, scroll: 0 }),
    {
        PickerCursor { selected: None, scroll: 0 }
    }

    /// Moves down the list.
    pub fn move_down(&mut self, len: usize)
        ensures
            *final(self) == old(self).stepped_down(len as int),
    {
        if len == 0 {
            return;
        }
        let selected: usize = match self.selected {
            None => 0,
            Some(s) => if s < len && s + 1 < len {
                s + 1
            } else {
                s
            },
        };
        self.selected = Some(selected);
        if selected >= VISIBLE_ROWS && selected - VISIBLE_ROWS >= self.scroll {
            self.scroll = selected - (VISIBLE_ROWS - 1);
        }
    }

    /// Moves up the list.
    pub fn move_up(&mut self)
        ensures
            *final(self) == old(self).stepped_up(),
    {
        match self.selected {
            None => {},
            Some(s) => {
                if s == 0 {
                    self.selected = None;
                } else {
                    self.selected = Some(s - 1);
                    if s - 1 < self.scroll {
                        self.scroll = s - 1;
                    }
                }
            },
        }
    }

    /// Adapts the cursor to a list that was computed anew.
    pub fn refresh(&mut self, len: usize)
        ensures
            *final(self) == old(self).refreshed(len as int),
    {
        self.scroll = 0;
        match self.selected {
            None => {},
            Some(s) => {
                if len == 0 {
                    self.selected = None;
                } else if s >= len {
                    self.selected = Some(len - 1);
                }
            },
        }
    }

    /// The suggestion that completion takes: the selected one, or the first
    /// where none is selected and the list is not empty.
    pub fn completion(&self, len: usize) -> (index: Option<usize>)
        ensures
            index == match self.selected {
                Some(s) => if s < len {
                    Some(s)
                } else {
                    None
                },
                None => if len > 0 {
                    Some(0usize)
                } else {
                    None
                },
            },
            index is Some ==> index->0 < len,
    {
        match self.selected {
            Some(s) => if s < len {
                Some(s)
            } else {
                None
            },
            None => if len > 0 {
                Some(0)
            } else {
                None
            },
        }
    }
}

/// Stepping through the list keeps the selection among the rows shown, and
/// a list computed anew keeps it within the list.
pub proof fn lemma_selection_stays_in_view(cursor: PickerCursor, len: int, new_len: int)
    requires
        cursor.in_view(len),
        len <= usize::MAX,
    ensures
        cursor.stepped_down(len).in_view(len),
        cursor.stepped_up().in_view(len),
        cursor.refreshed(new_len).selected is Some ==> cursor.refreshed(new_len).selected->0
            < new_len,
{
}

/// The eight fill levels of a gauge cell, from the thinnest bar to the full
/// block.
pub open spec fn block_text(level: int) -> Seq<char> {
    if level <= 0 {
        "\u{258f}"@
    } else if level == 1 {
        "\u{258e}"@
    } else if level == 2 {
        "\u{258d}"@
    } else if level == 3 {
        "\u{258c}"@
    } else if level == 4 {
        "\u{258b}"@
    } else if level == 5 {
        "\u{258a}"@
    } else if level == 6 {
        "\u{2589}"@
    } else {
        "\u{2588}"@
    }
}

/// The fill level of cell `i` among `total` filled cells: the levels are
/// spread evenly over the cells, and a single cell is full.
pub open spec fn block_level(i: int, total: int) -> int {
    if total <= 1 {
        7
    } else {
        let raw = i * 7 / (total - 1);
        if raw > 7 {
            7
        } else {
            raw
        }
    }
}

/// The character of cell `i` among `total` filled cells of a gauge.
pub fn block_char_for_pos(i: usize, total: usize) -> (s: &'static str)
    ensures
        s@ == block_text(block_level(i as int, total as int)),
{
    let level: u128 = if total <= 1 {
        7
    } else {
        let raw: u128 = (i as u128 * 7) / ((total - 1) as u128);
        if raw > 7 {
            7
        } else {
            raw
        }
    };
    if level == 0 {
        "\u{258f}"
    } else if level == 1 {
        "\u{258e}"
    } else if level == 2 {
        "\u{258d}"
    } else if level == 3 {
        "\u{258c}"
    } else if level == 4 {
        "\u{258b}"
    } else if level == 5 {
        "\u{258a}"
    } else if level == 6 {
        "\u{2589}"
    } else {
        "\u{2588}"
    }
}

} // verus!
