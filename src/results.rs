use vstd::prelude::*;
use vstd::string::*;
use crate::matcher::Matcher;
use crate::text::{decimal, decimal_string};

verus! {

/// The title of the results pane.
pub const RESULTS_TITLE: &'static str = " RFUI ";

/// What the status line reports, from the last event of the search run.
#[derive(Debug)]
pub enum StatusEvent {
    /// Paths are still arriving.
    Scanning,
    /// The walk has finished.
    Complete,
    /// Nothing to report.
    Idle,
}

/// The dots after "Scanning files", cycling every 500 ms.
pub open spec fn scanning_dots(elapsed_ms: nat) -> Seq<char> {
    let phase = (elapsed_ms / 500) % 3;
    if phase == 0 {
        "."@
    } else if phase == 1 {
        ".."@
    } else {
        "..."@
    }
}

/// Where `select_next` leaves the window offset and the selection.
pub open spec fn next_window(o: nat, h: nat, sel: Option<usize>, n: nat) -> (nat, Option<usize>) {
    match sel {
        None => if h > 0 {
            (o, Some(0usize))
        } else {
            (o, None)
        },
        Some(s) => if o + s + 1 < n && s + 1 < h {
            (o, Some((s + 1) as usize))
        } else if o + s + 1 < n && h > 0 {
            (o + 1, Some((h - 1) as usize))
        } else {
            (o, Some(s))
        },
    }
}

/// Where `select_previous` leaves the window offset and the selection.
pub open spec fn previous_window(o: nat, h: nat, sel: Option<usize>) -> (nat, Option<usize>) {
    let row: nat = match sel {
        Some(s) => s as nat,
        None => 0,
    };
    if row == 0 && o > 0 && h > 0 {
        ((o - 1) as nat, Some(0usize))
    } else if row > 0 {
        (o, Some((row - 1) as usize))
    } else {
        (o, sel)
    }
}

/// The virtualized result list: a window of `height` rows starting at match
/// `offset`, with the selected row inside it.
pub struct Results {
    pub offset: usize,
    pub height: usize,
    pub selected: Option<usize>,
    pub matcher: Matcher,
}

impl Results {
    pub open spec fn window_offset(&self) -> nat {
        self.offset as nat
    }

    pub open spec fn window_height(&self) -> nat {
        self.height as nat
    }

    /// The selected row within the window, if any is selected.
    pub open spec fn selection(&self) -> Option<usize> {
        self.selected
    }

    /// The selected row, reading "none" as the first row.
    pub open spec fn row(&self) -> nat {
        match self.selection() {
            Some(s) => s as nat,
            None => 0,
        }
    }

    pub open spec fn total(&self) -> nat {
        self.matcher.matches().len()
    }

    /// The selection stays inside the window and, while there are matches,
    /// on one of them.
    pub open spec fn window_ok(&self) -> bool {
        &&& self.selection() is Some ==> self.row() < self.window_height()
        &&& self.total() > 0 ==> self.window_offset() + self.row() < self.total()
    }

    /// The absolute position of the selection fits the matcher's counts.
    pub open spec fn bounded(&self) -> bool {
        self.window_offset() + self.row() <= u32::MAX
    }

    pub fn new() -> (r: Results)
        ensures
            r.window_offset() == 0,
            r.window_height() == 0,
            r.selection() is None,
            r.total() == 0,
            r.matcher.model().corpus.len() == 0,
            r.matcher.wf(),
            r.window_ok(),
            r.bounded(),
    {
        Results { offset: 0, height: 0, selected: None, matcher: Matcher::new() }
    }

    /// The status line for the last event of the search run.
    pub fn get_status_msg(&self, app_event: &StatusEvent, elapsed_ms: u64) -> (r: String)
        ensures
            match app_event {
                StatusEvent::Scanning => r@ == " Scanning files"@ + scanning_dots(
                    elapsed_ms as nat,
                ) + " "@,
                StatusEvent::Complete => r@ == " "@ + decimal(self.total()) + " files found • ↑↓ navigate • Esc exits "@,
                StatusEvent::Idle => r@.len() == 0,
            },
    {
        match app_event {
            StatusEvent::Scanning => {
                let phase = (elapsed_ms / 500) % 3;
                let dots = if phase == 0 {
                    "."
                } else if phase == 1 {
                    ".."
                } else {
                    "..."
                };
                String::from_str(" Scanning files").concat(dots).concat(" ")
            },
            StatusEvent::Complete => {
                let count = self.matcher.get_matched_items_count();
                let digits = decimal_string(count as usize);
                String::from_str(" ").concat(digits.as_str()).concat(
                    " files found • ↑↓ navigate • Esc exits ",
                )
            },
            StatusEvent::Idle => String::new(),
        }
    }

    pub fn set_height(&mut self, height: usize)
        ensures
            final(self).window_height() == height,
            final(self).window_offset() == old(self).window_offset(),
            final(self).selection() == old(self).selection(),
            final(self).matcher == old(self).matcher,
            old(self).bounded() ==> final(self).bounded(),
    {
        self.height = height;
    }

    pub fn window_offset_value(&self) -> (r: usize)
        ensures
            r == self.window_offset(),
    {
        self.offset
    }

    pub fn window_height_value(&self) -> (r: usize)
        ensures
            r == self.window_height(),
    {
        self.height
    }

    /// Selects the first row of the window when nothing is selected yet.
    pub fn select_first(&mut self)
        ensures
            old(self).selection() is None && old(self).window_height() > 0 ==> final(self).selection() == Some(0usize),
            !(old(self).selection() is None && old(self).window_height() > 0) ==> final(self).selection() == old(self).selection(),
            final(self).window_offset() == old(self).window_offset(),
            final(self).window_height() == old(self).window_height(),
            final(self).matcher == old(self).matcher,
            old(self).window_ok() ==> final(self).window_ok(),
            old(self).bounded() ==> final(self).bounded(),
    {
        if self.selected.is_none() && self.height > 0 {
            self.selected = Some(0);
        }
    }

    /// Brings the selection back into the window and onto a match after the
    /// window height or the match count shrank: a row below the window moves
    /// to its last row, a selection past the last match moves to it, keeping
    /// its row when it can; a window that is still valid is left as it is.
    pub fn fit_to_matches(&mut self)
        ensures
            final(self).window_ok(),
            final(self).bounded(),
            final(self).window_height() == old(self).window_height(),
            final(self).matcher == old(self).matcher,
            old(self).window_ok() && old(self).bounded() ==> final(self).window_offset() == old(self).window_offset() && final(self).selection() == old(self).selection(),
    {
        if let Some(s) = self.selected {
            if s >= self.height {
                self.selected = if self.height > 0 {
                    Some(self.height - 1)
                } else {
                    None
                };
            }
        }
        let total = self.matcher.get_matched_items_count() as usize;
        let row = self.get_selected_index();
        if total == 0 {
            if self.offset > u32::MAX as usize || row > u32::MAX as usize - self.offset {
                self.offset = 0;
                self.selected = None;
            }
            return;
        }
        if self.offset < total && row < total - self.offset {
            return;
        }
        if row < total {
            self.offset = total - 1 - row;
        } else {
            self.offset = 0;
            self.selected = Some(total - 1);
        }
    }

    /// The selected row within the window (the first when none is).
    pub fn get_selected_index(&self) -> (r: usize)
        ensures
            r == self.row(),
    {
        match self.selected {
            Some(s) => s,
            None => 0,
        }
    }

    /// The position of the selection among all matches.
    pub fn absolute_selected(&self) -> (r: usize)
        requires
            self.bounded(),
        ensures
            r == self.window_offset() + self.row(),
    {
        self.offset + self.get_selected_index()
    }

    /// The text of the selected match, if there is one.
    pub fn get_selected(&self) -> (r: Option<String>)
        requires
            self.bounded(),
        ensures
            self.window_offset() + self.row() < self.total() ==> r is Some && r->Some_0@
                == self.matcher.matches()[(self.window_offset() + self.row()) as int],
            self.window_offset() + self.row() >= self.total() ==> r is None,
    {
        self.matcher.get_item(self.absolute_selected())
    }

    /// Goes back to the first match.
    pub fn move_to_top(&mut self)
        ensures
            final(self).window_offset() == 0,
            final(self).selection() == (if old(self).window_height() > 0 {
                Some(0usize)
            } else {
                None
            }),
            final(self).window_height() == old(self).window_height(),
            final(self).matcher == old(self).matcher,
            final(self).window_ok(),
            final(self).bounded(),
    {
        self.offset = 0;
        self.selected = if self.height > 0 {
            Some(0)
        } else {
            None
        };
    }

    /// Moves the selection one match down, scrolling the window when the
    /// selection is on its last row; nothing past the last match.
    pub fn select_next(&mut self)
        ensures
            final(self).window_height() == old(self).window_height(),
            final(self).matcher == old(self).matcher,
            ({
                let (o, h, n) = (
                    old(self).window_offset(),
                    old(self).window_height(),
                    old(self).total(),
                );
                match old(self).selection() {
                    None => if h > 0 {
                        final(self).selection() == Some(0usize) && final(self).window_offset()
                            == o
                    } else {
                        final(self).selection() is None && final(self).window_offset() == o
                    },
                    Some(s) => if o + s + 1 < n && s + 1 < h {
                        final(self).selection() == Some((s + 1) as usize)
                            && final(self).window_offset() == o
                    } else if o + s + 1 < n && h > 0 {
                        final(self).selection() == Some((h - 1) as usize)
                            && final(self).window_offset() == o + 1
                    } else {
                        final(self).selection() == Some(s) && final(self).window_offset() == o
                    },
                }
            }),
            (final(self).window_offset(), final(self).selection()) == next_window(
                old(self).window_offset(),
                old(self).window_height(),
                old(self).selection(),
                old(self).total(),
            ),
            old(self).window_ok() ==> final(self).window_ok(),
            old(self).bounded() ==> final(self).bounded(),
    {
        let total = self.matcher.get_matched_items_count() as usize;
        match self.selected {
            None => {
                if self.height > 0 {
                    self.selected = Some(0);
                }
            },
            Some(current) => {
                if current < total && self.offset < total - current - 1 {
                    if current + 1 < self.height {
                        self.selected = Some(current + 1);
                    } else if self.height > 0 {
                        self.offset = self.offset + 1;
                        self.selected = Some(self.height - 1);
                    }
                }
            },
        }
    }

    /// Moves the selection one match up, scrolling the window when the
    /// selection is on its first row; nothing before the first match.
    pub fn select_previous(&mut self)
        ensures
            final(self).window_height() == old(self).window_height(),
            final(self).matcher == old(self).matcher,
            ({
                let (o, h, row) = (
                    old(self).window_offset(),
                    old(self).window_height(),
                    old(self).row(),
                );
                if row == 0 && o > 0 && h > 0 {
                    final(self).selection() == Some(0usize) && final(self).window_offset() == o
                        - 1
                } else if row > 0 {
                    final(self).selection() == Some((row - 1) as usize)
                        && final(self).window_offset() == o
                } else {
                    final(self).selection() == old(self).selection()
                        && final(self).window_offset() == o
                }
            }),
            (final(self).window_offset(), final(self).selection()) == previous_window(
                old(self).window_offset(),
                old(self).window_height(),
                old(self).selection(),
            ),
            old(self).window_ok() ==> final(self).window_ok(),
            old(self).bounded() ==> final(self).bounded(),
    {
        let current = self.get_selected_index();
        if current == 0 && self.offset > 0 && self.height > 0 {
            self.offset = self.offset - 1;
            self.selected = Some(0);
        } else if current > 0 {
            self.selected = Some(current - 1);
        }
    }
}

} // verus!
