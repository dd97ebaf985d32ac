//! How each line of the list is to be drawn: prefix, emphasis, color.
//!
//! The library decides what every line looks like; writing the styled text
//! to the terminal is left to the caller.

use vstd::prelude::*;
use crate::list::SelectableList;

verus! {

/// The two-character prefix of a line: a marker under the cursor (`"* "` on
/// a selected item, `"> "` otherwise), plain indentation elsewhere.
pub open spec fn prefix_spec(cursor_here: bool, selected: bool) -> Seq<char> {
    if cursor_here {
        if selected {
            "* "@
        } else {
            "> "@
        }
    } else {
        "  "@
    }
}

/// The styling of one rendered line: its prefix, whether the whole line is
/// bold (the cursor line), whether the label is colored green (a selected
/// item), and the label text itself.
pub struct LineStyle {
    pub prefix: &'static str,
    pub bold: bool,
    pub green: bool,
    pub label: String,
}

impl SelectableList {
    /// Computes the styling of the line for the item at `index`: the cursor
    /// line carries a marker prefix and is bold, a selected item's label is
    /// green.
    pub fn styled_line(&self, index: usize) -> (line: LineStyle)
        requires
            index < self.spec_len(),
        ensures
            line.prefix@ == prefix_spec(index as int == self.cursor(), self.selections()[index as int]),
            line.bold == (index as int == self.cursor()),
            line.green == self.selections()[index as int],
            line.label@ == self.labels()[index as int],
    {
        let cursor_here = index == self.selected_index;
        let selected = self.items[index].selected;
        let prefix: &'static str = if cursor_here {
            if selected {
                "* "
            } else {
                "> "
            }
        } else {
            "  "
        };
        LineStyle { prefix, bold: cursor_here, green: selected, label: self.items[index].label.clone() }
    }

    /// Computes the styling of every line of one frame, in item order.
    pub fn render_lines(&self) -> (lines: Vec<LineStyle>)
        ensures
            lines@.len() == self.spec_len(),
            forall|i: int| 0 <= i < self.spec_len() ==> {
                &&& lines@[i].prefix@ == prefix_spec(i == self.cursor(), self.selections()[i])
                &&& lines@[i].bold == (i == self.cursor())
                &&& lines@[i].green == self.selections()[i]
                &&& lines@[i].label@ == self.labels()[i]
            },
    {
        let mut lines: Vec<LineStyle> = Vec::new();
        let mut i: usize = 0;
        while i < self.items.len()
            invariant
                i <= self.spec_len(),
                lines@.len() == i,
                forall|j: int| 0 <= j < i ==> {
                    &&& lines@[j].prefix@ == prefix_spec(j == self.cursor(), self.selections()[j])
                    &&& lines@[j].bold == (j == self.cursor())
                    &&& lines@[j].green == self.selections()[j]
                    &&& lines@[j].label@ == self.labels()[j]
                },
            decreases self.spec_len() - i,
        {
            let line = self.styled_line(i);
            lines.push(line);
            i = i + 1;
        }
        lines
    }
}

} // verus!
