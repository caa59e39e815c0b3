//! The screen that the plugin draws.

use crate::host::{steps_view, strings_view, Step, StepView, Task};
use crate::keys::{char_of_slot, slot_index_to_char, SLOT_COUNT};
use crate::model::StateView;
use crate::slots::{slot_at, SlotView};
use crate::state::State;
use crate::style::{
    bold, bold_text, dimmed, dimmed_text, red, red_text, yellow, yellow_text,
};
use vstd::prelude::*;
use vstd::utf8::encode_utf8;

verus! {

/// The columns of the title line that the rule behind the title leaves free: as many as
/// the title has bytes, and two more.
pub const TITLE_COLUMNS: usize = 14;

/// The title.
pub open spec fn title() -> Seq<char> {
    "─ Harpoon "@
}

/// An empty line.
pub open spec fn blank() -> Seq<char> {
    Seq::empty()
}

/// A horizontal rule of `n` characters.
pub open spec fn rule(n: nat) -> Seq<char> {
    Seq::new(n, |i: int| '─')
}

/// The title line: the title, and a rule that fills the line.
pub open spec fn title_line(cols: usize) -> Seq<char> {
    bold_text(title()) + rule(
        if cols >= TITLE_COLUMNS {
            (cols - TITLE_COLUMNS) as nat
        } else {
            0
        },
    )
}

/// What a taken slot shows: its letter, session, tab and pane, and whether its session is
/// not running.
pub open spec fn taken_text(letter: char, slot: SlotView, online: bool) -> Seq<char> {
    seq!['[', letter] + "] "@ + slot.session_name + " | "@ + slot.tab_name + " | "@
        + slot.pane_title + if online {
        ""@
    } else {
        " (offline)"@
    }
}

/// What a free slot shows.
pub open spec fn free_text(letter: char) -> Seq<char> {
    seq!['[', letter] + "] (empty)"@
}

/// `text`, indented.
pub open spec fn indented(text: Seq<char>) -> Seq<char> {
    "  "@ + text
}

impl StateView {
    /// The lines that tell of a failure, or that the slots are not there yet.
    pub open spec fn status_lines(self) -> Seq<Seq<char>> {
        match self.error {
            Some(error) => seq![indented(red_text(error)), blank()],
            None => if self.host_folder_ready {
                seq![]
            } else {
                seq![indented(dimmed_text("Loading..."@)), blank()]
            },
        }
    }

    /// What the slot at `index` shows.
    pub open spec fn slot_text(self, index: usize) -> Seq<char> {
        match slot_at(self.slots, index as int) {
            Some(slot) => taken_text(
                char_of_slot(index),
                slot,
                self.session_online(slot.session_name),
            ),
            None => free_text(char_of_slot(index)),
        }
    }

    /// The line of the slot at `index`. The one that the cursor is on stands out.
    pub open spec fn slot_line(self, index: usize) -> Seq<char> {
        if index == self.selected_slot {
            indented(bold_text(red_text(self.slot_text(index))))
        } else {
            indented(self.slot_text(index))
        }
    }

    /// The lines of the slots.
    pub open spec fn slot_lines(self) -> Seq<Seq<char>> {
        Seq::new(SLOT_COUNT as nat, |i: int| self.slot_line(i as usize))
    }

    /// The lines that tell which keys there are.
    pub open spec fn help_lines(self) -> Seq<Seq<char>> {
        if self.awaiting_delete_key {
            seq![indented(yellow_text("Press y/u/i/o/p to delete that slot..."@))]
        } else {
            seq![
                indented(dimmed_text("y/u/i/o/p:"@)) + " jump  "@ + dimmed_text("Y/U/I/O/P:"@)
                    + " assign"@,
                indented(dimmed_text("d + key:"@)) + " delete  "@ + dimmed_text("r:"@)
                    + " reload  "@ + dimmed_text("Esc:"@) + " close"@,
            ]
        }
    }

    /// The lines that tell which pane an assigned slot would lead to.
    pub open spec fn pane_lines(self) -> Seq<Seq<char>> {
        match self.focused_pane {
            Some(pane) => seq![
                blank(),
                indented(dimmed_text("Current:"@)) + " "@ + pane.tab_info.name + " | "@
                    + pane.pane_info.title,
            ],
            None => seq![],
        }
    }

    /// The whole screen, line by line.
    pub open spec fn screen(self, cols: usize) -> Seq<Seq<char>> {
        seq![title_line(cols), blank()] + self.status_lines() + self.slot_lines() + seq![blank()]
            + self.help_lines() + self.pane_lines()
    }
}

/// The title has twelve bytes.
proof fn lemma_title_bytes()
    ensures
        encode_utf8(title()).len() + 2 == TITLE_COLUMNS,
{
    reveal_strlit("─ Harpoon ");
    let rest = title().drop_first();
    assert(vstd::utf8::is_ascii_chars(rest));
    vstd::utf8::is_ascii_chars_encode_utf8(rest);
    assert(title()[0] as u32 == 0x2500);
}

/// A horizontal rule of `n` characters.
fn rule_text(n: usize) -> (r: String)
    ensures
        r@ == rule(n as nat),
{
    let mut text = String::new();
    let mut i: usize = 0;
    while i < n
        invariant
            i <= n,
            text@ == rule(i as nat),
        decreases n - i,
    {
        text.push('─');
        i = i + 1;
    }
    text
}

/// `text`, indented.
fn indent(text: &str) -> (r: String)
    ensures
        r@ == indented(text@),
{
    "  ".to_owned().concat(text)
}

impl State {
    /// The steps to take before the screen is drawn: the slots are read again.
    pub fn before_render(&self) -> (r: Vec<Step>)
        ensures
            steps_view(r@) == seq![StepView::Begin(Task::Reload)],
    {
        let mut steps: Vec<Step> = Vec::new();
        steps.push(Step::Begin(Task::Reload));
        steps
    }

    /// What the slot at `index` shows.
    pub fn slot_display(&self, index: usize) -> (r: String)
        ensures
            r@ == self@.slot_text(index),
    {
        let mut text = String::new();
        text.push('[');
        text.push(slot_index_to_char(index));
        match self.harpoon_data.get_slot(index) {
            Some(slot) => {
                text.append("] ");
                text.append(slot.session_name.as_str());
                text.append(" | ");
                text.append(slot.tab_name.as_str());
                text.append(" | ");
                text.append(slot.pane_title.as_str());
                let status = if self.is_session_online(slot.session_name.as_str()) {
                    ""
                } else {
                    " (offline)"
                };
                text.append(status);
            },
            None => {
                text.append("] (empty)");
            },
        }
        text
    }

    /// The line of the slot at `index`. The one that the cursor is on stands out.
    pub fn slot_row(&self, index: usize) -> (r: String)
        ensures
            r@ == self@.slot_line(index),
    {
        let text = self.slot_display(index);
        if index == self.selected_slot {
            indent(bold(red(text.as_str()).as_str()).as_str())
        } else {
            indent(text.as_str())
        }
    }

    /// Adds the lines that tell of a failure, or that the slots are not there yet.
    fn push_status(&self, lines: &mut Vec<String>)
        ensures
            strings_view(final(lines)@) == strings_view(old(lines)@) + self@.status_lines(),
    {
        match &self.error {
            Some(error) => {
                lines.push(indent(red(error.as_str()).as_str()));
                lines.push(String::new());
            },
            None => if !self.host_folder_ready {
                lines.push(indent(dimmed("Loading...").as_str()));
                lines.push(String::new());
            },
        }
    }

    /// Adds the lines of the slots.
    fn push_slots(&self, lines: &mut Vec<String>)
        ensures
            strings_view(final(lines)@) == strings_view(old(lines)@) + self@.slot_lines(),
    {
        let mut i: usize = 0;
        while i < SLOT_COUNT
            invariant
                i <= SLOT_COUNT,
                strings_view(lines@) == strings_view(old(lines)@) + self@.slot_lines().take(
                    i as int,
                ),
            decreases SLOT_COUNT - i,
        {
            let ghost before = strings_view(lines@);
            lines.push(self.slot_row(i));
            assert(strings_view(lines@) == before.push(self@.slot_line(i)));
            assert(self@.slot_lines().take(i + 1) == self@.slot_lines().take(i as int).push(
                self@.slot_line(i),
            ));
            i = i + 1;
        }
        assert(self@.slot_lines().take(SLOT_COUNT as int) == self@.slot_lines());
    }

    /// Adds the lines that tell which keys there are.
    fn push_help(&self, lines: &mut Vec<String>)
        ensures
            strings_view(final(lines)@) == strings_view(old(lines)@) + self@.help_lines(),
    {
        if self.awaiting_delete_key {
            lines.push(
                indent(yellow("Press y/u/i/o/p to delete that slot...").as_str()),
            );
        } else {
            let mut slots_help = indent(dimmed("y/u/i/o/p:").as_str());
            slots_help.append(" jump  ");
            slots_help.append(dimmed("Y/U/I/O/P:").as_str());
            slots_help.append(" assign");
            lines.push(slots_help);
            let mut more_help = indent(dimmed("d + key:").as_str());
            more_help.append(" delete  ");
            more_help.append(dimmed("r:").as_str());
            more_help.append(" reload  ");
            more_help.append(dimmed("Esc:").as_str());
            more_help.append(" close");
            lines.push(more_help);
        }
    }

    /// Adds the lines that tell which pane an assigned slot would lead to.
    fn push_pane(&self, lines: &mut Vec<String>)
        ensures
            strings_view(final(lines)@) == strings_view(old(lines)@) + self@.pane_lines(),
    {
        match &self.focused_pane {
            Some(pane) => {
                lines.push(String::new());
                let mut current = indent(dimmed("Current:").as_str());
                current.append(" ");
                current.append(pane.tab_info.name.as_str());
                current.append(" | ");
                current.append(pane.pane_info.title.as_str());
                lines.push(current);
            },
            None => {},
        }
    }

    /// The screen, line by line, for a width of `cols` columns.
    pub fn render(&self, _rows: usize, cols: usize) -> (r: Vec<String>)
        ensures
            strings_view(r@) == self@.screen(cols),
    {
        proof {
            lemma_title_bytes();
        }
        let title = "─ Harpoon ";
        let title_suffix = rule_text(cols.saturating_sub(title.len() + 2));
        let mut lines: Vec<String> = Vec::new();
        lines.push(bold(title).concat(title_suffix.as_str()));
        lines.push(String::new());
        assert(strings_view(lines@) == seq![title_line(cols), blank()]);
        self.push_status(&mut lines);
        self.push_slots(&mut lines);
        let ghost slots = strings_view(lines@);
        lines.push(String::new());
        assert(strings_view(lines@) == slots + seq![blank()]);
        self.push_help(&mut lines);
        self.push_pane(&mut lines);
        lines
    }
}

} // verus!
