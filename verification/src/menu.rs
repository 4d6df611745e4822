//! The toolbar: the line of actions and the line of tools, with the tool in
//! use shown in the highlight format.

use vstd::prelude::*;
use vstd::string::StringSliceAdditionalSpecFns;
use crate::canvas::Tool;
use crate::grid::{label, Cell, Point, Segment};
use crate::style::{plain, Color, Format};

verus! {

/// The format of the tool in use, unless the toolbar is told otherwise:
/// black on white.
pub open spec fn highlight() -> Format {
    Format { bg_color: Color::White, fg_color: Color::Black }
}

/// One tool of the toolbar with its label.
#[derive(Debug)]
pub struct ToolEntry {
    pub tool: Tool,
    pub label: Segment,
}

/// The toolbar.
#[derive(Debug)]
pub struct ToolBar {
    pub actions: Segment,
    pub tools: Vec<ToolEntry>,
    pub highlight: Format,
}

/// The cells of the line of actions.
pub open spec fn action_cells() -> Seq<Cell> {
    label(Point { x: 1, y: 1 }, "Exit (q)".spec_bytes()) + label(
        Point { x: 15, y: 1 },
        "Clear (k)".spec_bytes(),
    ) + label(Point { x: 30, y: 1 }, "Undo (u)".spec_bytes()) + label(
        Point { x: 45, y: 1 },
        "Save (Ctrl+s)".spec_bytes(),
    )
}

/// The cells of the label of the freehand tool.
pub open spec fn plot_cells() -> Seq<Cell> {
    label(Point { x: 1, y: 2 }, "Plot (1)".spec_bytes())
}

/// The cells of the label of the ruler.
pub open spec fn line_cells() -> Seq<Cell> {
    label(Point { x: 15, y: 2 }, "Line (2)".spec_bytes())
}

/// The format in which the entry of `entry_tool` is shown while `tool` is
/// in use.
pub open spec fn entry_format(entry_tool: Tool, tool: Tool, highlight: Format) -> Format {
    if entry_tool == tool {
        highlight
    } else {
        plain()
    }
}

/// The text that draws the first `count` tool entries one after another.
pub open spec fn entries_text(entries: Seq<ToolEntry>, count: nat) -> Seq<char>
    decreases count,
{
    if count == 0 {
        Seq::empty()
    } else {
        entries_text(entries, (count - 1) as nat) + entries[count - 1].label.stroke().text()
    }
}

/// A label short enough to lie on the screen wherever it starts.
fn short_label(x: u16, y: u16, text: &str) -> (out: Segment)
    requires
        text.spec_bytes().len() <= 16,
        x <= 1000,
    ensures
        out@ == label(Point { x, y }, text.spec_bytes()),
        out.format == plain(),
{
    Segment::from_str(Point::new(x, y), text, Format::default())
}

/// The literals of the toolbar are plain ASCII, one byte for each
/// character.
proof fn lemma_literal_lengths()
    ensures
        "Exit (q)".spec_bytes().len() == 8,
        "Clear (k)".spec_bytes().len() == 9,
        "Undo (u)".spec_bytes().len() == 8,
        "Save (Ctrl+s)".spec_bytes().len() == 13,
        "Plot (1)".spec_bytes().len() == 8,
        "Line (2)".spec_bytes().len() == 8,
{
    reveal_strlit("Exit (q)");
    reveal_strlit("Clear (k)");
    reveal_strlit("Undo (u)");
    reveal_strlit("Save (Ctrl+s)");
    reveal_strlit("Plot (1)");
    reveal_strlit("Line (2)");
    vstd::utf8::is_ascii_chars_encode_utf8("Exit (q)"@);
    vstd::utf8::is_ascii_chars_encode_utf8("Clear (k)"@);
    vstd::utf8::is_ascii_chars_encode_utf8("Undo (u)"@);
    vstd::utf8::is_ascii_chars_encode_utf8("Save (Ctrl+s)"@);
    vstd::utf8::is_ascii_chars_encode_utf8("Plot (1)"@);
    vstd::utf8::is_ascii_chars_encode_utf8("Line (2)"@);
}

impl ToolBar {
    /// Whether the toolbar is as it is built: the four actions in the plain
    /// format, and the freehand tool and the ruler, in this order, with the
    /// highlight on the entry of `tool` alone.
    pub open spec fn shows(&self, tool: Tool) -> bool {
        &&& self.actions@ == action_cells()
        &&& self.actions.format == plain()
        &&& self.tools@.len() == 2
        &&& self.tools@[0].tool == Tool::Plot
        &&& self.tools@[0].label@ == plot_cells()
        &&& self.tools@[0].label.format == entry_format(Tool::Plot, tool, self.highlight)
        &&& self.tools@[1].tool == Tool::Line
        &&& self.tools@[1].label@ == line_cells()
        &&& self.tools@[1].label.format == entry_format(Tool::Line, tool, self.highlight)
    }

    /// The text that draws the toolbar: the actions, then the tools in
    /// their order.
    pub open spec fn text(&self) -> Seq<char> {
        self.actions.stroke().text() + entries_text(self.tools@, self.tools@.len())
    }

    /// The toolbar with the freehand tool in use, highlighted black on
    /// white.
    pub fn new() -> (out: Self)
        ensures
            out.highlight == highlight(),
            out.shows(Tool::Plot),
    {
        ToolBar::with_highlight(Format::new(Color::White, Color::Black))
    }

    /// The toolbar with the freehand tool in use, highlighted in
    /// `highlight`.
    pub fn with_highlight(highlight: Format) -> (out: Self)
        ensures
            out.highlight == highlight,
            out.shows(Tool::Plot),
    {
        proof {
            lemma_literal_lengths();
        }
        let mut actions = short_label(1, 1, "Exit (q)");
        actions.append(&short_label(15, 1, "Clear (k)"));
        actions.append(&short_label(30, 1, "Undo (u)"));
        actions.append(&short_label(45, 1, "Save (Ctrl+s)"));
        let mut tools: Vec<ToolEntry> = Vec::new();
        tools.push(ToolEntry { tool: Tool::Plot, label: short_label(1, 2, "Plot (1)") });
        tools.push(ToolEntry { tool: Tool::Line, label: short_label(15, 2, "Line (2)") });
        let mut toolbar = Self { actions, tools, highlight };
        toolbar.highlight_tool(Tool::Plot);
        toolbar
    }

    /// Whether this toolbar is `before` with the highlight moved to the
    /// entry of `tool`: the same actions and the same entries, each entry
    /// in the highlight format if it is that of `tool`, else in the plain
    /// format.
    pub open spec fn relit(&self, before: &ToolBar, tool: Tool) -> bool {
        &&& self.highlight == before.highlight
        &&& self.actions == before.actions
        &&& self.tools@.len() == before.tools@.len()
        &&& forall|i: int|
            0 <= i < before.tools@.len() ==> {
                &&& (#[trigger] self.tools@[i]).tool == before.tools@[i].tool
                &&& self.tools@[i].label@ == before.tools@[i].label@
                &&& self.tools@[i].label.format == entry_format(
                    before.tools@[i].tool,
                    tool,
                    before.highlight,
                )
            }
    }

    /// Moves the highlight to the entry of `tool`; with a tool that has no
    /// entry, no entry is highlighted.
    pub fn highlight_tool(&mut self, tool: Tool)
        ensures
            final(self).relit(old(self), tool),
    {
        let n = self.tools.len();
        let mut i: usize = 0;
        while i < n
            invariant
                n == old(self).tools@.len(),
                self.tools@.len() == n,
                i <= n,
                self.highlight == old(self).highlight,
                self.actions == old(self).actions,
                forall|k: int|
                    0 <= k < i ==> {
                        &&& (#[trigger] self.tools@[k]).tool == old(self).tools@[k].tool
                        &&& self.tools@[k].label@ == old(self).tools@[k].label@
                        &&& self.tools@[k].label.format == entry_format(
                            old(self).tools@[k].tool,
                            tool,
                            old(self).highlight,
                        )
                    },
                forall|k: int| i <= k < n ==> self.tools@[k] == old(self).tools@[k],
            decreases n - i,
        {
            let entry_tool = self.tools[i].tool;
            let mut entry_label = self.tools[i].label.clone();
            if entry_tool == tool {
                entry_label.set_format(self.highlight);
            } else {
                entry_label.set_format(Format::default());
            }
            self.tools.set(i, ToolEntry { tool: entry_tool, label: entry_label });
            i = i + 1;
        }
    }

    /// Appends the text that draws the toolbar.
    pub fn render_into(&self, text: &mut String)
        ensures
            final(text)@ == old(text)@ + self.text(),
    {
        self.actions.render_into(text);
        let n = self.tools.len();
        let mut i: usize = 0;
        assert(text@ =~= old(text)@ + self.actions.stroke().text() + entries_text(self.tools@, 0));
        while i < n
            invariant
                n == self.tools@.len(),
                i <= n,
                text@ == old(text)@ + self.actions.stroke().text() + entries_text(
                    self.tools@,
                    i as nat,
                ),
            decreases n - i,
        {
            self.tools[i].label.render_into(text);
            assert(text@ =~= old(text)@ + self.actions.stroke().text() + entries_text(
                self.tools@,
                (i + 1) as nat,
            ));
            i = i + 1;
        }
        assert(text@ =~= old(text)@ + self.text());
    }

    /// The text that draws the toolbar.
    pub fn render(&self) -> (out: String)
        ensures
            out@ == self.text(),
    {
        let mut text = String::new();
        self.render_into(&mut text);
        assert(text@ =~= self.text());
        text
    }
}

/// Moving the highlight of a toolbar that is as it was built leaves it as
/// it was built, with the highlight on the entry of the new tool.
pub proof fn lemma_relit_shows(after: &ToolBar, before: &ToolBar, was: Tool, tool: Tool)
    requires
        before.shows(was),
        after.relit(before, tool),
    ensures
        after.shows(tool),
{
    assert(after.tools@[0].tool == before.tools@[0].tool);
    assert(after.tools@[1].tool == before.tools@[1].tool);
}

} // verus!
