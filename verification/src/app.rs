//! One sitting at the drawing surface: what each input event does to the
//! canvas, the toolbar and the name of the saved file, and what the
//! caller has to put on the screen or on disk after it.

use vstd::prelude::*;
use crate::canvas::{Canvas, Drawing, Tool};
use crate::export::{raster, timestamped, to_file, to_file_as, unify, Export, ExportError};
use crate::grid::{cells_text, label, Cell, CharSet, Point, Segment, Stroke};
use crate::menu::ToolBar;
use crate::path::{path, Tracer};
use crate::style::{plain, Color, Format};
use crate::terminal::{Event, KeyEvent, KeyModifier, MouseEvent};

verus! {

/// The options that a sitting starts with.
#[derive(Debug)]
pub struct Opts {
    pub char_set: CharSet,
}

impl Opts {
    pub fn new(char_set: CharSet) -> (out: Self)
        ensures
            out.char_set == char_set,
    {
        Self { char_set }
    }
}

/// What an input event asks for.
#[derive(Debug, Copy, Clone, PartialEq, Eq, Structural)]
pub enum Command {
    Quit,
    Undo,
    Clear,
    Save,
    Select(Tool),
    Pointer(MouseEvent),
    Ignore,
}

impl Command {
    /// The key bindings: `q` quits, `u` takes back the latest stroke, `k`
    /// clears the canvas, `s` with control saves, and a digit selects a
    /// tool. The first three count with any modifier.
    pub open spec fn bound_to(key: KeyEvent) -> Command {
        if key.char == 'q' {
            Command::Quit
        } else if key.char == 'u' {
            Command::Undo
        } else if key.char == 'k' {
            Command::Clear
        } else if key.char == 's' && key.modifier matches Some(KeyModifier::Ctrl) {
            Command::Save
        } else if '0' <= key.char <= '9' {
            Command::Select(Tool::of_key(key.char))
        } else {
            Command::Ignore
        }
    }

    /// What `event` asks for.
    pub open spec fn asked_by(event: Event) -> Command {
        match event {
            Event::Key(key) => Command::bound_to(key),
            Event::Mouse(mouse) => Command::Pointer(mouse),
        }
    }

    /// What the key asks for.
    pub fn of_key(key: KeyEvent) -> (out: Command)
        ensures
            out == Command::bound_to(key),
    {
        let with_control = match key.modifier {
            Some(KeyModifier::Ctrl) => true,
            None => false,
        };
        if key.char == 'q' {
            Command::Quit
        } else if key.char == 'u' {
            Command::Undo
        } else if key.char == 'k' {
            Command::Clear
        } else if key.char == 's' && with_control {
            Command::Save
        } else if '0' <= key.char && key.char <= '9' {
            Command::Select(Tool::for_key(key.char))
        } else {
            Command::Ignore
        }
    }

    /// What `event` asks for.
    pub fn of_event(event: Event) -> (out: Command)
        ensures
            out == Command::asked_by(event),
    {
        match event {
            Event::Key(key) => Command::of_key(key),
            Event::Mouse(mouse) => Command::Pointer(mouse),
        }
    }
}

/// What the caller has to do after an event, before it draws the next
/// frame.
#[derive(Debug)]
pub enum Action {
    /// End the sitting; no frame is drawn.
    Quit,
    /// Write this text, which wipes what the event removed; it may be
    /// empty.
    Write(String),
    /// Write this file.
    Save(Export),
    /// Write no file: there is nothing to save.
    Reject(ExportError),
}

/// Where the name of the saved file is shown.
pub open spec fn name_corner() -> Point {
    Point { x: 1, y: 300 }
}

/// The label that shows the name of the saved file: green on black.
pub open spec fn name_label(name: Seq<char>) -> Stroke {
    Stroke {
        cells: label(name_corner(), vstd::utf8::encode_utf8(name)),
        format: Format { bg_color: Color::Black, fg_color: Color::Green },
    }
}

/// The state of one sitting.
pub struct Session {
    pub canvas: Canvas<Tracer>,
    pub toolbar: ToolBar,
    pub file_name: Option<String>,
    pub file_name_print: Segment,
}

impl Session {
    /// Whether the toolbar highlights the tool that the canvas draws with.
    pub open spec fn wf(&self) -> bool {
        self.toolbar.shows(self.canvas@.tool)
    }

    /// The name under which a save at `millis` milliseconds of Unix time
    /// writes the file: the name of the first save, once there was one.
    pub open spec fn save_name(&self, millis: u128) -> Seq<char> {
        match self.file_name {
            Some(name) => name@,
            None => timestamped(millis),
        }
    }

    /// What the canvas holds after `command`.
    pub open spec fn drawing_after(&self, command: Command) -> Drawing {
        match command {
            Command::Pointer(mouse) => self.canvas@.apply(
                mouse,
                path(self.canvas.cursor, mouse.pos, self.canvas.brush.char_set),
            ),
            Command::Undo => self.canvas@.undo(),
            Command::Clear => self.canvas@.clear(),
            Command::Select(tool) => Drawing { tool, ..self.canvas@ },
            _ => self.canvas@,
        }
    }

    /// What `command` wipes off the screen.
    pub open spec fn wipes(&self, command: Command) -> Seq<Cell> {
        match command {
            Command::Pointer(mouse) => self.canvas@.wipes(mouse),
            Command::Undo => self.canvas@.undo_wipes(),
            Command::Clear => self.canvas@.clear_wipes(),
            _ => Seq::empty(),
        }
    }

    /// Whether `command` writes a file: it is a save, and some finished
    /// stroke holds a cell.
    pub open spec fn saves(&self, command: Command) -> bool {
        command == Command::Save && self.canvas@.blueprint().len() > 0
    }

    /// The text of one frame: the drawing, the toolbar over it, and the
    /// name of the saved file.
    pub open spec fn frame_text(&self) -> Seq<char> {
        self.canvas@.frame() + self.toolbar.text() + self.file_name_print.stroke().text()
    }

    /// A sitting that begins with an empty canvas, the freehand tool and no
    /// saved file.
    pub fn new(opts: Opts) -> (out: Self)
        ensures
            out.wf(),
            out.canvas@ == crate::canvas::blank_canvas(crate::canvas::TOOLBAR_BOUNDARY),
            out.canvas.brush.char_set == opts.char_set,
            out.toolbar.highlight == crate::menu::highlight(),
            out.file_name.is_none(),
            out.file_name_print.stroke() == (Stroke { cells: Seq::empty(), format: plain() }),
    {
        Session {
            canvas: Canvas::new(Tracer::new(opts.char_set)),
            toolbar: ToolBar::new(),
            file_name: None,
            file_name_print: Segment::new(),
        }
    }

    /// Takes one input event. `millis` is the time of the event in
    /// milliseconds of Unix time; it names the file of a first save.
    pub fn handle(&mut self, event: Event, millis: u128) -> (out: Action)
        ensures
            old(self).wf() ==> final(self).wf(),
            final(self).canvas@ == old(self).drawing_after(Command::asked_by(event)),
            final(self).canvas.brush == old(self).canvas.brush,
            match Command::asked_by(event) {
                Command::Select(tool) => final(self).toolbar.relit(&old(self).toolbar, tool),
                _ => final(self).toolbar == old(self).toolbar,
            },
            match Command::asked_by(event) {
                Command::Quit => out is Quit,
                Command::Save => if old(self).saves(Command::Save) {
                    &&& out is Save
                    &&& out->Save_0.file_name@ == old(self).save_name(millis)
                    &&& out->Save_0.content@ == raster(old(self).canvas@.blueprint())
                } else {
                    out == Action::Reject(ExportError::EmptyDesign)
                },
                command => out is Write && out->Write_0@ == cells_text(old(self).wipes(command)),
            },
            old(self).saves(Command::asked_by(event)) ==> final(self).file_name.is_some()
                && final(self).file_name.unwrap()@ == old(self).save_name(millis),
            !old(self).saves(Command::asked_by(event)) ==> final(self).file_name == old(
                self,
            ).file_name,
            old(self).saves(Command::asked_by(event)) && old(self).file_name.is_none()
                ==> final(self).file_name_print.stroke() == name_label(timestamped(millis)),
            !(old(self).saves(Command::asked_by(event)) && old(self).file_name.is_none())
                ==> final(self).file_name_print == old(self).file_name_print,
    {
        match Command::of_event(event) {
            Command::Quit => Action::Quit,
            Command::Undo => Action::Write(self.canvas.undo()),
            Command::Clear => Action::Write(self.canvas.clear()),
            Command::Pointer(mouse) => Action::Write(self.canvas.update(mouse)),
            Command::Ignore => Action::Write(String::new()),
            Command::Select(tool) => {
                self.canvas.alt_style(tool);
                self.toolbar.highlight_tool(tool);
                proof {
                    if old(self).wf() {
                        crate::menu::lemma_relit_shows(
                            &self.toolbar,
                            &old(self).toolbar,
                            old(self).canvas@.tool,
                            tool,
                        );
                    }
                }
                Action::Write(String::new())
            },
            Command::Save => {
                let blueprint = unify(&self.canvas.base);
                assert(crate::export::strokes_of(self.canvas.base@) =~= crate::canvas::cells_of(
                    self.canvas@.committed,
                ));
                if self.file_name.is_some() {
                    let name = self.file_name.as_ref().unwrap();
                    match to_file_as(&blueprint, name.as_str()) {
                        Ok(export) => Action::Save(export),
                        Err(error) => Action::Reject(error),
                    }
                } else {
                    match to_file(&blueprint, millis) {
                        Ok(export) => {
                            let name = export.file_name.clone();
                            proof {
                                crate::export::lemma_timestamped_ascii(millis);
                                vstd::utf8::is_ascii_chars_encode_utf8(name@);
                            }
                            self.file_name_print = Segment::from_str(
                                Point::new(1, 300),
                                name.as_str(),
                                Format::new(Color::Black, Color::Green),
                            );
                            self.file_name = Some(name);
                            Action::Save(export)
                        },
                        Err(error) => Action::Reject(error),
                    }
                }
            },
        }
    }

    /// The text of one frame.
    pub fn frame(&self) -> (out: String)
        ensures
            out@ == self.frame_text(),
    {
        let mut text = self.canvas.draw();
        self.toolbar.render_into(&mut text);
        self.file_name_print.render_into(&mut text);
        text
    }
}

} // verus!
