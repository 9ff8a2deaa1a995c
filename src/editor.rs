//! The editor: its tabs, the input line, and the state machine that turns input events into
//! tasks and carries them out.
use vstd::prelude::*;

use crate::common::{Event, Key, MouseButton, MouseEvent, Position, Size, Task};
use crate::config::Config;
use crate::doc::{
    command_input_step, content_of, down_of, key_step, split_lines, text_of, up_of, Doc,
    TaskPending,
};
use crate::status_line::{input_key_step, InputStatus, Status, StatusLine};
use crate::style::{faint, faint_code, reset, reset_code};
use crate::text::{blanks, decimal, spaces, to_decimal};

verus! {

/// The component that has the focus where the screen is shared.
#[derive(Clone, Copy, Debug, PartialEq, Eq, Structural)]
pub enum FocusComponent {
    Doc,
    FileTree,
}

/// What the screen shows. Only the document view is implemented; the other views are kept
/// for a file tree panel, and an editor in them is not well formed.
#[derive(Clone, Copy, Debug, PartialEq, Eq, Structural)]
pub enum ViewMode {
    Doc,
    FileTree,
    Both(FocusComponent),
}

/// What the program around the editor has to do after an event.
#[derive(Debug, PartialEq, Eq)]
pub enum Action {
    /// Draw the next frame and wait for the next event.
    Continue,
    /// Leave.
    Quit,
    /// Write the contents (second) to the file at the path (first), then report the outcome
    /// with `finish_save`.
    Write(String, String),
    /// Read the file at the path, then hand its contents to `open_document`.
    Read(String),
}

pub struct Editor {
    pub active_doc: usize,
    pub config: Config,
    /// Where the terminal cursor goes, from 1, as last computed by a render.
    pub cursor_pos: Position,
    pub docs: Vec<Doc>,
    /// Keys go to the input line rather than to the document.
    pub status_input_active: bool,
    pub status_line: StatusLine,
    pub view: ViewMode,
}

impl Editor {
    /// At least one tab, the active one among them, every document valid, the input-line
    /// flag mirroring whether the line collects, and a collection only on behalf of the
    /// active document that waits for it.
    pub open spec fn wf(&self) -> bool {
        &&& self.docs@.len() > 0
        &&& self.active_doc < self.docs@.len()
        &&& forall|i: int| 0 <= i < self.docs@.len() ==> (#[trigger] self.docs@[i]).wf()
        &&& self.status_line.wf()
        &&& self.status_input_active == self.status_line.collecting()
        &&& self.status_input_active ==> self.active().task_pending != TaskPending::Nothing
        &&& self.view == ViewMode::Doc
    }

    pub open spec fn active(&self) -> Doc {
        self.docs@[self.active_doc as int]
    }

    /// The active document is now `d`; nothing else changed.
    pub open spec fn with_active(self, d: Doc, new: Editor) -> bool {
        &&& new.docs@ == self.docs@.update(self.active_doc as int, d)
        &&& new == (Editor { docs: new.docs, ..self })
    }

    /// Only the input line and its flag may differ.
    pub open spec fn same_but_input(self, new: Editor) -> bool {
        new == (Editor {
            status_line: new.status_line,
            status_input_active: new.status_input_active,
            ..self
        })
    }
}

/// What a key does to the editor `e`: while a line is collected it goes to the input line,
/// and a finished line goes to the document that asked for it; otherwise it goes to the
/// active document. `t` is the task that follows.
pub open spec fn key_event_step(e: Editor, key: Key, new: Editor, t: Task) -> bool {
    if e.status_input_active {
        match key {
            Key::Esc => {
                &&& e.same_but_input(new)
                &&& !new.status_input_active
                &&& !new.status_line.collecting()
                &&& new.status_line.shown() == e.status_line.shown()
                &&& t matches Task::SetCommand(m) && m@ == "Cancelled"@
            },
            Key::Char('\n') => {
                &&& command_input_step(e.active(), e.status_line.input(), new.active(), t)
                &&& e.with_active(
                    new.active(),
                    Editor {
                        status_line: e.status_line,
                        status_input_active: e.status_input_active,
                        ..new
                    },
                )
                &&& !new.status_input_active
                &&& !new.status_line.collecting()
                &&& new.status_line.shown() == e.status_line.shown()
            },
            _ => {
                &&& e.same_but_input(new)
                &&& new.status_input_active
                &&& input_key_step(e.status_line, key, new.status_line, InputStatus::Processing)
                &&& t == Task::Nothing
            },
        }
    } else {
        key_step(e.active(), key, new.active(), t) && e.with_active(new.active(), new)
    }
}

/// What a mouse event does: the wheel moves the active document's cursor up or down.
pub open spec fn mouse_event_step(e: Editor, m: MouseEvent, new: Editor) -> bool {
    &&& e.with_active(new.active(), new)
    &&& new.active() == match m {
        MouseEvent::Press(MouseButton::WheelUp) => e.active().with_cursor(
            up_of(e.active().text(), e.active().cursor_pos),
        ),
        MouseEvent::Press(MouseButton::WheelDown) => e.active().with_cursor(
            down_of(e.active().text(), e.active().cursor_pos),
        ),
        _ => e.active(),
    }
}

/// What carrying out the task `t` does to the editor `e`, and what is left for the program
/// around it to do.
pub open spec fn task_step(e: Editor, t: Task, new: Editor, a: Action) -> bool {
    let n = e.docs@.len();
    let i = e.active_doc;
    match t {
        Task::SetCommand(text) => {
            &&& e.same_but_input(new)
            &&& new.status_line.status == Status::Still(text)
            &&& new.status_line.cursor == e.status_line.cursor
            &&& !new.status_input_active
            &&& a is Continue
        },
        Task::AskInput(prompt) => {
            &&& e.same_but_input(new)
            &&& new.status_line.status matches Status::Input(p, s) && p == prompt && s@.len() == 0
            &&& new.status_line.cursor == 0
            &&& new.status_input_active
            &&& a is Continue
        },
        Task::Nothing => new == e && a is Continue,
        Task::NewDoc => {
            &&& new.docs@.len() == n + 1
            &&& new.docs@.take(n as int) == e.docs@
            &&& new.docs@[n as int].is_fresh()
            &&& new == (Editor { docs: new.docs, active_doc: n as usize, ..e })
            &&& a is Continue
        },
        Task::OpenDoc(path) => new == e && a == Action::Read(path),
        Task::SaveFile(path) => {
            &&& new == e
            &&& a matches Action::Write(p, c) && p == path && c@ == content_of(e.active().text())
        },
        Task::NextTab => {
            &&& new == (Editor {
                active_doc: if i + 1 < n {
                    (i + 1) as usize
                } else {
                    0
                },
                ..e
            })
            &&& a is Continue
        },
        Task::PrevTab => {
            &&& new == (Editor {
                active_doc: if i == 0 {
                    (n - 1) as usize
                } else {
                    (i - 1) as usize
                },
                ..e
            })
            &&& a is Continue
        },
        Task::CloseCurrentTab => {
            &&& if n > 1 {
                &&& new.docs@ == e.docs@.remove(i as int)
                &&& new == (Editor {
                    docs: new.docs,
                    active_doc: if i > 0 {
                        (i - 1) as usize
                    } else {
                        0
                    },
                    ..e
                })
            } else {
                &&& new.active().command_status@ == "Can't close the last tab"@
                &&& e.with_active(
                    Doc { command_status: new.active().command_status, ..e.active() },
                    new,
                )
            }
            &&& a is Continue
        },
    }
}

/// What an input event does to the editor `e`. Ctrl-Q quits from any state; another key or a
/// mouse event is handled, and the task that follows is carried out.
pub open spec fn event_step(e: Editor, event: Event, new: Editor, a: Action) -> bool {
    match event {
        Event::Key(Key::Ctrl('q')) => new == e && a is Quit,
        Event::Key(key) => exists|mid: Editor, t: Task|
            #[trigger] key_event_step(e, key, mid, t) && task_step(mid, t, new, a),
        Event::Mouse(m) => mouse_event_step(e, m, new) && a is Continue,
        Event::Unsupported => new == e && a is Continue,
    }
}

/// The tab of `d` in the header; tabs other than the active one are faint.
pub open spec fn tab_text(d: Doc, is_active: bool) -> Seq<char> {
    if is_active {
        " "@ + d.title() + " |"@
    } else {
        " "@ + faint_code() + d.title() + " |"@ + reset_code()
    }
}

/// The header: the tabs of `docs` side by side.
pub open spec fn tabs_text(docs: Seq<Doc>, active: int) -> Seq<char>
    decreases docs.len(),
{
    if docs.len() == 0 {
        Seq::empty()
    } else {
        tabs_text(docs.drop_last(), active) + tab_text(docs.last(), docs.len() - 1 == active)
    }
}

/// The part of a terminal of size `term` left to the document: all but the header, the
/// status row and the input line.
pub open spec fn doc_area(term: Size) -> Size {
    Size {
        height: if term.height > 3 {
            (term.height - 3) as usize
        } else {
            0
        },
        width: term.width,
    }
}

/// `n` filler rows below the end of a document.
pub open spec fn filler(n: nat) -> Seq<Seq<char>> {
    Seq::new(n, |i: int| "~"@)
}

/// Where the cursor of `d` stands: `row/lines | column`, from 1 for the row.
pub open spec fn position_text(d: Doc) -> Seq<char> {
    decimal((d.cursor_pos.row + 1) as nat) + "/"@ + decimal(d.lines@.len()) + " | "@ + decimal(
        d.cursor_pos.col as nat,
    )
}

/// The status row: the cursor's position, right-aligned one cell before the edge.
pub open spec fn status_row(d: Doc, width: nat) -> Seq<char> {
    let p = position_text(d);
    blanks(
        if width > p.len() + 1 {
            (width - p.len() - 1) as nat
        } else {
            0
        },
    ) + p
}

/// `x`, or the largest `usize` where `x` is larger.
pub open spec fn capped(x: int) -> usize {
    if x <= usize::MAX {
        x as usize
    } else {
        usize::MAX
    }
}

/// The terminal cell of the cursor, from 1: in the input line while it collects, else at
/// the active document's cursor, below the header and right of the line numbers.
pub open spec fn screen_cursor(e: Editor, term: Size) -> Position {
    if e.status_input_active {
        Position {
            row: term.height,
            col: capped(e.status_line.prompt().len() + 2 + e.status_line.cursor + 1),
        }
    } else {
        doc_cursor_cell(e)
    }
}

/// The terminal cell, from 1, of the active document's cursor: below the header, right of
/// the line numbers and their padding, relative to the viewport.
pub open spec fn doc_cursor_cell(e: Editor) -> Position {
    let d = e.active();
    Position {
        row: capped(1 + (d.cursor_pos.row - d.offset.row) + 1),
        col: capped(
            d.gutter_width() + e.config.general.line_number_padding_right + (d.cursor_pos.col
                - d.offset.col) + 1,
        ),
    }
}

/// The rows separated by `"\r\n"`.
pub open spec fn joined(rows: Seq<Seq<char>>) -> Seq<char>
    decreases rows.len(),
{
    if rows.len() == 0 {
        Seq::empty()
    } else if rows.len() == 1 {
        rows[0]
    } else {
        joined(rows.drop_last()) + "\r\n"@ + rows.last()
    }
}

/// The rows separated by `"\r\n"`, as one string.
pub fn join_rows(rows: &Vec<String>) -> (r: String)
    ensures
        r@ == joined(text_of(rows@)),
{
    let mut r = String::new();
    let mut i: usize = 0;
    while i < rows.len()
        invariant
            i <= rows@.len(),
            r@ == joined(text_of(rows@).take(i as int)),
        decreases rows@.len() - i,
    {
        if i > 0 {
            r.append("\r\n");
        }
        r.append(rows[i].as_str());
        proof {
            let t = text_of(rows@).take(i + 1);
            assert(t.drop_last() =~= text_of(rows@).take(i as int));
            if i == 0 {
                assert(t.len() == 1);
            }
        }
        i = i + 1;
    }
    assert(text_of(rows@).take(i as int) =~= text_of(rows@));
    r
}

impl Editor {
    /// The rows of the frame that a render of the editor `self` draws on a terminal of size
    /// `term`, top to bottom.
    pub open spec fn frame_rows(self, term: Size) -> Seq<Seq<char>> {
        let area = doc_area(term);
        let d = self.active();
        let body = d.render_rows(area, self.config);
        let input_row = if self.status_input_active {
            self.status_line.shown()
        } else {
            d.command_status@
        };
        seq![tabs_text(self.docs@, self.active_doc as int)] + body + filler(
            (area.height - body.len()) as nat,
        ) + seq![status_row(d.after_render(area, self.config), term.width as nat), input_row]
    }
}

impl Editor {
    /// An editor with one tab. Without `file_path` it is a new untitled document. With one,
    /// `contents` is what that file holds (`None` where it could not be read): the file's
    /// lines, or else a new empty document that will be saved there.
    pub fn new(config: Config, file_path: Option<String>, contents: Option<String>) -> (e: Self)
        ensures
            e.wf(),
            e.docs@.len() == 1,
            e.active_doc == 0,
            e.config == config,
            !e.status_input_active,
            file_path is None ==> e.docs@[0].is_fresh(),
            file_path matches Some(p) ==> {
                let d = e.docs@[0];
                &&& d.file_path == Some(p)
                &&& d.cursor_pos == (Position { row: 0, col: 0 })
                &&& d.offset == (Position { row: 0, col: 0 })
                &&& d.task_pending == TaskPending::Nothing
                &&& contents matches Some(c) ==> d.text() == split_lines(c@)
                    && d.command_status@ == "File loaded successfully"@
                &&& contents is None ==> d.text() == seq![Seq::<char>::empty()]
                    && d.command_status@ == "New named doc created"@
            },
    {
        let doc = match file_path {
            Some(path) => match Doc::open(path.clone(), contents) {
                Some(doc) => doc,
                None => {
                    let mut doc = Doc::new();
                    doc.set_file_path(path);
                    doc.set_command_status(String::from_str("New named doc created"));
                    doc
                },
            },
            None => Doc::new(),
        };
        let mut docs: Vec<Doc> = Vec::new();
        docs.push(doc);
        Editor {
            docs,
            active_doc: 0,
            config,
            cursor_pos: Position { row: 1, col: 1 },
            status_input_active: false,
            view: ViewMode::Doc,
            status_line: StatusLine::new(),
        }
    }

    /// Hands the finished line to the active document, which asked for it.
    pub fn process_command_event(&mut self, input: String) -> (t: Task)
        requires
            old(self).wf(),
            old(self).active().task_pending != TaskPending::Nothing,
        ensures
            command_input_step(old(self).active(), input@, final(self).active(), t),
            old(self).with_active(final(self).active(), *final(self)),
    {
        let i = self.active_doc;
        let mut doc = self.docs.remove(i);
        let t = doc.process_command_input(input);
        self.docs.insert(i, doc);
        assert(self.docs@ =~= old(self).docs@.update(i as int, doc));
        t
    }

    /// Routes a key to the input line while it collects, else to the active document.
    pub fn process_key_event(&mut self, key: Key) -> (t: Task)
        requires
            old(self).wf(),
        ensures
            final(self).wf(),
            key_event_step(*old(self), key, *final(self), t),
    {
        if self.status_input_active {
            let command = self.status_line.process_key(&key);
            match command {
                InputStatus::Processing => Task::Nothing,
                InputStatus::Cancelled => {
                    self.status_input_active = false;
                    Task::SetCommand(String::from_str("Cancelled"))
                },
                InputStatus::Done(input) => {
                    self.status_input_active = false;
                    self.process_command_event(input)
                },
            }
        } else {
            let i = self.active_doc;
            let mut doc = self.docs.remove(i);
            let t = doc.process_key(&key);
            self.docs.insert(i, doc);
            assert(self.docs@ =~= old(self).docs@.update(i as int, doc));
            t
        }
    }

    /// Routes a mouse event to the active document.
    pub fn process_mouse_event(&mut self, mouse_event: MouseEvent) -> (t: Task)
        requires
            old(self).wf(),
        ensures
            final(self).wf(),
            mouse_event_step(*old(self), mouse_event, *final(self)),
            t == Task::Nothing,
    {
        let i = self.active_doc;
        let mut doc = self.docs.remove(i);
        doc.process_mouse_event(&mouse_event);
        self.docs.insert(i, doc);
        assert(self.docs@ =~= old(self).docs@.update(i as int, doc));
        assert(old(self).docs@[i as int].wf());
        Task::Nothing
    }

    /// Shows `text` on the input line, ending any collection.
    pub fn process_set_command(&mut self, text: String)
        ensures
            old(self).same_but_input(*final(self)),
            final(self).status_line.status == Status::Still(text),
            final(self).status_line.cursor == old(self).status_line.cursor,
            !final(self).status_input_active,
    {
        self.status_line.set_status(text);
        self.status_input_active = false;
    }

    /// Starts collecting a line behind `prefix`.
    pub fn ask_input(&mut self, prefix: String)
        ensures
            old(self).same_but_input(*final(self)),
            final(self).status_line.status matches Status::Input(p, s) && p == prefix && s@.len()
                == 0,
            final(self).status_line.cursor == 0,
            final(self).status_input_active,
    {
        self.status_line.take_input(prefix);
        self.status_input_active = true;
    }

    /// Opens a new untitled document in a new tab and focuses it.
    pub fn new_document(&mut self)
        requires
            old(self).wf(),
        ensures
            forall|k: int| 0 <= k < final(self).docs@.len() ==> (#[trigger] final(self).docs@[k]).wf(),
            final(self).docs@.len() == old(self).docs@.len() + 1,
            final(self).docs@.take(old(self).docs@.len() as int) == old(self).docs@,
            final(self).docs@.last().is_fresh(),
            *final(self) == (Editor {
                docs: final(self).docs,
                active_doc: old(self).docs@.len() as usize,
                ..*old(self)
            }),
    {
        let n = self.docs.len();
        self.docs.push(Doc::new());
        assert(self.docs@.take(n as int) =~= old(self).docs@);
        assert forall|k: int| 0 <= k < self.docs@.len() implies (#[trigger] self.docs@[k]).wf() by {
            if k < n {
                assert(self.docs@[k] == old(self).docs@[k]);
            }
        }
        self.active_doc = n;
    }

    /// Carries out `t`. Writing and reading files is left to the caller, as the action says.
    pub fn process_task(&mut self, t: Task) -> (a: Action)
        requires
            old(self).wf(),
            old(self).status_input_active ==> t == Task::Nothing,
            t is AskInput ==> old(self).active().task_pending != TaskPending::Nothing,
        ensures
            final(self).wf(),
            task_step(*old(self), t, *final(self), a),
    {
        match t {
            Task::SetCommand(text) => {
                self.process_set_command(text);
                Action::Continue
            },
            Task::AskInput(prefix) => {
                self.ask_input(prefix);
                Action::Continue
            },
            Task::Nothing => Action::Continue,
            Task::NewDoc => {
                self.new_document();
                Action::Continue
            },
            Task::OpenDoc(path) => Action::Read(path),
            Task::SaveFile(path) => {
                let content = self.docs[self.active_doc].get_doc_content();
                Action::Write(path, content)
            },
            Task::NextTab => {
                if self.active_doc < self.docs.len() - 1 {
                    self.active_doc = self.active_doc + 1;
                } else {
                    self.active_doc = 0;
                }
                Action::Continue
            },
            Task::PrevTab => {
                if self.active_doc == 0 {
                    self.active_doc = self.docs.len() - 1;
                } else {
                    self.active_doc = self.active_doc - 1;
                }
                Action::Continue
            },
            Task::CloseCurrentTab => {
                let i = self.active_doc;
                if self.docs.len() > 1 && self.docs[i].can_close() {
                    self.docs.remove(i);
                    assert forall|k: int| 0 <= k < self.docs@.len() implies (
                    #[trigger] self.docs@[k]).wf() by {
                        if k >= i {
                            assert(self.docs@[k] == old(self).docs@[k + 1]);
                        }
                    }
                    if i > 0 {
                        self.active_doc = i - 1;
                    }
                } else {
                    let mut doc = self.docs.remove(i);
                    doc.set_command_status(String::from_str("Can't close the last tab"));
                    self.docs.insert(i, doc);
                    assert(self.docs@ =~= old(self).docs@.update(i as int, doc));
                    assert(old(self).docs@[i as int].wf());
                }
                Action::Continue
            },
        }
    }

    /// Handles one input event: the decision part of the editor's event loop.
    pub fn handle_event(&mut self, event: Event) -> (a: Action)
        requires
            old(self).wf(),
        ensures
            final(self).wf(),
            event_step(*old(self), event, *final(self), a),
    {
        match event {
            Event::Key(Key::Ctrl('q')) => Action::Quit,
            Event::Key(key) => {
                let t = self.process_key_event(key);
                let ghost mid = *self;
                let ghost task = t;
                let a = self.process_task(t);
                assert(key_event_step(*old(self), key, mid, task) && task_step(
                    mid,
                    task,
                    *self,
                    a,
                ));
                a
            },
            Event::Mouse(mouse_event) => {
                let t = self.process_mouse_event(mouse_event);
                self.process_task(t)
            },
            Event::Unsupported => Action::Continue,
        }
    }

    /// Reports how the write that `Action::Write` asked for ended: the active document
    /// records it, and a successful save is announced on the input line.
    pub fn finish_save(&mut self, path: String, outcome: Result<(), String>) -> (a: Action)
        requires
            old(self).wf(),
            !old(self).status_input_active,
        ensures
            final(self).wf(),
            a is Continue,
            final(self).docs@.len() == old(self).docs@.len(),
            final(self).active_doc == old(self).active_doc,
            forall|k: int|
                0 <= k < old(self).docs@.len() && k != old(self).active_doc ==> final(self).docs@[k]
                    == old(self).docs@[k],
            final(self).active() == (Doc {
                command_status: final(self).active().command_status,
                ..old(self).active()
            }),
            outcome is Ok ==> final(self).active().command_status@ == "File saved: "@ + path@
                && (final(self).status_line.status matches Status::Still(m) && m@
                == final(self).active().command_status@),
            outcome matches Err(e) ==> final(self).active().command_status@
                == "Unable to save file: "@ + e@ && final(self).status_line
                == old(self).status_line,
    {
        let i = self.active_doc;
        let mut doc = self.docs.remove(i);
        let t = doc.finish_save(path.as_str(), outcome);
        self.docs.insert(i, doc);
        assert(self.docs@ =~= old(self).docs@.update(i as int, doc));
        assert(old(self).docs@[i as int].wf());
        self.process_task(t)
    }

    /// Hands over what the read that `Action::Read` asked for gave: the file's contents open
    /// in a new tab that gets the focus; where the file could not be read, the active
    /// document says so.
    pub fn open_document(&mut self, path: String, contents: Option<String>) -> (a: Action)
        requires
            old(self).wf(),
            !old(self).status_input_active,
        ensures
            final(self).wf(),
            a is Continue,
            contents matches Some(c) ==> {
                let n = old(self).docs@.len();
                let d = final(self).docs@[n as int];
                &&& final(self).docs@.len() == n + 1
                &&& final(self).docs@.take(n as int) == old(self).docs@
                &&& *final(self) == (Editor {
                    docs: final(self).docs,
                    active_doc: n as usize,
                    ..*old(self)
                })
                &&& d.text() == split_lines(c@)
                &&& d.cursor_pos == (Position { row: 0, col: 0 })
                &&& d.offset == (Position { row: 0, col: 0 })
                &&& d.file_path == Some(path)
                &&& d.task_pending == TaskPending::Nothing
            },
            contents is None ==> final(self).active().command_status@ == "File not found: "@
                + path@ && old(self).with_active(
                Doc { command_status: final(self).active().command_status, ..old(self).active() },
                *final(self),
            ),
    {
        let mut message = String::from_str("File not found: ");
        message.append(path.as_str());
        match Doc::open(path, contents) {
            Some(doc) => {
                let n = self.docs.len();
                self.docs.push(doc);
                assert(self.docs@.take(n as int) =~= old(self).docs@);
                assert forall|k: int| 0 <= k < self.docs@.len() implies (
                #[trigger] self.docs@[k]).wf() by {
                    if k < n {
                        assert(self.docs@[k] == old(self).docs@[k]);
                    }
                }
                self.active_doc = n;
            },
            None => {
                let i = self.active_doc;
                let mut doc = self.docs.remove(i);
                doc.set_command_status(message);
                self.docs.insert(i, doc);
                assert(self.docs@ =~= old(self).docs@.update(i as int, doc));
                assert(old(self).docs@[i as int].wf());
            },
        }
        Action::Continue
    }

    /// The header: one tab per document.
    pub fn render_doc_tabs(&self) -> (tabs: String)
        ensures
            tabs@ == tabs_text(self.docs@, self.active_doc as int),
    {
        let mut tabs = String::new();
        let mut i: usize = 0;
        while i < self.docs.len()
            invariant
                i <= self.docs@.len(),
                tabs@ == tabs_text(self.docs@.take(i as int), self.active_doc as int),
            decreases self.docs@.len() - i,
        {
            let title = self.docs[i].get_title();
            tabs.append(" ");
            if i == self.active_doc {
                tabs.append(title.as_str());
                tabs.append(" |");
            } else {
                let dim = faint();
                tabs.append(dim.as_str());
                tabs.append(title.as_str());
                tabs.append(" |");
                let plain = reset();
                tabs.append(plain.as_str());
            }
            proof {
                let t = self.docs@.take(i + 1);
                assert(t.drop_last() =~= self.docs@.take(i as int));
            }
            i = i + 1;
        }
        assert(self.docs@.take(i as int) =~= self.docs@);
        tabs
    }

    pub fn render_header(&self) -> (header: String)
        ensures
            header@ == tabs_text(self.docs@, self.active_doc as int),
    {
        self.render_doc_tabs()
    }

    /// Renders the active document in `size`, with filler rows below its end.
    pub fn render_doc(&mut self, size: Size) -> (frame: Vec<String>)
        requires
            old(self).wf(),
        ensures
            final(self).wf(),
            old(self).with_active(old(self).active().after_render(size, old(self).config), *final(self)),
            text_of(frame@) == old(self).active().render_rows(size, old(self).config) + filler(
                (size.height - old(self).active().rows_to_render(size)) as nat,
            ),
    {
        let i = self.active_doc;
        let mut doc = self.docs.remove(i);
        let mut frame = doc.render(&size, &self.config);
        self.docs.insert(i, doc);
        assert(self.docs@ =~= old(self).docs@.update(i as int, doc));
        assert(old(self).docs@[i as int].wf());
        let ghost rows = text_of(frame@);
        let ghost n = frame@.len();
        assert(rows.len() == n);
        assert(rows =~= rows + filler(0));
        while frame.len() < size.height
            invariant
                n <= frame@.len() <= size.height,
                rows.len() == n,
                text_of(frame@) == rows + filler((frame@.len() - n) as nat),
            decreases size.height - frame@.len(),
        {
            let ghost prev = text_of(frame@);
            let ghost k = (frame@.len() - n) as nat;
            frame.push(String::from_str("~"));
            assert(text_of(frame@) =~= prev.push("~"@));
            assert(rows + filler(k + 1) =~= (rows + filler(k)).push("~"@));
        }
        frame
    }

    /// The document view: the terminal without its header, status row and input line.
    pub fn render_doc_view(&mut self, term: &Size) -> (frame: Vec<String>)
        requires
            old(self).wf(),
        ensures
            final(self).wf(),
            old(self).with_active(
                old(self).active().after_render(doc_area(*term), old(self).config),
                *final(self),
            ),
            text_of(frame@) == old(self).active().render_rows(doc_area(*term), old(self).config)
                + filler(
                (doc_area(*term).height - old(self).active().rows_to_render(
                    doc_area(*term),
                )) as nat,
            ),
    {
        let height = if term.height > 3 {
            term.height - 3
        } else {
            0
        };
        self.render_doc(Size { height, width: term.width })
    }

    /// The rows between the header and the status row.
    pub fn get_sub_frame(&mut self, term: &Size) -> (frame: Vec<String>)
        requires
            old(self).wf(),
        ensures
            final(self).wf(),
            old(self).with_active(
                old(self).active().after_render(doc_area(*term), old(self).config),
                *final(self),
            ),
            text_of(frame@) == old(self).active().render_rows(doc_area(*term), old(self).config)
                + filler(
                (doc_area(*term).height - old(self).active().rows_to_render(
                    doc_area(*term),
                )) as nat,
            ),
    {
        self.render_doc_view(term)
    }

    /// Puts the terminal cursor at the active document's cursor.
    pub fn update_cursor_from_curr_doc(&mut self)
        requires
            old(self).wf(),
            !old(self).status_input_active,
            old(self).active().offset.row <= old(self).active().cursor_pos.row,
            old(self).active().offset.col <= old(self).active().cursor_pos.col,
        ensures
            *final(self) == (Editor { cursor_pos: final(self).cursor_pos, ..*old(self) }),
            final(self).cursor_pos == doc_cursor_cell(*old(self)),
    {
        let doc = &self.docs[self.active_doc];
        let col_offset = doc.get_line_number_length().saturating_add(
            self.config.general.line_number_padding_right,
        );
        let row_offset: usize = 1;
        self.cursor_pos = Position {
            row: row_offset.saturating_add(doc.cursor_pos.row - doc.offset.row).saturating_add(1),
            col: col_offset.saturating_add(doc.cursor_pos.col - doc.offset.col).saturating_add(1),
        };
    }

    /// Puts the terminal cursor at the input line's edit cursor, on the bottom row.
    pub fn update_cursor_from_command_line(&mut self, term: &Size)
        requires
            old(self).wf(),
            old(self).status_input_active,
        ensures
            *final(self) == (Editor { cursor_pos: final(self).cursor_pos, ..*old(self) }),
            final(self).cursor_pos == screen_cursor(*old(self), *term),
    {
        self.cursor_pos = Position {
            row: term.height,
            col: self.status_line.get_cursor_with_prefix(),
        };
    }

    /// Recomputes where the terminal cursor goes.
    pub fn update_cursor_pos(&mut self, term: &Size)
        requires
            old(self).wf(),
            old(self).active().offset.row <= old(self).active().cursor_pos.row,
            old(self).active().offset.col <= old(self).active().cursor_pos.col,
        ensures
            *final(self) == (Editor { cursor_pos: final(self).cursor_pos, ..*old(self) }),
            final(self).cursor_pos == screen_cursor(*old(self), *term),
    {
        if self.status_input_active {
            self.update_cursor_from_command_line(term);
        } else {
            self.update_cursor_from_curr_doc();
        }
    }

    /// The status row; it also recomputes where the terminal cursor goes.
    pub fn render_status_line(&mut self, term: &Size) -> (row: String)
        requires
            old(self).wf(),
            old(self).active().offset.row <= old(self).active().cursor_pos.row,
            old(self).active().offset.col <= old(self).active().cursor_pos.col,
        ensures
            *final(self) == (Editor { cursor_pos: final(self).cursor_pos, ..*old(self) }),
            final(self).cursor_pos == screen_cursor(*old(self), *term),
            row@ == status_row(old(self).active(), term.width as nat),
    {
        self.update_cursor_pos(term);
        let doc = &self.docs[self.active_doc];
        let nlines = doc.lines.len();
        assert(doc.cursor_pos.row < nlines);
        let mut status = to_decimal(doc.cursor_pos.row + 1);
        status.append("/");
        let total = to_decimal(doc.lines.len());
        status.append(total.as_str());
        status.append(" | ");
        let col = to_decimal(doc.cursor_pos.col);
        status.append(col.as_str());
        let len = status.as_str().unicode_len();
        let mut row = spaces(term.width.saturating_sub(len).saturating_sub(1));
        row.append(status.as_str());
        row
    }

    /// The input line: while nothing is collected it shows the active document's message.
    pub fn render_command_line(&mut self) -> (line: String)
        requires
            old(self).wf(),
        ensures
            final(self).wf(),
            old(self).status_input_active ==> *final(self) == *old(self),
            !old(self).status_input_active ==> *final(self) == (Editor {
                status_line: StatusLine {
                    status: Status::Still(old(self).active().command_status),
                    ..old(self).status_line
                },
                ..*old(self)
            }),
            line@ == final(self).status_line.shown(),
    {
        if !self.status_line.is_taking_input() {
            let message = self.docs[self.active_doc].command_status.clone();
            self.status_line.set_status(message);
        }
        self.status_line.render()
    }

    /// Draws a frame for a terminal of size `term`: the header, the active document, the
    /// status row and the input line, joined by `"\r\n"`. The active document's viewport
    /// follows its cursor, and the terminal cursor's cell is recomputed.
    pub fn render(&mut self, term: &Size) -> (frame: String)
        requires
            old(self).wf(),
        ensures
            final(self).wf(),
            frame@ == joined(old(self).frame_rows(*term)),
            final(self).docs@ == old(self).docs@.update(
                old(self).active_doc as int,
                old(self).active().after_render(doc_area(*term), old(self).config),
            ),
            final(self).cursor_pos == screen_cursor(*final(self), *term),
            final(self).active_doc == old(self).active_doc,
            final(self).config == old(self).config,
            final(self).view == old(self).view,
            final(self).status_input_active == old(self).status_input_active,
            final(self).status_line.shown() == if old(self).status_input_active {
                old(self).status_line.shown()
            } else {
                old(self).active().command_status@
            },
    {
        let header = self.render_header();
        let mut doc_frame = self.get_sub_frame(term);
        proof {
            old(self).active().lemma_render_shows_cursor(doc_area(*term), self.config);
        }
        let ghost body = text_of(doc_frame@);
        let status = self.render_status_line(term);
        let ghost mid = *self;
        let command = self.render_command_line();
        let mut frames: Vec<String> = Vec::new();
        frames.push(header);
        frames.append(&mut doc_frame);
        frames.push(status);
        frames.push(command);
        assert(text_of(frames@) =~= seq![header@] + body + seq![status@, command@]);
        assert(text_of(frames@) =~= old(self).frame_rows(*term));
        assert(self.cursor_pos == screen_cursor(mid, *term));
        join_rows(&frames)
    }
}

} // verus!
