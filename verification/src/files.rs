//! Opening, saving and reloading. The library never touches storage: it
//! takes the lines that were read, and hands back the text that is to be
//! written.

use crate::autocomplete::{get_autocomplete_engine, markdown_path, AutoComplete};
use crate::buffer::{
    history_lines, least, savable, savable_spec, Alert, BimVar, Buffer, BufferHistory, BufferView,
    Cursor, Mode, VarView,
};
use crate::languages::{get_lang, select_lang, Language};
use crate::snippets::{get_snippets, select_snippets};
use crate::text::{contains, contains_exec, file_text, file_text_exec, lines_view};
use vstd::hash_map::StringHashMap;
use vstd::prelude::*;

verus! {

/// A text to write to the file at a path.
pub struct FileWrite {
    pub path: String,
    pub content: String,
}

/// What a `FileWrite` stands for: the path and the text.
pub type WriteView = (Seq<char>, Seq<char>);

/// The write that `w` stands for, if any.
pub open spec fn write_view(w: Option<FileWrite>) -> Option<WriteView> {
    match w {
        Some(f) => Some((f.path@, f.content@)),
        None => None,
    }
}

/// What is left to do once the file of the buffer has been read again.
#[derive(Clone, Copy, PartialEq, Eq, Structural)]
pub enum Resume {
    /// A file was opened from the prompt.
    Opened,
    /// The buffer before was closed.
    Closed,
    /// The file is shown from its start.
    Restarted,
    /// The file is shown where the cursor was.
    Reloaded,
    /// Another buffer of the history was switched to.
    Cycled,
}

/// What the caller has to do after a key was handled.
pub enum Effect {
    /// Nothing.
    Nothing,
    /// Leave the editor.
    Quit,
    /// Write the text to the file.
    Write(FileWrite),
    /// Write the text, if there is one; read the file at the path of the
    /// buffer, or list the directory for the directory buffer; and hand the
    /// lines to `Buffer::resume`.
    Reload(Option<FileWrite>, Resume),
}

/// What an `Effect` stands for.
pub enum EffectView {
    Nothing,
    Quit,
    Write(WriteView),
    Reload(Option<WriteView>, Resume),
}

impl View for Effect {
    type V = EffectView;

    open spec fn view(&self) -> EffectView {
        match self {
            Effect::Nothing => EffectView::Nothing,
            Effect::Quit => EffectView::Quit,
            Effect::Write(f) => EffectView::Write((f.path@, f.content@)),
            Effect::Reload(w, r) => EffectView::Reload(write_view(*w), *r),
        }
    }
}

/// The effect of a save: a write where there is a text to write.
pub open spec fn save_effect(w: Option<WriteView>) -> EffectView {
    match w {
        Some(f) => EffectView::Write(f),
        None => EffectView::Nothing,
    }
}

/// The lines that were read, or one empty line where none was read.
pub open spec fn loaded_lines(lines: Seq<Seq<char>>) -> Seq<Seq<char>> {
    if lines.len() == 0 {
        seq![Seq::empty()]
    } else {
        lines
    }
}

/// The configuration that a buffer is made with.
pub open spec fn initial_vars(nav_pro: bool) -> Map<Seq<char>, VarView> {
    Map::<Seq<char>, VarView>::empty().insert("showbottombar"@, VarView::Bool(true)).insert(
        "line-num-type"@,
        VarView::Str("relative"@),
    ).insert("changed"@, VarView::Bool(true)).insert("ret-to-nav"@, VarView::Bool(nav_pro))
}

/// The text that chooses the plugins of a buffer: its first line where
/// that holds the directive `use-ext:`, else its path.
pub open spec fn plugin_source(lines: Seq<Seq<char>>, path: Seq<char>) -> Seq<char> {
    if contains(lines[0], "use-ext:"@) {
        lines[0]
    } else {
        path
    }
}

/// The buffer that opening `path` gives when `loaded` are the lines that
/// were read: the cursor at the start, `Nav` mode, the plugins chosen by the
/// directive of the first line or by the path, and the path as the whole
/// history.
pub open spec fn opened(
    path: Seq<char>,
    loaded: Seq<Seq<char>>,
    nav_pro: bool,
    now: int,
) -> BufferView {
    let lines = loaded_lines(loaded);
    let source = plugin_source(lines, path);
    BufferView {
        lines: lines,
        grid: select_lang(source).highlight_spec(lines),
        iter_time: 0,
        line: 0,
        idx: 0,
        top: 0,
        filepath: path,
        find_str: Seq::empty(),
        replace_str: Seq::empty(),
        temp_str: Seq::empty(),
        indent_lvl: 0,
        lang: select_lang(source),
        snippets: select_snippets(source),
        markdown_engine: markdown_path(source),
        engine_ok: true,
        tokens: Seq::empty(),
        vars: initial_vars(nav_pro),
        hist: seq![path],
        head: 0,
        alert: Seq::empty(),
        alert_timeout: 1_000_000,
        alert_time: now,
        mode: Mode::Nav,
        nav_pro: nav_pro,
    }
}

impl BufferView {
    /// Whether a save writes: the buffer is backed by a file and its text is
    /// marked as changed.
    pub open spec fn save_due(self) -> bool {
        savable_spec(self.filepath) && self.vars.contains_key("changed"@) && self.vars["changed"@]
            == VarView::Bool(true)
    }

    /// The buffer after a save when the clock reads `now`. Where the save
    /// writes, the text is no longer marked as changed, a message says so,
    /// and the text is indexed for autocomplete.
    #[verifier::opaque]
    pub open spec fn saved(self, now: int) -> BufferView {
        if self.save_due() {
            (BufferView {
                vars: self.vars.insert("changed"@, VarView::Bool(false)),
                ..self
            }).raise(seq!["save"@], 1_000_000, now).index_tokens()
        } else {
            self
        }
    }

    /// What a save writes: the text of the lines, to the path of the buffer.
    pub open spec fn written(self) -> Option<WriteView> {
        if self.save_due() {
            Some((self.filepath, file_text(self.lines)))
        } else {
            None
        }
    }

    /// The plugins chosen anew, by the directive of the first line or by the path.
    pub open spec fn rebind(self) -> BufferView {
        let source = plugin_source(self.lines, self.filepath);
        BufferView { lang: select_lang(source), snippets: select_snippets(source), ..self }
    }

    /// The text replaced by the lines that were read, and the cursor kept
    /// within it.
    pub open spec fn load(self, loaded: Seq<Seq<char>>) -> BufferView {
        let lines = loaded_lines(loaded);
        self.with_lines(lines).at(least(self.line, lines.len() - 1), self.idx).clamp()
    }

    /// The buffer after its file was read again when the clock reads `now`:
    /// the text replaced, saved where a save is due, the plugins chosen anew
    /// and the grid recomputed.
    #[verifier::opaque]
    pub open spec fn reload(self, loaded: Seq<Seq<char>>, now: int) -> BufferView {
        self.load(loaded).saved(now).rebind().update_highlighting()
    }

    /// The buffer once a reload is through, by what was left to do. A
    /// message that is raised is raised at `now`.
    #[verifier::opaque]
    pub open spec fn resume(self, resume: Resume, loaded: Seq<Seq<char>>, now: int) -> BufferView {
        let fresh = self.reload(loaded, now);
        match resume {
            Resume::Opened => (BufferView { mode: fresh.return_mode(), ..fresh }).index_tokens(),
            Resume::Closed => (BufferView { mode: fresh.return_mode(), ..fresh }).raise(
                history_lines(fresh.hist, fresh.head),
                5_000_000,
                now,
            ),
            Resume::Restarted => fresh.at(0, 0),
            Resume::Reloaded => fresh,
            Resume::Cycled => fresh.raise(history_lines(fresh.hist, fresh.head), 500_000, now),
        }
    }

    /// The path `path` added to the history and made the current one.
    pub open spec fn visit(self, path: Seq<char>) -> BufferView {
        BufferView {
            hist: self.hist.push(path),
            head: self.hist.len() as int,
            filepath: path,
            ..self
        }
    }

    /// The current path taken out of the history, and the one before it
    /// made the current one.
    pub open spec fn leave(self) -> BufferView {
        let hist = self.hist.remove(self.head);
        let head = if self.head > 0 {
            self.head - 1
        } else {
            0
        };
        BufferView { hist: hist, head: head, filepath: hist[head], ..self }
    }

    /// The path at index `head` of the history made the current one.
    pub open spec fn switch_to(self, head: int) -> BufferView {
        BufferView { head: head, filepath: self.hist[head], ..self }
    }

    /// The index before the current one in the history, the last one before
    /// the first.
    pub open spec fn head_before(self) -> int {
        if self.head == 0 {
            self.hist.len() - 1
        } else {
            self.head - 1
        }
    }

    /// The index behind the current one in the history, the first one behind
    /// the last.
    pub open spec fn head_behind(self) -> int {
        if self.head + 1 >= self.hist.len() {
            0
        } else {
            self.head + 1
        }
    }
}

/// The reading of the clock shows in a reloaded buffer only as the moment
/// of its message.
pub proof fn lemma_reload_moment(v: BufferView, loaded: Seq<Seq<char>>, a: int, b: int)
    ensures
        v.reload(loaded, a) == (BufferView {
            alert_time: v.reload(loaded, a).alert_time,
            ..v.reload(loaded, b)
        }),
{
    reveal(BufferView::reload);
    reveal(BufferView::saved);
}

/// Saving and loading again gives the rows back without their trailing
/// whitespace, under a fresh grid: a buffer that reloads the text that was
/// written for one or more rows, none of which holds a line feed, holds
/// those rows trimmed at their end.
pub proof fn lemma_reload_of_saved(v: BufferView, rows: Seq<Seq<char>>, now: int)
    requires
        rows.len() > 0,
        forall|i: int| 0 <= i < rows.len() ==> crate::text::one_row(#[trigger] rows[i]),
    ensures
        v.reload(crate::text::split_lines(file_text(rows)), now).lines == Seq::new(
            rows.len(),
            |i: int| crate::text::trim_end(rows[i]),
        ),
        v.reload(crate::text::split_lines(file_text(rows)), now).fresh(),
{
    reveal(BufferView::reload);
    reveal(BufferView::saved);
    crate::text::lemma_round_trip(rows);
}

impl Buffer {
    /// Opens the buffer for `filepath` on the lines that were read from it:
    /// no lines where the file could not be read or is a virtual one.
    pub fn new(filepath: &str, loaded: Vec<String>, nav_pro: bool) -> (buf: Buffer)
        ensures
            buf.wf(),
            buf@ == opened(filepath@, lines_view(loaded@), nav_pro, buf.alert.time as int),
    {
        let mut contents = loaded;
        if contents.len() == 0 {
            contents.push(String::new());
            assert(lines_view(contents@) =~= seq![Seq::<char>::empty()]);
        }
        let directive = contains_exec(contents[0].as_str(), "use-ext:");
        assert(lines_view(contents@)[0] == contents@[0]@);
        let lang = if directive {
            get_lang(contents[0].as_str())
        } else {
            get_lang(filepath)
        };
        let snippets = if directive {
            get_snippets(contents[0].as_str())
        } else {
            get_snippets(filepath)
        };
        let autocomplete = if directive {
            get_autocomplete_engine(contents[0].as_str())
        } else {
            get_autocomplete_engine(filepath)
        };
        let mut vars: StringHashMap<BimVar> = StringHashMap::new();
        vars.insert(String::from_str("showbottombar"), BimVar::Bool(true));
        vars.insert(String::from_str("line-num-type"), BimVar::Str(String::from_str("relative")));
        vars.insert(String::from_str("changed"), BimVar::Bool(true));
        vars.insert(String::from_str("ret-to-nav"), BimVar::Bool(nav_pro));
        let highlighted_contents = lang.highlight(contents.as_slice());
        let nothing: Vec<String> = Vec::new();
        let alert = Alert::new(nothing.as_slice(), 1_000_000);
        let mut hist: Vec<String> = Vec::new();
        hist.push(String::from_str(filepath));
        let buf = Buffer {
            contents,
            highlighted_contents,
            iter_time: 0,
            cursor_pos: Cursor { line: 0, idx: 0 },
            top: 0,
            filepath: String::from_str(filepath),
            find_str: String::new(),
            replace_str: String::new(),
            temp_str: String::new(),
            indent_lvl: 0,
            lang,
            snippets,
            autocomplete,
            vars,
            buffer_history: BufferHistory { hist, head: 0 },
            alert,
            mode: Mode::Nav,
            nav_pro,
        };
        proof {
            assert(buf@.vars =~= initial_vars(nav_pro));
            assert(buf@.hist =~= seq![filepath@]);
            assert(buf@.alert =~= Seq::<Seq<char>>::empty());
        }
        buf
    }

    /// Saves the buffer where a save is due, and returns what is to be
    /// written. Nothing is due for a virtual buffer, nor for a text that is
    /// not marked as changed.
    pub fn save(&mut self) -> (w: Option<FileWrite>)
        requires
            old(self).wf(),
        ensures
            old(self)@.fresh() ==> final(self)@.fresh(),
            final(self).wf(),
            final(self)@ == old(self)@.saved(final(self).alert.time as int),
            write_view(w) == old(self)@.written(),
    {
        proof {
            reveal(BufferView::saved);
        }
        if savable(self.filepath.as_str()) && self.flag("changed") {
            self.set_var("changed", BimVar::Bool(false));
            let content = file_text_exec(self.contents.as_slice());
            self.raise_one("save", 1_000_000);
            self.add_tokens();
            Some(FileWrite { path: self.filepath.clone(), content })
        } else {
            None
        }
    }

    /// Chooses the plugins anew, by the directive of the first line or by the path.
    pub fn rebind(&mut self)
        requires
            old(self)@.lines.len() > 0,
        ensures
            final(self)@ == old(self)@.rebind(),
    {
        let directive = contains_exec(self.contents[0].as_str(), "use-ext:");
        self.lang = if directive {
            get_lang(self.contents[0].as_str())
        } else {
            get_lang(self.filepath.as_str())
        };
        self.snippets = if directive {
            get_snippets(self.contents[0].as_str())
        } else {
            get_snippets(self.filepath.as_str())
        };
    }

    /// Takes the lines that were read from the file of the buffer: replaces
    /// the text by them, saves where a save is due, chooses the plugins anew
    /// and recomputes the grid. Returns what is to be written.
    pub fn reload_file(&mut self, loaded: Vec<String>) -> (w: Option<FileWrite>)
        requires
            old(self).wf(),
        ensures
            old(self)@.fresh() ==> final(self)@.fresh(),
            final(self).wf(),
            final(self)@ == old(self)@.reload(lines_view(loaded@), final(self).alert.time as int),
            final(self)@.fresh(),
            write_view(w) == old(self)@.load(lines_view(loaded@)).written(),
    {
        proof {
            reveal(BufferView::reload);
        }
        let mut contents = loaded;
        if contents.len() == 0 {
            contents.push(String::new());
            assert(lines_view(contents@) =~= seq![Seq::<char>::empty()]);
        }
        let count: usize = contents.len();
        self.replace_lines(contents);
        if self.cursor_pos.line >= count {
            self.cursor_pos.line = count - 1;
        }
        self.clamp();
        let w = self.save();
        self.rebind();
        self.update_highlighting();
        w
    }

    /// Finishes a reload: takes the lines that were read, as `reload_file`
    /// does, and does what was left to do. Returns what is to be written.
    pub fn resume(&mut self, resume: Resume, loaded: Vec<String>) -> (w: Option<FileWrite>)
        requires
            old(self).wf(),
        ensures
            old(self)@.fresh() ==> final(self)@.fresh(),
            final(self).wf(),
            final(self)@ == old(self)@.resume(
                resume,
                lines_view(loaded@),
                final(self).alert.time as int,
            ),
            write_view(w) == old(self)@.load(lines_view(loaded@)).written(),
    {
        proof {
            reveal(BufferView::resume);
        }
        let ghost lines = lines_view(loaded@);
        let w = self.reload_file(loaded);
        let ghost then = self.alert.time as int;
        match resume {
            Resume::Opened => {
                self.mode = self.return_mode();
                self.add_tokens();
            },
            Resume::Closed => {
                self.mode = self.return_mode();
                let lines = self.buffer_history.display();
                self.raise(lines.as_slice(), 5_000_000);
            },
            Resume::Restarted => {
                self.cursor_pos.line = 0;
                self.cursor_pos.idx = 0;
            },
            Resume::Reloaded => {},
            Resume::Cycled => {
                let lines = self.buffer_history.display();
                self.raise(lines.as_slice(), 500_000);
            },
        }
        proof {
            lemma_reload_moment(old(self)@, lines, then, self.alert.time as int);
        }
        w
    }

    /// Adds `path` to the history and makes it the current path.
    pub fn visit(&mut self, path: &str)
        requires
            old(self).wf(),
        ensures
            final(self).wf(),
            final(self)@ == old(self)@.visit(path@),
    {
        let s = String::from_str(path);
        self.buffer_history.hist.push(s);
        self.buffer_history.head = self.buffer_history.hist.len() - 1;
        self.filepath = String::from_str(path);
        assert(lines_view(self.buffer_history.hist@) =~= old(self)@.hist.push(path@));
    }

    /// Takes the current path out of the history and makes the one before
    /// it the current path.
    pub fn leave(&mut self)
        requires
            old(self).wf(),
            old(self)@.hist.len() >= 2,
        ensures
            final(self).wf(),
            final(self)@ == old(self)@.leave(),
    {
        let _ = self.buffer_history.hist.remove(self.buffer_history.head);
        if self.buffer_history.head > 0 {
            self.buffer_history.head -= 1;
        }
        self.filepath = self.buffer_history.hist[self.buffer_history.head].clone();
        assert(lines_view(self.buffer_history.hist@) =~= old(self)@.hist.remove(old(self)@.head));
    }

    /// Makes the path at index `head` of the history the current path.
    pub fn switch_to(&mut self, head: usize)
        requires
            old(self).wf(),
            head < old(self)@.hist.len(),
        ensures
            final(self).wf(),
            final(self)@ == old(self)@.switch_to(head as int),
    {
        self.buffer_history.head = head;
        self.filepath = self.buffer_history.hist[head].clone();
    }
}

} // verus!
