//! Line highlighting and indentation, one plugin per kind of file.
//!
//! A highlighter maps the lines of a buffer to a grid of styled glyphs, one
//! glyph per character of each line. The plugins are probed in a fixed order
//! and the first whose predicate accepts the path is used.

use crate::text::{ends_with, lines_view};
use vstd::prelude::*;

pub mod c;
pub mod forest;
pub mod go;
pub mod haskell;
pub mod markdown;
pub mod rust;
pub mod text;
pub mod tinylisp;
pub mod todo;
pub mod zig;

verus! {

/// The greatest indent step that a plugin may ask for.
pub const INDENT_SIZE_MAX: usize = 16;

/// One displayed character and the escape sequence that styles it.
#[derive(Clone, Copy, PartialEq)]
pub struct StyledChar {
    pub style: &'static str,
    pub ch: char,
}

/// What a `StyledChar` stands for: the text of its style, and its character.
pub type Glyph = (Seq<char>, char);

impl View for StyledChar {
    type V = Glyph;

    open spec fn view(&self) -> Glyph {
        (self.style@, self.ch)
    }
}

/// The glyphs of one row.
pub open spec fn row_view(row: Seq<StyledChar>) -> Seq<Glyph> {
    Seq::new(row.len(), |i: int| row[i]@)
}

/// The glyphs of a grid, row by row.
pub open spec fn grid_view(grid: Seq<Vec<StyledChar>>) -> Seq<Seq<Glyph>> {
    Seq::new(grid.len(), |i: int| row_view(grid[i]@))
}

/// The characters of `line`, each with the style `style`.
pub open spec fn coloured_row(line: Seq<char>, style: Seq<char>) -> Seq<Glyph> {
    Seq::new(line.len(), |i: int| (style, line[i]))
}

/// The characters of `line`, unstyled.
pub open spec fn plain_row(line: Seq<char>) -> Seq<Glyph> {
    coloured_row(line, Seq::empty())
}

/// Every line unstyled.
pub open spec fn plain_grid(lines: Seq<Seq<char>>) -> Seq<Seq<Glyph>> {
    Seq::new(lines.len(), |i: int| plain_row(lines[i]))
}

/// Whether `row` shows exactly the characters of `line`, in order.
pub open spec fn row_covers(row: Seq<Glyph>, line: Seq<char>) -> bool {
    &&& row.len() == line.len()
    &&& forall|j: int| 0 <= j < line.len() ==> (#[trigger] row[j]).1 == line[j]
}

/// Whether `grid` has one row per line and one glyph per character.
pub open spec fn covers(grid: Seq<Seq<Glyph>>, lines: Seq<Seq<char>>) -> bool {
    &&& grid.len() == lines.len()
    &&& forall|i: int| 0 <= i < lines.len() ==> row_covers(#[trigger] grid[i], lines[i])
}

/// A highlighting and indentation plugin.
pub trait Language {
    /// Whether the plugin is meant for the file at `filepath`.
    spec fn is_kind_spec(&self, filepath: Seq<char>) -> bool;

    /// The styled grid for `lines`.
    spec fn highlight_spec(&self, lines: Seq<Seq<char>>) -> Seq<Seq<Glyph>>;

    /// The number of spaces of one indent step.
    spec fn indent_size_spec(&self) -> usize;

    /// The name shown in the status bar.
    spec fn display_spec(&self) -> Seq<char>;

    fn is_kind(&self, filepath: &str) -> (b: bool)
        ensures
            b == self.is_kind_spec(filepath@),
    ;

    fn highlight(&self, buffer: &[String]) -> (grid: Vec<Vec<StyledChar>>)
        ensures
            grid_view(grid@) == self.highlight_spec(lines_view(buffer@)),
            covers(grid_view(grid@), lines_view(buffer@)),
    ;

    fn indent_size(&self) -> (n: usize)
        ensures
            n == self.indent_size_spec(),
            0 < n <= INDENT_SIZE_MAX,
    ;

    fn display_str(&self) -> (s: &'static str)
        ensures
            s@ == self.display_spec(),
    ;
}

impl StyledChar {
    /// The glyph for `ch` with the style `style`.
    pub fn styled(style: &'static str, ch: char) -> (g: StyledChar)
        ensures
            g@ == (style@, ch),
            g.style == style,
            g.ch == ch,
    {
        StyledChar { style, ch }
    }

    /// The glyph for `ch` with no styling.
    pub fn from_char(ch: char) -> (g: StyledChar)
        ensures
            g@ == (Seq::<char>::empty(), ch),
    {
        proof {
            reveal_strlit("");
            assert(""@ =~= Seq::<char>::empty());
        }
        StyledChar { style: "", ch }
    }

    /// The glyphs for `s` with no styling.
    pub fn from_string(s: &str) -> (row: Vec<StyledChar>)
        ensures
            row_view(row@) == plain_row(s@),
    {
        proof {
            reveal_strlit("");
            assert(""@ =~= Seq::<char>::empty());
        }
        StyledChar::colour_string(s, "")
    }

    /// The glyphs for `s`, each with the style `style`.
    pub fn colour_string(s: &str, style: &'static str) -> (row: Vec<StyledChar>)
        ensures
            row_view(row@) == coloured_row(s@, style@),
    {
        let chars = crate::text::to_chars(s);
        let mut row: Vec<StyledChar> = Vec::new();
        let mut i: usize = 0;
        while i < chars.len()
            invariant
                chars@ == s@,
                i <= chars.len(),
                row@.len() == i,
                forall|k: int| 0 <= k < i ==> (#[trigger] row@[k])@ == (style@, s@[k]),
            decreases chars.len() - i,
        {
            let glyph = StyledChar::styled(style, chars[i]);
            row.push(glyph);
            i += 1;
        }
        assert(row_view(row@) =~= coloured_row(s@, style@));
        row
    }
}

/// A grid with every line of `buffer` unstyled.
pub fn plain_highlight(buffer: &[String]) -> (grid: Vec<Vec<StyledChar>>)
    ensures
        grid_view(grid@) == plain_grid(lines_view(buffer@)),
        covers(grid_view(grid@), lines_view(buffer@)),
{
    let mut grid: Vec<Vec<StyledChar>> = Vec::new();
    let mut i: usize = 0;
    while i < buffer.len()
        invariant
            i <= buffer.len(),
            grid@.len() == i,
            forall|k: int| 0 <= k < i ==> row_view(#[trigger] grid@[k]@) == plain_row(buffer@[k]@),
        decreases buffer.len() - i,
    {
        let row = StyledChar::from_string(buffer[i].as_str());
        grid.push(row);
        i += 1;
    }
    assert(grid_view(grid@) =~= plain_grid(lines_view(buffer@)));
    assert forall|k: int| 0 <= k < buffer.len() implies row_covers(
        #[trigger] grid_view(grid@)[k],
        lines_view(buffer@)[k],
    ) by {
        assert(grid_view(grid@)[k] == plain_row(buffer@[k]@));
    }
    grid
}

/// Whether `path` ends with the extension `ext`.
pub fn has_extension(path: &str, ext: &str) -> (b: bool)
    ensures
        b == ends_with(path@, ext@),
{
    crate::text::ends_with_exec(path, ext)
}


/// The views of a sequence of character vectors.
pub open spec fn tokens_view(tokens: Seq<Vec<char>>) -> Seq<Seq<char>> {
    Seq::new(tokens.len(), |i: int| tokens[i]@)
}

/// The views of a sequence of string slices.
pub open spec fn styles_view(styles: Seq<&'static str>) -> Seq<Seq<char>> {
    Seq::new(styles.len(), |i: int| styles[i]@)
}

/// The tokens one after the other.
pub open spec fn concat(tokens: Seq<Seq<char>>) -> Seq<char>
    decreases tokens.len(),
{
    if tokens.len() == 0 {
        Seq::empty()
    } else {
        concat(tokens.drop_last()) + tokens.last()
    }
}

/// The glyphs of the tokens one after the other, token `i` in the style `styles[i]`.
pub open spec fn painted(tokens: Seq<Seq<char>>, styles: Seq<Seq<char>>) -> Seq<Glyph>
    decreases tokens.len(),
{
    if tokens.len() == 0 {
        Seq::empty()
    } else {
        painted(tokens.drop_last(), styles.drop_last()) + coloured_row(
            tokens.last(),
            styles.last(),
        )
    }
}

/// Painted tokens show the characters of the tokens, in order.
pub proof fn lemma_painted_covers(tokens: Seq<Seq<char>>, styles: Seq<Seq<char>>)
    requires
        tokens.len() == styles.len(),
    ensures
        row_covers(painted(tokens, styles), concat(tokens)),
    decreases tokens.len(),
{
    if tokens.len() > 0 {
        lemma_painted_covers(tokens.drop_last(), styles.drop_last());
        let head = painted(tokens.drop_last(), styles.drop_last());
        let row = painted(tokens, styles);
        let text = concat(tokens);
        assert forall|j: int| 0 <= j < text.len() implies (#[trigger] row[j]).1 == text[j] by {
            if j < head.len() {
                assert(row[j] == head[j]);
            } else {
                assert(row[j] == coloured_row(tokens.last(), styles.last())[j - head.len()]);
            }
        }
    }
}

/// The glyphs of `tokens`, token `i` in the style `styles[i]`.
pub fn paint(tokens: &Vec<Vec<char>>, styles: &Vec<&'static str>) -> (row: Vec<StyledChar>)
    requires
        tokens@.len() == styles@.len(),
    ensures
        row_view(row@) == painted(tokens_view(tokens@), styles_view(styles@)),
{
    let mut row: Vec<StyledChar> = Vec::new();
    let ghost tv = tokens_view(tokens@);
    let ghost sv = styles_view(styles@);
    let mut k: usize = 0;
    assert(tv.subrange(0, 0) =~= Seq::<Seq<char>>::empty());
    assert(row_view(row@) =~= Seq::<Glyph>::empty());
    while k < tokens.len()
        invariant
            tv == tokens_view(tokens@),
            sv == styles_view(styles@),
            tokens@.len() == styles@.len(),
            k <= tokens.len(),
            row_view(row@) == painted(tv.subrange(0, k as int), sv.subrange(0, k as int)),
        decreases tokens.len() - k,
    {
        let token = &tokens[k];
        let style = styles[k];
        let ghost before = row_view(row@);
        let mut i: usize = 0;
        assert(before + coloured_row(token@.subrange(0, 0), style@) =~= before);
        while i < token.len()
            invariant
                i <= token.len(),
                row_view(row@) == before + coloured_row(token@.subrange(0, i as int), style@),
            decreases token.len() - i,
        {
            let glyph = StyledChar::styled(style, token[i]);
            let ghost prev = row_view(row@);
            row.push(glyph);
            i += 1;
            assert(row_view(row@) =~= prev.push((style@, token@[i - 1])));
            assert(row_view(row@) =~= before + coloured_row(token@.subrange(0, i as int), style@));
        }
        k += 1;
        proof {
            assert(token@.subrange(0, token@.len() as int) =~= token@);
            assert(tv.subrange(0, k as int).drop_last() =~= tv.subrange(0, k - 1));
            assert(sv.subrange(0, k as int).drop_last() =~= sv.subrange(0, k - 1));
            assert(tv.subrange(0, k as int).last() == token@);
            assert(sv.subrange(0, k as int).last() == style@);
        }
    }
    assert(tv.subrange(0, tokens.len() as int) =~= tv);
    assert(sv.subrange(0, tokens.len() as int) =~= sv);
    row
}

/// Whether every character of `s` is numeric.
pub open spec fn all_numeric(s: Seq<char>) -> bool {
    forall|i: int| 0 <= i < s.len() ==> crate::text::unicode_numeric(#[trigger] s[i])
}

/// Whether every character of `v[from..to]` is numeric.
pub fn all_numeric_exec(v: &Vec<char>, from: usize, to: usize) -> (b: bool)
    requires
        from <= to <= v.len(),
    ensures
        b == all_numeric(v@.subrange(from as int, to as int)),
{
    let mut i: usize = from;
    while i < to
        invariant
            from <= i <= to <= v.len(),
            forall|k: int| from <= k < i ==> crate::text::unicode_numeric(#[trigger] v@[k]),
        decreases to - i,
    {
        if !crate::text::is_numeric(v[i]) {
            assert(!crate::text::unicode_numeric(v@.subrange(from as int, to as int)[i - from]));
            return false;
        }
        i += 1;
    }
    assert forall|k: int| 0 <= k < to - from implies crate::text::unicode_numeric(
        #[trigger] v@.subrange(from as int, to as int)[k],
    ) by {
        assert(crate::text::unicode_numeric(v@[from + k]));
    }
    true
}

/// Whether `v[from..to]` is the text `lit`.
pub fn range_is(v: &Vec<char>, from: usize, to: usize, lit: &str) -> (b: bool)
    requires
        from <= to <= v.len(),
    ensures
        b == (v@.subrange(from as int, to as int) == lit@),
{
    let l = crate::text::to_chars(lit);
    if l.len() != to - from {
        return false;
    }
    crate::text::occurs_at_exec(v, &l, from)
}


/// The plugins that a buffer can be bound to, in the order in which they are
/// probed.
#[derive(Clone, Copy, PartialEq, Eq, Structural)]
pub enum LanguageKind {
    Rust,
    Markdown,
    Forest,
    Tinylisp,
    Haskell,
    Todo,
    Clang,
    Zig,
    Text,
}

/// The plugin for `path`: the first in probe order whose predicate accepts it.
pub open spec fn select_lang(path: Seq<char>) -> LanguageKind {
    if (rust::Rust {  }).is_kind_spec(path) {
        LanguageKind::Rust
    } else if (markdown::Markdown {  }).is_kind_spec(path) {
        LanguageKind::Markdown
    } else if (forest::Forest {  }).is_kind_spec(path) {
        LanguageKind::Forest
    } else if (tinylisp::Tinylisp {  }).is_kind_spec(path) {
        LanguageKind::Tinylisp
    } else if (haskell::Haskell {  }).is_kind_spec(path) {
        LanguageKind::Haskell
    } else if (todo::Todo {  }).is_kind_spec(path) {
        LanguageKind::Todo
    } else if (c::Clang {  }).is_kind_spec(path) {
        LanguageKind::Clang
    } else if (zig::Zig {  }).is_kind_spec(path) {
        LanguageKind::Zig
    } else {
        LanguageKind::Text
    }
}

impl Language for LanguageKind {
    open spec fn is_kind_spec(&self, filepath: Seq<char>) -> bool {
        match self {
            LanguageKind::Rust => (rust::Rust {  }).is_kind_spec(filepath),
            LanguageKind::Markdown => (markdown::Markdown {  }).is_kind_spec(filepath),
            LanguageKind::Forest => (forest::Forest {  }).is_kind_spec(filepath),
            LanguageKind::Tinylisp => (tinylisp::Tinylisp {  }).is_kind_spec(filepath),
            LanguageKind::Haskell => (haskell::Haskell {  }).is_kind_spec(filepath),
            LanguageKind::Todo => (todo::Todo {  }).is_kind_spec(filepath),
            LanguageKind::Clang => (c::Clang {  }).is_kind_spec(filepath),
            LanguageKind::Zig => (zig::Zig {  }).is_kind_spec(filepath),
            LanguageKind::Text => (text::Text {  }).is_kind_spec(filepath),
        }
    }

    open spec fn highlight_spec(&self, lines: Seq<Seq<char>>) -> Seq<Seq<Glyph>> {
        match self {
            LanguageKind::Rust => (rust::Rust {  }).highlight_spec(lines),
            LanguageKind::Markdown => (markdown::Markdown {  }).highlight_spec(lines),
            LanguageKind::Forest => (forest::Forest {  }).highlight_spec(lines),
            LanguageKind::Tinylisp => (tinylisp::Tinylisp {  }).highlight_spec(lines),
            LanguageKind::Haskell => (haskell::Haskell {  }).highlight_spec(lines),
            LanguageKind::Todo => (todo::Todo {  }).highlight_spec(lines),
            LanguageKind::Clang => (c::Clang {  }).highlight_spec(lines),
            LanguageKind::Zig => (zig::Zig {  }).highlight_spec(lines),
            LanguageKind::Text => (text::Text {  }).highlight_spec(lines),
        }
    }

    open spec fn indent_size_spec(&self) -> usize {
        match self {
            LanguageKind::Rust => (rust::Rust {  }).indent_size_spec(),
            LanguageKind::Markdown => (markdown::Markdown {  }).indent_size_spec(),
            LanguageKind::Forest => (forest::Forest {  }).indent_size_spec(),
            LanguageKind::Tinylisp => (tinylisp::Tinylisp {  }).indent_size_spec(),
            LanguageKind::Haskell => (haskell::Haskell {  }).indent_size_spec(),
            LanguageKind::Todo => (todo::Todo {  }).indent_size_spec(),
            LanguageKind::Clang => (c::Clang {  }).indent_size_spec(),
            LanguageKind::Zig => (zig::Zig {  }).indent_size_spec(),
            LanguageKind::Text => (text::Text {  }).indent_size_spec(),
        }
    }

    open spec fn display_spec(&self) -> Seq<char> {
        match self {
            LanguageKind::Rust => (rust::Rust {  }).display_spec(),
            LanguageKind::Markdown => (markdown::Markdown {  }).display_spec(),
            LanguageKind::Forest => (forest::Forest {  }).display_spec(),
            LanguageKind::Tinylisp => (tinylisp::Tinylisp {  }).display_spec(),
            LanguageKind::Haskell => (haskell::Haskell {  }).display_spec(),
            LanguageKind::Todo => (todo::Todo {  }).display_spec(),
            LanguageKind::Clang => (c::Clang {  }).display_spec(),
            LanguageKind::Zig => (zig::Zig {  }).display_spec(),
            LanguageKind::Text => (text::Text {  }).display_spec(),
        }
    }

    fn is_kind(&self, filepath: &str) -> (b: bool) {
        match self {
            LanguageKind::Rust => (rust::Rust {  }).is_kind(filepath),
            LanguageKind::Markdown => (markdown::Markdown {  }).is_kind(filepath),
            LanguageKind::Forest => (forest::Forest {  }).is_kind(filepath),
            LanguageKind::Tinylisp => (tinylisp::Tinylisp {  }).is_kind(filepath),
            LanguageKind::Haskell => (haskell::Haskell {  }).is_kind(filepath),
            LanguageKind::Todo => (todo::Todo {  }).is_kind(filepath),
            LanguageKind::Clang => (c::Clang {  }).is_kind(filepath),
            LanguageKind::Zig => (zig::Zig {  }).is_kind(filepath),
            LanguageKind::Text => (text::Text {  }).is_kind(filepath),
        }
    }

    fn highlight(&self, buffer: &[String]) -> (grid: Vec<Vec<StyledChar>>) {
        match self {
            LanguageKind::Rust => (rust::Rust {  }).highlight(buffer),
            LanguageKind::Markdown => (markdown::Markdown {  }).highlight(buffer),
            LanguageKind::Forest => (forest::Forest {  }).highlight(buffer),
            LanguageKind::Tinylisp => (tinylisp::Tinylisp {  }).highlight(buffer),
            LanguageKind::Haskell => (haskell::Haskell {  }).highlight(buffer),
            LanguageKind::Todo => (todo::Todo {  }).highlight(buffer),
            LanguageKind::Clang => (c::Clang {  }).highlight(buffer),
            LanguageKind::Zig => (zig::Zig {  }).highlight(buffer),
            LanguageKind::Text => (text::Text {  }).highlight(buffer),
        }
    }

    fn indent_size(&self) -> (n: usize) {
        match self {
            LanguageKind::Rust => (rust::Rust {  }).indent_size(),
            LanguageKind::Markdown => (markdown::Markdown {  }).indent_size(),
            LanguageKind::Forest => (forest::Forest {  }).indent_size(),
            LanguageKind::Tinylisp => (tinylisp::Tinylisp {  }).indent_size(),
            LanguageKind::Haskell => (haskell::Haskell {  }).indent_size(),
            LanguageKind::Todo => (todo::Todo {  }).indent_size(),
            LanguageKind::Clang => (c::Clang {  }).indent_size(),
            LanguageKind::Zig => (zig::Zig {  }).indent_size(),
            LanguageKind::Text => (text::Text {  }).indent_size(),
        }
    }

    fn display_str(&self) -> (s: &'static str) {
        match self {
            LanguageKind::Rust => (rust::Rust {  }).display_str(),
            LanguageKind::Markdown => (markdown::Markdown {  }).display_str(),
            LanguageKind::Forest => (forest::Forest {  }).display_str(),
            LanguageKind::Tinylisp => (tinylisp::Tinylisp {  }).display_str(),
            LanguageKind::Haskell => (haskell::Haskell {  }).display_str(),
            LanguageKind::Todo => (todo::Todo {  }).display_str(),
            LanguageKind::Clang => (c::Clang {  }).display_str(),
            LanguageKind::Zig => (zig::Zig {  }).display_str(),
            LanguageKind::Text => (text::Text {  }).display_str(),
        }
    }
}

/// The plugin for the file at `path`: the first whose predicate accepts the
/// path, the plain-text plugin accepting every path.
pub fn get_lang(path: &str) -> (kind: LanguageKind)
    ensures
        kind == select_lang(path@),
{
    if (rust::Rust {  }).is_kind(path) {
        LanguageKind::Rust
    } else if (markdown::Markdown {  }).is_kind(path) {
        LanguageKind::Markdown
    } else if (forest::Forest {  }).is_kind(path) {
        LanguageKind::Forest
    } else if (tinylisp::Tinylisp {  }).is_kind(path) {
        LanguageKind::Tinylisp
    } else if (haskell::Haskell {  }).is_kind(path) {
        LanguageKind::Haskell
    } else if (todo::Todo {  }).is_kind(path) {
        LanguageKind::Todo
    } else if (c::Clang {  }).is_kind(path) {
        LanguageKind::Clang
    } else if (zig::Zig {  }).is_kind(path) {
        LanguageKind::Zig
    } else {
        LanguageKind::Text
    }
}

/// Two grids that a plugin may give for the same lines are the same grid:
/// highlighting starts from a fresh state each time and depends on the lines
/// alone.
pub proof fn lemma_highlight_deterministic<L: Language>(
    lang: L,
    lines: Seq<Seq<char>>,
    first: Seq<Seq<Glyph>>,
    second: Seq<Seq<Glyph>>,
)
    requires
        first == lang.highlight_spec(lines),
        second == lang.highlight_spec(lines),
    ensures
        first == second,
{
}

} // verus!
