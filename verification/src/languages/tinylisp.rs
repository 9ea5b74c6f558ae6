//! Tinylisp sources: a line is cut into tokens at parentheses, string
//! literals and whitespace, and every token is coloured by what it is.

use crate::languages::{
    all_numeric, all_numeric_exec, concat, grid_view, has_extension, lemma_painted_covers, paint,
    painted, range_is, row_covers, row_view, styles_view, tokens_view, Glyph, Language, StyledChar,
};
use crate::text::{
    ends_with, is_whitespace, lines_view, skip_whitespace, skip_whitespace_back, to_chars, trim,
    unicode_whitespace,
};
use vstd::prelude::*;

verus! {

pub struct Tinylisp {}

/// The style of a token whose text, once trimmed, is `t`.
pub open spec fn lisp_style(t: Seq<char>) -> Seq<char> {
    if t == "+"@ || t == "-"@ || t == "*"@ || t == "/"@ || t == "="@ || t == ">"@ || t == "<"@ {
        "\x1b[36m"@
    } else if t == "str"@ {
        "\x1b[31m"@
    } else if t == "car"@ || t == "cdr"@ || t == "cons"@ || t == "quote"@ || t == "eval"@ {
        "\x1b[35m"@
    } else if t == "if"@ || t == "and"@ || t == "or"@ || t == "not"@ {
        "\x1b[1;34m"@
    } else if t == "def"@ || t == "defn"@ || t == "defmacro"@ {
        "\x1b[33m"@
    } else if t.len() > 0 && t[0] == '\"' {
        "\x1b[32m"@
    } else if all_numeric(t) {
        "\x1b[1;34m"@
    } else if t == "nil"@ {
        "\x1b[31m"@
    } else {
        Seq::empty()
    }
}

/// The style of the token `v`.
fn lisp_style_exec(v: &Vec<char>) -> (s: &'static str)
    ensures
        s@ == lisp_style(trim(v@)),
{
    let i = skip_whitespace(v, 0);
    let j = skip_whitespace_back(v, i, v.len());
    assert(v@.subrange(0, v.len() as int) =~= v@);
    let ghost t = trim(v@);
    assert(t == v@.subrange(i as int, j as int));
    proof {
        reveal_strlit("");
        assert(""@ =~= Seq::<char>::empty());
    }
    if range_is(v, i, j, "+") || range_is(v, i, j, "-") || range_is(v, i, j, "*")
        || range_is(v, i, j, "/") || range_is(v, i, j, "=") || range_is(v, i, j, ">")
        || range_is(v, i, j, "<") {
        "\x1b[36m"
    } else if range_is(v, i, j, "str") {
        "\x1b[31m"
    } else if range_is(v, i, j, "car") || range_is(v, i, j, "cdr") || range_is(v, i, j, "cons")
        || range_is(v, i, j, "quote") || range_is(v, i, j, "eval") {
        "\x1b[35m"
    } else if range_is(v, i, j, "if") || range_is(v, i, j, "and") || range_is(v, i, j, "or")
        || range_is(v, i, j, "not") {
        "\x1b[1;34m"
    } else if range_is(v, i, j, "def") || range_is(v, i, j, "defn")
        || range_is(v, i, j, "defmacro") {
        "\x1b[33m"
    } else if j > i && v[i] == '\"' {
        "\x1b[32m"
    } else if all_numeric_exec(v, i, j) {
        "\x1b[1;34m"
    } else if range_is(v, i, j, "nil") {
        "\x1b[31m"
    } else {
        ""
    }
}

/// What the tokenizer holds after some characters of a line: the tokens that
/// are complete, the characters of the token being read, and its flags.
pub struct Scan {
    pub tokens: Seq<Seq<char>>,
    pub acc: Seq<char>,
    /// Inside a string literal.
    pub wrapped: bool,
    /// The last character was a backslash.
    pub escaping: bool,
}

/// The tokenizer at the start of a line.
pub open spec fn start() -> Scan {
    Scan { tokens: Seq::empty(), acc: Seq::empty(), wrapped: false, escaping: false }
}

/// The tokenizer after one more character, `c`. A closing parenthesis
/// outside a string ends the token before it and is a token by itself; a
/// closing quote, and an opening parenthesis or whitespace outside a string,
/// end the token that they belong to.
pub open spec fn step(s: Scan, c: char) -> Scan {
    let change = c == '\"' && !s.escaping;
    let wrapped = if change {
        !s.wrapped
    } else {
        s.wrapped
    };
    let escaping = c == '\\';
    let closes = !escaping && !wrapped && c == ')';
    let tokens = if closes {
        s.tokens.push(s.acc).push(seq![c])
    } else {
        s.tokens
    };
    let acc = if closes {
        Seq::empty()
    } else {
        s.acc.push(c)
    };
    let splits = (change && !wrapped) || (c == '(' && !escaping && !wrapped) || (
    unicode_whitespace(c) && !escaping && !wrapped);
    if splits {
        Scan { tokens: tokens.push(acc), acc: Seq::empty(), wrapped, escaping }
    } else {
        Scan { tokens, acc, wrapped, escaping }
    }
}

/// The tokenizer after the first `n` characters of `line`.
pub open spec fn scan(line: Seq<char>, n: nat) -> Scan
    decreases n,
{
    if n == 0 {
        start()
    } else {
        step(scan(line, (n - 1) as nat), line[n - 1])
    }
}

/// The tokens of `line`: those that the tokenizer completed, and the one
/// that it was reading at the end of the line.
pub open spec fn tokens_of(line: Seq<char>) -> Seq<Seq<char>> {
    scan(line, line.len()).tokens.push(scan(line, line.len()).acc)
}

/// The style of each token.
pub open spec fn styles_of(tokens: Seq<Seq<char>>) -> Seq<Seq<char>> {
    Seq::new(tokens.len(), |i: int| lisp_style(trim(tokens[i])))
}

/// The glyphs of `line`.
pub open spec fn lisp_row(line: Seq<char>) -> Seq<Glyph> {
    painted(tokens_of(line), styles_of(tokens_of(line)))
}

/// The styled grid of a source.
pub open spec fn lisp_grid(lines: Seq<Seq<char>>) -> Seq<Seq<Glyph>> {
    Seq::new(lines.len(), |k: int| lisp_row(lines[k]))
}

/// The tokens and the token being read make up the characters read so far.
pub proof fn lemma_scan_concat(line: Seq<char>, n: nat)
    requires
        n <= line.len(),
    ensures
        concat(scan(line, n).tokens) + scan(line, n).acc == line.subrange(0, n as int),
    decreases n,
{
    if n == 0 {
        assert(concat(start().tokens) + start().acc =~= line.subrange(0, 0));
    } else {
        lemma_scan_concat(line, (n - 1) as nat);
        let before = scan(line, (n - 1) as nat);
        let after = scan(line, n);
        let c = line[n - 1];
        assert(line.subrange(0, n as int) =~= line.subrange(0, n - 1).push(c));
        lemma_step_concat(before, c);
    }
}

/// One step adds its character to what the tokens and the token being read make up.
pub proof fn lemma_step_concat(s: Scan, c: char)
    ensures
        concat(step(s, c).tokens) + step(s, c).acc == (concat(s.tokens) + s.acc).push(c),
{
    let t1 = s.tokens.push(s.acc);
    assert(t1.drop_last() =~= s.tokens);
    let t2 = t1.push(seq![c]);
    assert(t2.drop_last() =~= t1);
    let t3 = t2.push(Seq::<char>::empty());
    assert(t3.drop_last() =~= t2);
    let u1 = s.tokens.push(s.acc.push(c));
    assert(u1.drop_last() =~= s.tokens);
    assert(concat(t1) =~= concat(s.tokens) + s.acc);
    assert(concat(t2) =~= (concat(s.tokens) + s.acc).push(c));
    assert(concat(t3) =~= (concat(s.tokens) + s.acc).push(c));
    assert(concat(u1) =~= (concat(s.tokens) + s.acc).push(c));
    assert(concat(step(s, c).tokens) + step(s, c).acc =~= (concat(s.tokens) + s.acc).push(c));
}

/// The tokens of a line make up the line.
pub proof fn lemma_tokens_concat(line: Seq<char>)
    ensures
        concat(tokens_of(line)) == line,
{
    lemma_scan_concat(line, line.len());
    let s = scan(line, line.len());
    assert(line.subrange(0, line.len() as int) =~= line);
    assert(s.tokens.push(s.acc).drop_last() =~= s.tokens);
}

/// Highlights one line.
fn highlight_line(line: &str) -> (row: Vec<StyledChar>)
    ensures
        row_view(row@) == lisp_row(line@),
        row_covers(row_view(row@), line@),
{
    let chars = to_chars(line);
    let mut tokens: Vec<Vec<char>> = Vec::new();
    let mut acc: Vec<char> = Vec::new();
    let mut wrapped = false;
    let mut escaping = false;
    let mut n: usize = 0;
    assert(tokens_view(tokens@) =~= start().tokens);
    while n < chars.len()
        invariant
            chars@ == line@,
            n <= chars.len(),
            tokens_view(tokens@) == scan(line@, n as nat).tokens,
            acc@ == scan(line@, n as nat).acc,
            wrapped == scan(line@, n as nat).wrapped,
            escaping == scan(line@, n as nat).escaping,
        decreases chars.len() - n,
    {
        let c: char = chars[n];
        let ghost before = scan(line@, n as nat);
        let change = c == '\"' && !escaping;
        if change {
            wrapped = !wrapped;
        }
        escaping = c == '\\';
        if !escaping && !wrapped && c == ')' {
            let ghost t0 = tokens_view(tokens@);
            let done = acc;
            tokens.push(done);
            let mut paren: Vec<char> = Vec::new();
            paren.push(c);
            tokens.push(paren);
            acc = Vec::new();
            assert(tokens_view(tokens@) =~= t0.push(before.acc).push(seq![c]));
            assert(acc@ =~= Seq::<char>::empty());
        } else {
            acc.push(c);
        }
        if (change && !wrapped) || (c == '(' && !escaping && !wrapped) || (is_whitespace(c)
            && !escaping && !wrapped) {
            let ghost t1 = tokens_view(tokens@);
            let ghost a1 = acc@;
            let done = acc;
            tokens.push(done);
            acc = Vec::new();
            assert(tokens_view(tokens@) =~= t1.push(a1));
            assert(acc@ =~= Seq::<char>::empty());
        }
        n += 1;
    }
    let ghost t2 = tokens_view(tokens@);
    let ghost a2 = acc@;
    tokens.push(acc);
    assert(tokens_view(tokens@) =~= t2.push(a2));
    let mut styles: Vec<&'static str> = Vec::new();
    let mut k: usize = 0;
    while k < tokens.len()
        invariant
            k <= tokens.len(),
            styles@.len() == k,
            forall|j: int|
                0 <= j < k ==> (#[trigger] styles@[j])@ == lisp_style(trim(tokens@[j]@)),
        decreases tokens.len() - k,
    {
        let style = lisp_style_exec(&tokens[k]);
        styles.push(style);
        k += 1;
    }
    assert(styles_view(styles@) =~= styles_of(tokens_view(tokens@)));
    proof {
        lemma_tokens_concat(line@);
        lemma_painted_covers(tokens_of(line@), styles_of(tokens_of(line@)));
    }
    paint(&tokens, &styles)
}

impl Language for Tinylisp {
    open spec fn is_kind_spec(&self, filepath: Seq<char>) -> bool {
        ends_with(filepath, ".tlp"@)
    }

    open spec fn highlight_spec(&self, lines: Seq<Seq<char>>) -> Seq<Seq<Glyph>> {
        lisp_grid(lines)
    }

    open spec fn indent_size_spec(&self) -> usize {
        2
    }

    open spec fn display_spec(&self) -> Seq<char> {
        "Tinylisp"@
    }

    fn is_kind(&self, filepath: &str) -> (b: bool) {
        has_extension(filepath, ".tlp")
    }

    fn highlight(&self, buffer: &[String]) -> (grid: Vec<Vec<StyledChar>>) {
        let mut grid: Vec<Vec<StyledChar>> = Vec::new();
        let mut k: usize = 0;
        while k < buffer.len()
            invariant
                k <= buffer.len(),
                grid@.len() == k,
                forall|j: int|
                    0 <= j < k ==> row_view(#[trigger] grid@[j]@) == lisp_row(buffer@[j]@),
                forall|j: int|
                    0 <= j < k ==> row_covers(row_view(#[trigger] grid@[j]@), buffer@[j]@),
            decreases buffer.len() - k,
        {
            let row = highlight_line(buffer[k].as_str());
            grid.push(row);
            k += 1;
        }
        assert(grid_view(grid@) =~= lisp_grid(lines_view(buffer@)));
        assert forall|j: int| 0 <= j < buffer@.len() implies row_covers(
            #[trigger] grid_view(grid@)[j],
            lines_view(buffer@)[j],
        ) by {
            assert(grid_view(grid@)[j] == row_view(grid@[j]@));
        }
        grid
    }

    fn indent_size(&self) -> (n: usize) {
        2
    }

    fn display_str(&self) -> (s: &'static str) {
        "Tinylisp"
    }
}

} // verus!
