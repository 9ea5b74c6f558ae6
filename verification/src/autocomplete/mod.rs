//! Autocomplete: the word before the cursor is the query, and an engine
//! answers it with candidates, best first.

use crate::buffer::Buffer;
use crate::text::{lines_view, unicode_alphanumeric};
use vstd::prelude::*;

pub mod default;
pub mod markdown;

verus! {

/// Whether `c` can stand in a token: an alphanumeric character, an
/// underscore, a hyphen or an apostrophe.
pub open spec fn token_char(c: char) -> bool {
    unicode_alphanumeric(c) || c == '_' || c == '-' || c == '\''
}

/// Whether `c` separates tokens.
pub fn isnt_token_char(c: char) -> (b: bool)
    ensures
        b == !token_char(c),
{
    !crate::text::is_alphanumeric(c) && c != '_' && c != '-' && c != '\''
}

/// The length of the run of token characters at the end of `s`.
pub open spec fn token_suffix_len(s: Seq<char>) -> nat
    decreases s.len(),
{
    if s.len() > 0 && token_char(s.last()) {
        1 + token_suffix_len(s.drop_last())
    } else {
        0
    }
}

/// The query at column `idx` of `line`: the longest run of token characters
/// that ends just before the column.
pub open spec fn query_at(line: Seq<char>, idx: int) -> Seq<char> {
    let before = line.subrange(0, idx);
    before.subrange(before.len() - token_suffix_len(before), before.len() as int)
}

/// The run of token characters at the end of a sequence is no longer than the sequence.
pub proof fn lemma_token_suffix_bound(s: Seq<char>)
    ensures
        token_suffix_len(s) <= s.len(),
    decreases s.len(),
{
    if s.len() > 0 && token_char(s.last()) {
        lemma_token_suffix_bound(s.drop_last());
    }
}

/// The query at column `idx` of `line`.
pub fn extract_query(line: &str, idx: usize) -> (query: Vec<char>)
    requires
        idx <= line@.len(),
    ensures
        query@ == query_at(line@, idx as int),
        query@.len() <= idx,
{
    let chars = crate::text::to_chars(line);
    let ghost before = chars@.subrange(0, idx as int);
    let mut start: usize = idx;
    assert(before.subrange(0, idx as int) =~= before);
    while start > 0 && !isnt_token_char(chars[start - 1])
        invariant
            chars@ == line@,
            start <= idx <= chars.len(),
            before == chars@.subrange(0, idx as int),
            token_suffix_len(before) == (idx - start) + token_suffix_len(
                before.subrange(0, start as int),
            ),
        decreases start,
    {
        assert(before.subrange(0, start as int).drop_last() =~= before.subrange(0, start - 1));
        start -= 1;
    }
    let mut query: Vec<char> = Vec::new();
    let mut i: usize = start;
    while i < idx
        invariant
            start <= i <= idx <= chars.len(),
            query@ == chars@.subrange(start as int, i as int),
        decreases idx - i,
    {
        query.push(chars[i]);
        i += 1;
        assert(query@ =~= chars@.subrange(start as int, i as int));
    }
    assert(query@ =~= query_at(line@, idx as int));
    query
}

/// What an engine is told when the text that it indexes has changed.
pub enum UpdateRequest<'a> {
    /// The whole content of the file at `filepath` is now `new_contents`.
    Whole { filepath: &'a str, new_contents: &'a [String] },
}

impl<'a> UpdateRequest<'a> {
    /// The lines that the request carries.
    pub open spec fn lines(self) -> Seq<Seq<char>> {
        match self {
            UpdateRequest::Whole { filepath, new_contents } => lines_view(new_contents@),
        }
    }
}

/// An autocomplete engine.
pub trait AutoComplete {
    /// Whether the engine's store is in order.
    spec fn wf(&self) -> bool;

    /// The tokens that the engine has stored, in the order in which they came.
    spec fn tokens(&self) -> Seq<Seq<char>>;

    /// The candidates for `query`, best first.
    spec fn candidates_spec(&self, query: Seq<char>) -> Seq<Seq<char>>;

    /// The tokens stored once the lines `lines` have been indexed.
    spec fn tokens_after(&self, lines: Seq<Seq<char>>) -> Seq<Seq<char>>;

    /// Whether the engine is meant for the file at `path`.
    spec fn is_kind_spec(&self, path: Seq<char>) -> bool;

    /// The name shown in the status bar.
    spec fn display_spec(&self) -> Seq<char>;

    /// The candidates for the query before the cursor of `buf`, best first,
    /// and the number of characters of the query.
    fn get_candidates(&self, buf: &Buffer) -> (r: (Vec<String>, usize))
        requires
            self.wf(),
            buf.cursor_ok(),
        ensures
            lines_view(r.0@) == self.candidates_spec(buf.query()),
            r.1 == buf.query().len(),
    ;

    /// Indexes the text of the request.
    fn add_tokens(&mut self, update_request: UpdateRequest)
        requires
            old(self).wf(),
        ensures
            final(self).wf(),
            final(self).tokens() == old(self).tokens_after(update_request.lines()),
    ;

    fn is_kind(&self, path: &str) -> (b: bool)
        ensures
            b == self.is_kind_spec(path@),
    ;

    fn display_str(&self) -> (s: &'static str)
        ensures
            s@ == self.display_spec(),
    ;
}

/// The engines that a buffer can be bound to.
pub enum Engine {
    Markdown(markdown::Markdown),
    Default(default::Default),
}

/// Whether the Markdown engine is the one for `path`.
pub open spec fn markdown_path(path: Seq<char>) -> bool {
    (markdown::Markdown {  }).is_kind_spec(path)
}

impl AutoComplete for Engine {
    open spec fn wf(&self) -> bool {
        match self {
            Engine::Markdown(e) => e.wf(),
            Engine::Default(e) => e.wf(),
        }
    }

    open spec fn tokens(&self) -> Seq<Seq<char>> {
        match self {
            Engine::Markdown(e) => e.tokens(),
            Engine::Default(e) => e.tokens(),
        }
    }

    open spec fn candidates_spec(&self, query: Seq<char>) -> Seq<Seq<char>> {
        match self {
            Engine::Markdown(e) => e.candidates_spec(query),
            Engine::Default(e) => e.candidates_spec(query),
        }
    }

    open spec fn tokens_after(&self, lines: Seq<Seq<char>>) -> Seq<Seq<char>> {
        match self {
            Engine::Markdown(e) => e.tokens_after(lines),
            Engine::Default(e) => e.tokens_after(lines),
        }
    }

    open spec fn is_kind_spec(&self, path: Seq<char>) -> bool {
        match self {
            Engine::Markdown(e) => e.is_kind_spec(path),
            Engine::Default(e) => e.is_kind_spec(path),
        }
    }

    open spec fn display_spec(&self) -> Seq<char> {
        match self {
            Engine::Markdown(e) => e.display_spec(),
            Engine::Default(e) => e.display_spec(),
        }
    }

    fn get_candidates(&self, buf: &Buffer) -> (r: (Vec<String>, usize)) {
        match self {
            Engine::Markdown(e) => e.get_candidates(buf),
            Engine::Default(e) => e.get_candidates(buf),
        }
    }

    fn add_tokens(&mut self, update_request: UpdateRequest)
        ensures
            *final(self) is Markdown <==> *old(self) is Markdown,
    {
        match self {
            Engine::Markdown(e) => e.add_tokens(update_request),
            Engine::Default(e) => e.add_tokens(update_request),
        }
    }

    fn is_kind(&self, path: &str) -> (b: bool) {
        match self {
            Engine::Markdown(e) => e.is_kind(path),
            Engine::Default(e) => e.is_kind(path),
        }
    }

    fn display_str(&self) -> (s: &'static str) {
        match self {
            Engine::Markdown(e) => e.display_str(),
            Engine::Default(e) => e.display_str(),
        }
    }
}

/// The engine for the file at `path`: the Markdown one where its predicate
/// accepts the path, else a default engine with an empty store.
pub fn get_autocomplete_engine(path: &str) -> (engine: Engine)
    ensures
        engine.wf(),
        engine.tokens() == Seq::<Seq<char>>::empty(),
        engine is Markdown <==> markdown_path(path@),
{
    if (markdown::Markdown {  }).is_kind(path) {
        Engine::Markdown(markdown::Markdown {  })
    } else {
        Engine::Default(default::Default::new())
    }
}

} // verus!
