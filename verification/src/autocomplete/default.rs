//! The default engine: it stores every token of the text once, in the order
//! in which the tokens came, and ranks them by their edit distance to the
//! query.

use crate::autocomplete::{extract_query, isnt_token_char, token_char, AutoComplete, UpdateRequest};
use crate::buffer::Buffer;
use crate::text::{chars_eq, from_chars, lines_view, to_chars};
use vstd::prelude::*;

verus! {

/// The least of three numbers.
pub open spec fn min3(a: nat, b: nat, c: nat) -> nat {
    if a <= b && a <= c {
        a
    } else if b <= c {
        b
    } else {
        c
    }
}

/// The edit distance between the first `i` characters of `a` and the first
/// `j` characters of `b`: the least number of insertions, deletions and
/// substitutions of one character that turn one into the other.
pub open spec fn prefix_distance(a: Seq<char>, b: Seq<char>, i: nat, j: nat) -> nat
    decreases i + j,
{
    if i == 0 {
        j
    } else if j == 0 {
        i
    } else {
        let change: nat = if a[i - 1] == b[j - 1] {
            0
        } else {
            1
        };
        min3(
            prefix_distance(a, b, (i - 1) as nat, j) + 1,
            prefix_distance(a, b, i, (j - 1) as nat) + 1,
            prefix_distance(a, b, (i - 1) as nat, (j - 1) as nat) + change,
        )
    }
}

/// The edit distance between `a` and `b`.
pub open spec fn levenshtein(a: Seq<char>, b: Seq<char>) -> nat {
    prefix_distance(a, b, a.len(), b.len())
}

/// The distance between two prefixes is at most the length of the longer one.
pub proof fn lemma_distance_bound(a: Seq<char>, b: Seq<char>, i: nat, j: nat)
    ensures
        prefix_distance(a, b, i, j) <= if i >= j {
            i
        } else {
            j
        },
    decreases i + j,
{
    if i != 0 && j != 0 {
        lemma_distance_bound(a, b, (i - 1) as nat, (j - 1) as nat);
    }
}

/// The distance from the empty string to `b` is the length of `b`.
pub proof fn lemma_distance_from_empty(b: Seq<char>)
    ensures
        levenshtein(Seq::empty(), b) == b.len(),
{
}

/// The distance between equal prefixes of one string is 0.
pub proof fn lemma_prefix_distance_to_self(a: Seq<char>, i: nat)
    requires
        i <= a.len(),
    ensures
        prefix_distance(a, a, i, i) == 0,
    decreases i,
{
    if i > 0 {
        lemma_prefix_distance_to_self(a, (i - 1) as nat);
    }
}

/// The distance from a string to itself is 0.
pub proof fn lemma_distance_to_self(a: Seq<char>)
    ensures
        levenshtein(a, a) == 0,
{
    lemma_prefix_distance_to_self(a, a.len());
}

/// Where the store holds the query itself, the ranking begins with a token
/// at distance 0 from the query.
pub proof fn lemma_exact_match_is_nearest(tokens: Seq<Seq<char>>, q: Seq<char>)
    requires
        tokens.contains(q),
    ensures
        ranked(tokens, q).len() > 0,
        levenshtein(q, ranked(tokens, q)[0]) == 0,
{
    broadcast use vstd::seq_lib::group_to_multiset_ensures;

    lemma_ranked_sorted(tokens, q);
    lemma_distance_to_self(q);
    let r = ranked(tokens, q);
    assert(tokens.to_multiset().count(q) > 0);
    assert(r.to_multiset().count(q) > 0);
    let k = choose|k: int| 0 <= k < r.len() && r[k] == q;
    assert(levenshtein(q, r[0]) <= levenshtein(q, r[k]));
}

/// The edit distance between `string1` and `string2`, computed row by row
/// in a single vector.
pub fn optimized_levenshtein_distance(string1: &str, string2: &str) -> (d: usize)
    ensures
        d == levenshtein(string1@, string2@),
{
    let a = to_chars(string1);
    let b = to_chars(string2);
    distance(&a, &b)
}

/// The edit distance between `a` and `b`.
pub fn distance(a: &Vec<char>, b: &Vec<char>) -> (d: usize)
    ensures
        d == levenshtein(a@, b@),
{
    let l1: usize = a.len();
    let l2: usize = b.len();
    if l1 == 0 {
        return l2;
    }
    let mut prev: Vec<usize> = Vec::new();
    let mut c: usize = 0;
    while c < l1
        invariant
            c <= l1,
            prev@.len() == c,
            forall|k: int| 0 <= k < c ==> prev@[k] == k,
        decreases l1 - c,
    {
        prev.push(c);
        c += 1;
    }
    prev.push(l1);
    let mut row: usize = 0;
    while row < l2
        invariant
            l1 == a@.len(),
            l2 == b@.len(),
            l1 > 0,
            row <= l2,
            prev@.len() == l1 + 1,
            forall|k: int|
                0 <= k <= l1 ==> prev@[k] == prefix_distance(a@, b@, k as nat, row as nat),
        decreases l2 - row,
    {
        let mut diagonal: usize = prev[0];
        prev[0] = row + 1;
        let mut col: usize = 0;
        while col < l1
            invariant
                l1 == a@.len(),
                l2 == b@.len(),
                row < l2,
                col <= l1,
                prev@.len() == l1 + 1,
                diagonal == prefix_distance(a@, b@, col as nat, row as nat),
                forall|k: int|
                    0 <= k <= col ==> prev@[k] == prefix_distance(
                        a@,
                        b@,
                        k as nat,
                        (row + 1) as nat,
                    ),
                forall|k: int|
                    col < k <= l1 ==> prev@[k] == prefix_distance(a@, b@, k as nat, row as nat),
            decreases l1 - col,
        {
            proof {
                lemma_distance_bound(a@, b@, col as nat, row as nat);
            }
            let least: usize = if prev[col] <= prev[col + 1] {
                prev[col]
            } else {
                prev[col + 1]
            };
            let change: usize = if a[col] == b[row] {
                diagonal
            } else {
                diagonal + 1
            };
            let value: usize = if least < change {
                least + 1
            } else {
                change
            };
            diagonal = prev[col + 1];
            prev[col + 1] = value;
            col += 1;
        }
        row += 1;
    }
    prev[l1]
}

/// Whether `t` is a token: a run of one or more token characters.
pub open spec fn is_token(t: Seq<char>) -> bool {
    t.len() > 0 && forall|i: int| 0 <= i < t.len() ==> token_char(#[trigger] t[i])
}

/// Whether every member of `s` is a token.
pub open spec fn all_tokens(s: Seq<Seq<char>>) -> bool {
    forall|i: int| 0 <= i < s.len() ==> is_token(#[trigger] s[i])
}

/// The run `piece`, where it is not empty.
pub open spec fn run(piece: Seq<char>) -> Seq<Seq<char>> {
    if piece.len() > 0 {
        seq![piece]
    } else {
        Seq::empty()
    }
}

/// The maximal runs of token characters in `s`, in order, when `piece`
/// holds the characters of the run that is being read.
pub open spec fn split_pieces(s: Seq<char>, piece: Seq<char>) -> Seq<Seq<char>>
    decreases s.len(),
{
    if s.len() == 0 {
        run(piece)
    } else if !token_char(s[0]) {
        run(piece) + split_pieces(s.drop_first(), Seq::empty())
    } else {
        split_pieces(s.drop_first(), piece.push(s[0]))
    }
}

/// The tokens of the lines, line by line: the maximal runs of token
/// characters in each line. No token spans two lines.
pub open spec fn tokens_in(lines: Seq<Seq<char>>) -> Seq<Seq<char>>
    decreases lines.len(),
{
    if lines.len() == 0 {
        Seq::empty()
    } else {
        tokens_in(lines.drop_last()) + split_pieces(lines.last(), Seq::empty())
    }
}

/// The runs that are split off a text are tokens.
pub proof fn lemma_split_pieces_are_tokens(s: Seq<char>, piece: Seq<char>)
    requires
        forall|i: int| 0 <= i < piece.len() ==> token_char(#[trigger] piece[i]),
    ensures
        all_tokens(split_pieces(s, piece)),
    decreases s.len(),
{
    if s.len() == 0 {
    } else if !token_char(s[0]) {
        lemma_split_pieces_are_tokens(s.drop_first(), Seq::empty());
        let head = run(piece);
        let tail = split_pieces(s.drop_first(), Seq::empty());
        assert forall|i: int| 0 <= i < (head + tail).len() implies is_token(
            #[trigger] (head + tail)[i],
        ) by {
            if i >= head.len() {
                assert((head + tail)[i] == tail[i - head.len()]);
            }
        }
    } else {
        let more = piece.push(s[0]);
        assert forall|i: int| 0 <= i < more.len() implies token_char(#[trigger] more[i]) by {
            if i < piece.len() {
                assert(more[i] == piece[i]);
            }
        }
        lemma_split_pieces_are_tokens(s.drop_first(), more);
    }
}

/// Every token of a text is a run of one or more token characters.
pub proof fn lemma_tokens_in_are_tokens(lines: Seq<Seq<char>>)
    ensures
        all_tokens(tokens_in(lines)),
    decreases lines.len(),
{
    if lines.len() > 0 {
        lemma_tokens_in_are_tokens(lines.drop_last());
        lemma_split_pieces_are_tokens(lines.last(), Seq::empty());
        let head = tokens_in(lines.drop_last());
        let tail = split_pieces(lines.last(), Seq::empty());
        assert forall|i: int| 0 <= i < (head + tail).len() implies is_token(
            #[trigger] (head + tail)[i],
        ) by {
            if i >= head.len() {
                assert((head + tail)[i] == tail[i - head.len()]);
            }
        }
    }
}

/// Merging tokens into a store of tokens without duplicates gives such a
/// store again, which keeps the tokens that it had, in their order.
pub proof fn lemma_merge_keeps_store(store: Seq<Seq<char>>, new: Seq<Seq<char>>)
    requires
        store.no_duplicates(),
        all_tokens(store),
        all_tokens(new),
    ensures
        merge(store, new).no_duplicates(),
        all_tokens(merge(store, new)),
        store.len() <= merge(store, new).len(),
        merge(store, new).subrange(0, store.len() as int) == store,
        forall|i: int| 0 <= i < new.len() ==> merge(store, new).contains(#[trigger] new[i]),
        forall|i: int|
            0 <= i < merge(store, new).len() ==> store.contains(#[trigger] merge(store, new)[i])
                || new.contains(merge(store, new)[i]),
    decreases new.len(),
{
    if new.len() == 0 {
        assert(store.subrange(0, store.len() as int) =~= store);
    } else {
        let head = new.drop_last();
        assert forall|i: int| 0 <= i < head.len() implies is_token(#[trigger] head[i]) by {
            assert(head[i] == new[i]);
        }
        lemma_merge_keeps_store(store, head);
        let merged = merge(store, head);
        let out = merge(store, new);
        assert(is_token(new[new.len() - 1]));
        if !merged.contains(new.last()) {
            assert(out.subrange(0, store.len() as int) =~= merged.subrange(0, store.len() as int));
            assert(out[out.len() - 1] == new.last());
        }
        assert forall|i: int| 0 <= i < out.len() implies store.contains(#[trigger] out[i])
            || new.contains(out[i]) by {
            if i < merged.len() {
                assert(out[i] == merged[i]);
                if !store.contains(merged[i]) {
                    let k = choose|k: int| 0 <= k < head.len() && head[k] == merged[i];
                    assert(new[k] == out[i]);
                }
            } else {
                assert(out[i] == new[new.len() - 1]);
            }
        }
        assert forall|i: int| 0 <= i < new.len() implies out.contains(#[trigger] new[i]) by {
            if i < head.len() {
                assert(head[i] == new[i]);
                let k = choose|k: int| 0 <= k < merged.len() && merged[k] == head[i];
                assert(out[k] == new[i]);
            } else if merged.contains(new.last()) {
            } else {
                assert(out[out.len() - 1] == new[i]);
            }
        }
    }
}

/// `store` with each token of `new` that it lacks added at its end, in order.
pub open spec fn merge(store: Seq<Seq<char>>, new: Seq<Seq<char>>) -> Seq<Seq<char>>
    decreases new.len(),
{
    if new.len() == 0 {
        store
    } else {
        let merged = merge(store, new.drop_last());
        if merged.contains(new.last()) {
            merged
        } else {
            merged.push(new.last())
        }
    }
}

/// `sorted` with `t` put behind every token that is no farther from `q` than `t` is.
pub open spec fn insert_ranked(sorted: Seq<Seq<char>>, t: Seq<char>, q: Seq<char>) -> Seq<
    Seq<char>,
>
    decreases sorted.len(),
{
    if sorted.len() == 0 {
        seq![t]
    } else if levenshtein(q, sorted.last()) <= levenshtein(q, t) {
        sorted.push(t)
    } else {
        insert_ranked(sorted.drop_last(), t, q).push(sorted.last())
    }
}

/// The tokens in ascending order of their distance to `q`; tokens at the
/// same distance keep the order that they have in `tokens`.
pub open spec fn ranked(tokens: Seq<Seq<char>>, q: Seq<char>) -> Seq<Seq<char>>
    decreases tokens.len(),
{
    if tokens.len() == 0 {
        Seq::empty()
    } else {
        insert_ranked(ranked(tokens.drop_last(), q), tokens.last(), q)
    }
}

/// Whether the distances to `q` never fall along `s`.
pub open spec fn ascending(s: Seq<Seq<char>>, q: Seq<char>) -> bool {
    forall|i: int, j: int|
        0 <= i <= j < s.len() ==> levenshtein(q, #[trigger] s[i]) <= levenshtein(
            q,
            #[trigger] s[j],
        )
}

/// Where `insert_ranked` puts a token: at the index `p` behind which every
/// token is farther from `q`, and before which the nearest one is not.
pub proof fn lemma_insert_position(sorted: Seq<Seq<char>>, t: Seq<char>, q: Seq<char>, p: int)
    requires
        0 <= p <= sorted.len(),
        forall|i: int| p <= i < sorted.len() ==> levenshtein(q, sorted[i]) > levenshtein(q, t),
        p == 0 || levenshtein(q, sorted[p - 1]) <= levenshtein(q, t),
    ensures
        insert_ranked(sorted, t, q) == sorted.insert(p, t),
    decreases sorted.len(),
{
    if sorted.len() == 0 {
        assert(seq![t] =~= sorted.insert(p, t));
    } else if p == sorted.len() {
        assert(sorted.push(t) =~= sorted.insert(p, t));
    } else {
        lemma_insert_position(sorted.drop_last(), t, q, p);
        assert(sorted.drop_last().insert(p, t).push(sorted.last()) =~= sorted.insert(p, t));
    }
}

/// Putting a token into an ascending sequence leaves it ascending, and one longer.
pub proof fn lemma_insert_ascending(sorted: Seq<Seq<char>>, t: Seq<char>, q: Seq<char>)
    requires
        ascending(sorted, q),
    ensures
        ascending(insert_ranked(sorted, t, q), q),
        insert_ranked(sorted, t, q).len() == sorted.len() + 1,
        insert_ranked(sorted, t, q).to_multiset() == sorted.to_multiset().insert(t),
    decreases sorted.len(),
{
    broadcast use vstd::seq_lib::group_to_multiset_ensures;

    if sorted.len() == 0 {
        assert(seq![t] =~= sorted.push(t));
    } else if levenshtein(q, sorted.last()) <= levenshtein(q, t) {
    } else {
        let head = sorted.drop_last();
        assert forall|i: int, j: int| 0 <= i <= j < head.len() implies levenshtein(
            q,
            #[trigger] head[i],
        ) <= levenshtein(q, #[trigger] head[j]) by {
            assert(head[i] == sorted[i] && head[j] == sorted[j]);
        }
        lemma_insert_ascending(head, t, q);
        let mid = insert_ranked(head, t, q);
        let out = mid.push(sorted.last());
        assert forall|i: int, j: int| 0 <= i <= j < out.len() implies levenshtein(
            q,
            #[trigger] out[i],
        ) <= levenshtein(q, #[trigger] out[j]) by {
            if j == out.len() - 1 && i < j {
                // every token of `mid` is `t` or a token of `head`
                assert(mid.to_multiset().count(mid[i]) > 0);
                if mid[i] != t {
                    assert(head.to_multiset().count(mid[i]) > 0);
                    let k = choose|k: int| 0 <= k < head.len() && head[k] == mid[i];
                    assert(sorted[k] == head[k]);
                    assert(levenshtein(q, sorted[k]) <= levenshtein(q, sorted[sorted.len() - 1]));
                }
            } else if j < out.len() - 1 {
                assert(out[i] == mid[i] && out[j] == mid[j]);
            }
        }
        assert(sorted =~= head.push(sorted.last()));
    }
}

/// The ranking holds every token exactly as often as the store does, and
/// the distances to the query never fall along it.
pub proof fn lemma_ranked_sorted(tokens: Seq<Seq<char>>, q: Seq<char>)
    ensures
        ascending(ranked(tokens, q), q),
        ranked(tokens, q).len() == tokens.len(),
        ranked(tokens, q).to_multiset() == tokens.to_multiset(),
    decreases tokens.len(),
{
    broadcast use vstd::seq_lib::group_to_multiset_ensures;

    if tokens.len() > 0 {
        lemma_ranked_sorted(tokens.drop_last(), q);
        lemma_insert_ascending(ranked(tokens.drop_last(), q), tokens.last(), q);
        assert(tokens =~= tokens.drop_last().push(tokens.last()));
    }
}

/// The tokens of `s` that are at distance `k` from `q`, in their order.
pub open spec fn at_distance(s: Seq<Seq<char>>, q: Seq<char>, k: nat) -> Seq<Seq<char>>
    decreases s.len(),
{
    if s.len() == 0 {
        Seq::empty()
    } else if levenshtein(q, s.last()) == k {
        at_distance(s.drop_last(), q, k).push(s.last())
    } else {
        at_distance(s.drop_last(), q, k)
    }
}

/// A token that is put into a ranking comes last among the tokens at its
/// own distance, and the tokens at any other distance stay as they are.
pub proof fn lemma_insert_stable(sorted: Seq<Seq<char>>, t: Seq<char>, q: Seq<char>, k: nat)
    ensures
        at_distance(insert_ranked(sorted, t, q), q, k) == (if levenshtein(q, t) == k {
            at_distance(sorted, q, k).push(t)
        } else {
            at_distance(sorted, q, k)
        }),
    decreases sorted.len(),
{
    if sorted.len() == 0 {
        assert(seq![t].drop_last() =~= sorted);
        assert(seq![t].last() == t);
    } else if levenshtein(q, sorted.last()) <= levenshtein(q, t) {
        assert(sorted.push(t).drop_last() =~= sorted);
    } else {
        lemma_insert_stable(sorted.drop_last(), t, q, k);
        let out = insert_ranked(sorted.drop_last(), t, q).push(sorted.last());
        assert(out.drop_last() =~= insert_ranked(sorted.drop_last(), t, q));
        assert(out.last() == sorted.last());
    }
}

/// Ties are stable: the tokens at any one distance from the query stand in
/// the ranking in the order in which they stand in the store.
pub proof fn lemma_ranked_stable(tokens: Seq<Seq<char>>, q: Seq<char>, k: nat)
    ensures
        at_distance(ranked(tokens, q), q, k) == at_distance(tokens, q, k),
    decreases tokens.len(),
{
    if tokens.len() > 0 {
        lemma_ranked_stable(tokens.drop_last(), q, k);
        lemma_insert_stable(ranked(tokens.drop_last(), q), tokens.last(), q, k);
    }
}

/// With an empty query the ranking orders the tokens by their length.
pub proof fn lemma_ranked_by_length(tokens: Seq<Seq<char>>)
    ensures
        forall|i: int, j: int|
            0 <= i <= j < tokens.len() ==> (#[trigger] ranked(tokens, Seq::empty())[i]).len() <= (
            #[trigger] ranked(tokens, Seq::empty())[j]).len(),
{
    let q = Seq::<char>::empty();
    lemma_ranked_sorted(tokens, q);
    let r = ranked(tokens, q);
    assert forall|i: int, j: int| 0 <= i <= j < tokens.len() implies (#[trigger] r[i]).len() <= (
    #[trigger] r[j]).len() by {
        lemma_distance_from_empty(r[i]);
        lemma_distance_from_empty(r[j]);
    }
}

/// The store of the default engine.
pub struct Default {
    tokens: Vec<String>,
}

impl Default {
    /// An engine with an empty store.
    pub fn new() -> (engine: Self)
        ensures
            engine.wf(),
            engine.tokens() == Seq::<Seq<char>>::empty(),
    {
        let engine = Default { tokens: Vec::new() };
        assert(lines_view(engine.tokens@) =~= Seq::<Seq<char>>::empty());
        engine
    }

    /// Whether the store holds `token`.
    fn holds(&self, token: &Vec<char>) -> (b: bool)
        ensures
            b == self.tokens().contains(token@),
    {
        let mut i: usize = 0;
        while i < self.tokens.len()
            invariant
                i <= self.tokens.len(),
                forall|k: int| 0 <= k < i ==> self.tokens@[k]@ != token@,
            decreases self.tokens.len() - i,
        {
            let stored = to_chars(self.tokens[i].as_str());
            if chars_eq(&stored, token) {
                assert(lines_view(self.tokens@)[i as int] == token@);
                return true;
            }
            i += 1;
        }
        assert forall|k: int| 0 <= k < self.tokens().len() implies self.tokens()[k] != token@ by {
            assert(self.tokens()[k] == self.tokens@[k]@);
        }
        false
    }

    /// Adds the run `piece` to the store, unless it is empty or the store
    /// holds it.
    fn add(&mut self, piece: &Vec<char>)
        requires
            old(self).wf(),
            forall|i: int| 0 <= i < piece@.len() ==> token_char(#[trigger] piece@[i]),
        ensures
            final(self).wf(),
            final(self).tokens() == (if piece@.len() == 0 || old(self).tokens().contains(piece@) {
                old(self).tokens()
            } else {
                old(self).tokens().push(piece@)
            }),
    {
        if piece.len() != 0 && !self.holds(piece) {
            let ghost before = self.tokens();
            let s = from_chars(piece);
            self.tokens.push(s);
            assert(self.tokens() =~= before.push(piece@));
        }
    }

    /// The stored tokens, ranked for `query`.
    fn rank(&self, query: &Vec<char>) -> (out: Vec<String>)
        ensures
            lines_view(out@) == ranked(self.tokens(), query@),
    {
        let mut out: Vec<String> = Vec::new();
        let mut dists: Vec<usize> = Vec::new();
        let ghost all = self.tokens();
        let mut k: usize = 0;
        assert(all.subrange(0, 0) =~= Seq::<Seq<char>>::empty());
        assert(lines_view(out@) =~= Seq::<Seq<char>>::empty());
        while k < self.tokens.len()
            invariant
                all == self.tokens(),
                all.len() == self.tokens@.len(),
                k <= self.tokens.len(),
                out@.len() == dists@.len(),
                lines_view(out@) == ranked(all.subrange(0, k as int), query@),
                forall|i: int|
                    0 <= i < out@.len() ==> dists@[i] == levenshtein(query@, (#[trigger] out@[i])@),
            decreases self.tokens.len() - k,
        {
            let token = to_chars(self.tokens[k].as_str());
            let d = distance(query, &token);
            let mut p: usize = out.len();
            while p > 0 && dists[p - 1] > d
                invariant
                    p <= out@.len(),
                    out@.len() == dists@.len(),
                    forall|i: int| p <= i < out@.len() ==> dists@[i] > d,
                decreases p,
            {
                p -= 1;
            }
            let ghost sorted = lines_view(out@);
            let ghost old_out = out@;
            let ghost old_dists = dists@;
            let s = from_chars(&token);
            out.insert(p, s);
            dists.insert(p, d);
            k += 1;
            proof {
                assert(lines_view(out@) =~= sorted.insert(p as int, token@));
                assert forall|i: int| p <= i < sorted.len() implies levenshtein(query@, sorted[i])
                    > levenshtein(query@, token@) by {
                    assert(sorted[i] == old_out[i]@);
                    assert(old_dists[i] > d);
                }
                lemma_insert_position(sorted, token@, query@, p as int);
                assert(all.subrange(0, k as int).drop_last() =~= all.subrange(0, k - 1));
                assert(all.subrange(0, k as int).last() == token@);
            }
        }
        assert(all.subrange(0, all.len() as int) =~= all);
        out
    }
}

impl AutoComplete for Default {
    /// No token is stored twice, and every stored token is a run of one or
    /// more token characters.
    open spec fn wf(&self) -> bool {
        self.tokens().no_duplicates() && all_tokens(self.tokens())
    }

    closed spec fn tokens(&self) -> Seq<Seq<char>> {
        lines_view(self.tokens@)
    }

    open spec fn candidates_spec(&self, query: Seq<char>) -> Seq<Seq<char>> {
        ranked(self.tokens(), query)
    }

    open spec fn tokens_after(&self, lines: Seq<Seq<char>>) -> Seq<Seq<char>> {
        merge(self.tokens(), tokens_in(lines))
    }

    open spec fn is_kind_spec(&self, path: Seq<char>) -> bool {
        true
    }

    open spec fn display_spec(&self) -> Seq<char> {
        "Text"@
    }

    fn get_candidates(&self, buf: &Buffer) -> (r: (Vec<String>, usize)) {
        let query = extract_query(buf.contents[buf.cursor_pos.line].as_str(), buf.cursor_pos.idx);
        (self.rank(&query), query.len())
    }

    fn add_tokens(&mut self, update_request: UpdateRequest) {
        let UpdateRequest::Whole { filepath: _, new_contents } = update_request;
        let ghost start = self.tokens();
        let ghost all = lines_view(new_contents@);
        let mut k: usize = 0;
        assert(all.subrange(0, 0) =~= Seq::<Seq<char>>::empty());
        while k < new_contents.len()
            invariant
                k <= new_contents.len(),
                all == lines_view(new_contents@),
                self.wf(),
                self.tokens() == merge(start, tokens_in(all.subrange(0, k as int))),
            decreases new_contents.len() - k,
        {
            let text = to_chars(new_contents[k].as_str());
            let ghost before = tokens_in(all.subrange(0, k as int));
            let ghost mut done: Seq<Seq<char>> = before;
            let mut piece: Vec<char> = Vec::new();
            let mut i: usize = 0;
            assert(text@.subrange(0, text@.len() as int) =~= text@);
            while i < text.len()
                invariant
                    i <= text.len(),
                    self.wf(),
                    self.tokens() == merge(start, done),
                    forall|j: int| 0 <= j < piece@.len() ==> token_char(#[trigger] piece@[j]),
                    done + split_pieces(text@.subrange(i as int, text@.len() as int), piece@)
                        == before + split_pieces(text@, Seq::empty()),
                decreases text.len() - i,
            {
                let c: char = text[i];
                let ghost rest = text@.subrange(i as int, text@.len() as int);
                assert(rest.drop_first() =~= text@.subrange(i + 1, text@.len() as int));
                if isnt_token_char(c) {
                    self.add(&piece);
                    proof {
                        let more = done + run(piece@);
                        if piece@.len() > 0 {
                            assert(more =~= done.push(piece@));
                            assert(more.drop_last() =~= done);
                        } else {
                            assert(more =~= done);
                        }
                        assert(more + split_pieces(rest.drop_first(), Seq::empty()) =~= done + (
                        run(piece@) + split_pieces(rest.drop_first(), Seq::empty())));
                        done = more;
                    }
                    piece = Vec::new();
                } else {
                    piece.push(c);
                }
                i += 1;
            }
            self.add(&piece);
            k += 1;
            proof {
                let more = done + run(piece@);
                if piece@.len() > 0 {
                    assert(more =~= done.push(piece@));
                    assert(more.drop_last() =~= done);
                } else {
                    assert(more =~= done);
                }
                let upto = all.subrange(0, k as int);
                assert(upto.drop_last() =~= all.subrange(0, k - 1));
                assert(upto.last() == text@);
                assert(more =~= tokens_in(upto));
            }
        }
        assert(all.subrange(0, all.len() as int) =~= all);
    }

    fn is_kind(&self, _path: &str) -> (b: bool) {
        true
    }

    fn display_str(&self) -> (s: &'static str) {
        "Text"
    }
}

} // verus!
