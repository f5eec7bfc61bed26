//! Splitting a SQL script into statements.
//!
//! A semicolon ends a statement only at the top level: not inside a
//! single-quoted string literal (`'...'`, where `''` is an escaped quote), a
//! double-quoted identifier (`"..."`, where `""` is an escaped quote), a line
//! comment (`-- ...` up to the end of the line) or a block comment
//! (`/* ... */`). Every piece between two such semicolons (and the piece after
//! the last one) is trimmed of white space, and the pieces that are then empty
//! are dropped.
//!
//! All characters that drive the lexer are ASCII, so scanning characters and
//! scanning UTF-8 bytes find the same terminators.

use vstd::prelude::*;
use crate::text::{chars_of, is_white_space, string_of, trim, trim_bounds, trim_end, trim_start};

verus! {

/// Where the lexer stands between two characters.
#[derive(Clone, Copy, PartialEq, Eq, Structural, Debug)]
pub enum LexState {
    /// Outside literals and comments.
    Top,
    /// Inside `'...'`.
    SingleQuoted,
    /// Inside `"..."`.
    DoubleQuoted,
    /// Inside `-- ...`, up to the end of the line.
    LineComment,
    /// Inside `/* ... */`.
    BlockComment,
}

/// `s[i + 1] == c`, for the look-ahead of two-character tokens.
pub open spec fn next_is(s: Seq<char>, i: int, c: char) -> bool {
    i + 1 < s.len() && s[i + 1] == c
}

/// One step of the lexer at position `i` in state `st`: the next position, the
/// next state, and whether `s[i]` is a statement terminator.
pub open spec fn lex_step(s: Seq<char>, i: int, st: LexState) -> (int, LexState, bool) {
    let c = s[i];
    match st {
        LexState::LineComment => if c == '\n' {
            (i + 1, LexState::Top, false)
        } else {
            (i + 1, LexState::LineComment, false)
        },
        LexState::BlockComment => if c == '*' && next_is(s, i, '/') {
            (i + 2, LexState::Top, false)
        } else {
            (i + 1, LexState::BlockComment, false)
        },
        LexState::SingleQuoted => if c == '\'' {
            if next_is(s, i, '\'') {
                (i + 2, LexState::SingleQuoted, false)
            } else {
                (i + 1, LexState::Top, false)
            }
        } else {
            (i + 1, LexState::SingleQuoted, false)
        },
        LexState::DoubleQuoted => if c == '"' {
            if next_is(s, i, '"') {
                (i + 2, LexState::DoubleQuoted, false)
            } else {
                (i + 1, LexState::Top, false)
            }
        } else {
            (i + 1, LexState::DoubleQuoted, false)
        },
        LexState::Top => if c == '\'' {
            (i + 1, LexState::SingleQuoted, false)
        } else if c == '"' {
            (i + 1, LexState::DoubleQuoted, false)
        } else if c == '-' && next_is(s, i, '-') {
            (i + 2, LexState::LineComment, false)
        } else if c == '/' && next_is(s, i, '*') {
            (i + 2, LexState::BlockComment, false)
        } else if c == ';' {
            (i + 1, LexState::Top, true)
        } else {
            (i + 1, LexState::Top, false)
        },
    }
}

/// Positions of the statement terminators found by lexing `s` from position
/// `i` in state `st`, in increasing order.
pub open spec fn terminators(s: Seq<char>, i: int, st: LexState) -> Seq<int>
    decreases s.len() - i,
{
    if i < 0 || i >= s.len() {
        Seq::empty()
    } else {
        let (j, st2, cut) = lex_step(s, i, st);
        if cut {
            seq![i].add(terminators(s, j, st2))
        } else {
            terminators(s, j, st2)
        }
    }
}

/// A trimmed piece, kept only when it is not empty.
pub open spec fn keep(piece: Seq<char>) -> Seq<Seq<char>> {
    if trim(piece).len() > 0 {
        seq![trim(piece)]
    } else {
        Seq::empty()
    }
}

/// The statements cut out of `s` by the terminator positions `cuts`, the
/// first piece starting at `start`.
pub open spec fn pieces(s: Seq<char>, start: int, cuts: Seq<int>) -> Seq<Seq<char>>
    decreases cuts.len(),
{
    if cuts.len() == 0 {
        keep(s.subrange(start, s.len() as int))
    } else {
        keep(s.subrange(start, cuts[0])).add(pieces(s, cuts[0] + 1, cuts.drop_first()))
    }
}

/// The statements of the SQL script `s`.
pub open spec fn sql_statements(s: Seq<char>) -> Seq<Seq<char>> {
    pieces(s, 0, terminators(s, 0, LexState::Top))
}

/// Character views of a list of strings.
pub open spec fn views(v: Seq<String>) -> Seq<Seq<char>> {
    v.map_values(|x: String| x@)
}

fn lex_step_exec(v: &Vec<char>, i: usize, st: LexState) -> (r: (usize, LexState, bool))
    requires
        i < v.len(),
    ensures
        (r.0 as int, r.1, r.2) == lex_step(v@, i as int, st),
        r.0 <= v.len(),
{
    let n = v.len();
    let c = v[i];
    let next_is_char = |d: char| -> (b: bool)
        ensures
            b == next_is(v@, i as int, d),
        { i + 1 < n && v[i + 1] == d };
    match st {
        LexState::LineComment => {
            if c == '\n' {
                (i + 1, LexState::Top, false)
            } else {
                (i + 1, LexState::LineComment, false)
            }
        },
        LexState::BlockComment => {
            if c == '*' && next_is_char('/') {
                (i + 2, LexState::Top, false)
            } else {
                (i + 1, LexState::BlockComment, false)
            }
        },
        LexState::SingleQuoted => {
            if c == '\'' {
                if next_is_char('\'') {
                    (i + 2, LexState::SingleQuoted, false)
                } else {
                    (i + 1, LexState::Top, false)
                }
            } else {
                (i + 1, LexState::SingleQuoted, false)
            }
        },
        LexState::DoubleQuoted => {
            if c == '"' {
                if next_is_char('"') {
                    (i + 2, LexState::DoubleQuoted, false)
                } else {
                    (i + 1, LexState::Top, false)
                }
            } else {
                (i + 1, LexState::DoubleQuoted, false)
            }
        },
        LexState::Top => {
            if c == '\'' {
                (i + 1, LexState::SingleQuoted, false)
            } else if c == '"' {
                (i + 1, LexState::DoubleQuoted, false)
            } else if c == '-' && next_is_char('-') {
                (i + 2, LexState::LineComment, false)
            } else if c == '/' && next_is_char('*') {
                (i + 2, LexState::BlockComment, false)
            } else if c == ';' {
                (i + 1, LexState::Top, true)
            } else {
                (i + 1, LexState::Top, false)
            }
        },
    }
}

/// Appends the trimmed piece `v[lo..hi]` to `out` when it is not empty.
fn push_piece(out: &mut Vec<String>, v: &Vec<char>, lo: usize, hi: usize)
    requires
        lo <= hi <= v.len(),
    ensures
        views(final(out)@) == views(old(out)@) + keep(v@.subrange(lo as int, hi as int)),
{
    let (a, b) = trim_bounds(v, lo, hi);
    if a < b {
        let stmt = string_of(v, a, b);
        out.push(stmt);
        assert(views(out@) =~= views(old(out)@) + keep(v@.subrange(lo as int, hi as int)));
    } else {
        assert(views(out@) =~= views(old(out)@) + keep(v@.subrange(lo as int, hi as int)));
    }
}

/// Splits a SQL script into its statements (see the module documentation).
pub fn split_sql_statements(sql: &str) -> (stmts: Vec<String>)
    ensures
        views(stmts@) == sql_statements(sql@),
{
    let v = chars_of(sql);
    let n = v.len();
    let mut stmts: Vec<String> = Vec::new();
    let mut start: usize = 0;
    let mut i: usize = 0;
    let mut st = LexState::Top;
    while i < n
        invariant
            v@ == sql@,
            n == v.len(),
            start <= i <= n,
            sql_statements(v@) == views(stmts@) + pieces(v@, start as int, terminators(v@, i as int, st)),
        decreases n - i,
    {
        let (j, st2, cut) = lex_step_exec(&v, i, st);
        let ghost rest = terminators(v@, j as int, st2);
        assert(terminators(v@, i as int, st) == if cut {
            seq![i as int].add(rest)
        } else {
            rest
        });
        if cut {
            assert(seq![i as int].add(rest)[0] == i as int);
            assert(seq![i as int].add(rest).drop_first() =~= rest);
            push_piece(&mut stmts, &v, start, i);
            assert(sql_statements(v@) =~= views(stmts@) + pieces(v@, i + 1, rest));
            start = i + 1;
        }
        i = j;
        st = st2;
    }
    push_piece(&mut stmts, &v, start, n);
    stmts
}


proof fn lemma_trim_start_shape(x: Seq<char>)
    ensures
        trim_start(x).len() == 0 || !is_white_space(trim_start(x)[0]),
        exists|k: int| 0 <= k <= x.len() && trim_start(x) == x.subrange(k, x.len() as int),
    decreases x.len(),
{
    if x.len() > 0 && is_white_space(x[0]) {
        lemma_trim_start_shape(x.drop_first());
        let k = choose|k: int|
            0 <= k <= x.drop_first().len() && trim_start(x.drop_first()) == x.drop_first().subrange(
                k,
                x.drop_first().len() as int,
            );
        assert(x.drop_first().subrange(k, x.drop_first().len() as int) =~= x.subrange(
            k + 1,
            x.len() as int,
        ));
    } else {
        assert(x.subrange(0, x.len() as int) =~= x);
    }
}

proof fn lemma_trim_end_shape(x: Seq<char>)
    ensures
        trim_end(x).len() == 0 || !is_white_space(trim_end(x).last()),
        exists|k: int| 0 <= k <= x.len() && trim_end(x) == x.subrange(0, k),
    decreases x.len(),
{
    if x.len() > 0 && is_white_space(x.last()) {
        lemma_trim_end_shape(x.drop_last());
        let k = choose|k: int|
            0 <= k <= x.drop_last().len() && trim_end(x.drop_last()) == x.drop_last().subrange(
                0,
                k,
            );
        assert(x.drop_last().subrange(0, k) =~= x.subrange(0, k));
    } else {
        assert(x.subrange(0, x.len() as int) =~= x);
    }
}

/// Trimming is idempotent: a trimmed string has no white space at either end.
pub proof fn lemma_trim_idempotent(x: Seq<char>)
    ensures
        trim(trim(x)) == trim(x),
        trim(x).len() == 0 || (!is_white_space(trim(x)[0]) && !is_white_space(
            trim(x).last(),
        )),
{
    let y = trim_start(x);
    lemma_trim_start_shape(x);
    lemma_trim_end_shape(y);
    let t = trim_end(y);
    let k = choose|k: int| 0 <= k <= y.len() && trim_end(y) == y.subrange(0, k);
    if t.len() > 0 {
        assert(t[0] == y[0]);
        assert(trim_start(t) == t);
        assert(trim_end(t) == t);
    } else {
        assert(trim_start(t) == t);
        assert(trim_end(t) == t);
    }
}

proof fn lemma_pieces_trimmed(s: Seq<char>, start: int, cuts: Seq<int>)
    ensures
        forall|k: int|
            0 <= k < pieces(s, start, cuts).len() ==> (#[trigger] pieces(s, start, cuts)[k]).len()
                > 0 && trim(pieces(s, start, cuts)[k]) == pieces(s, start, cuts)[k],
    decreases cuts.len(),
{
    let first = if cuts.len() == 0 {
        s.subrange(start, s.len() as int)
    } else {
        s.subrange(start, cuts[0])
    };
    lemma_trim_idempotent(first);
    let p = pieces(s, start, cuts);
    if cuts.len() > 0 {
        let rest = pieces(s, cuts[0] + 1, cuts.drop_first());
        lemma_pieces_trimmed(s, cuts[0] + 1, cuts.drop_first());
        assert(p == keep(first) + rest);
        assert forall|k: int| 0 <= k < p.len() implies (#[trigger] p[k]).len() > 0 && trim(p[k])
            == p[k] by {
            if k < keep(first).len() {
                assert(p[k] == trim(first));
            } else {
                assert(p[k] == rest[k - keep(first).len()]);
            }
        }
    } else {
        assert(p == keep(first));
        assert forall|k: int| 0 <= k < p.len() implies (#[trigger] p[k]).len() > 0 && trim(p[k])
            == p[k] by {
            assert(p[k] == trim(first));
        }
    }
}

/// Every statement returned by the splitter is non-empty and carries no white
/// space at either end.
pub proof fn law_statements_are_trimmed_and_non_empty(s: Seq<char>)
    ensures
        forall|k: int|
            0 <= k < sql_statements(s).len() ==> (#[trigger] sql_statements(s)[k]).len() > 0
                && trim(sql_statements(s)[k]) == sql_statements(s)[k],
{
    lemma_pieces_trimmed(s, 0, terminators(s, 0, LexState::Top));
}

proof fn lemma_terminators_are_semicolons(s: Seq<char>, i: int, st: LexState)
    ensures
        forall|k: int|
            0 <= k < terminators(s, i, st).len() ==> 0 <= #[trigger] terminators(s, i, st)[k]
                < s.len() && s[terminators(s, i, st)[k]] == ';',
    decreases s.len() - i,
{
    if 0 <= i < s.len() {
        let (j, st2, cut) = lex_step(s, i, st);
        lemma_terminators_are_semicolons(s, j, st2);
        let t = terminators(s, i, st);
        let rest = terminators(s, j, st2);
        if cut {
            assert(st == LexState::Top && s[i] == ';');
            assert(t == seq![i].add(rest));
            assert forall|k: int| 0 <= k < t.len() implies 0 <= #[trigger] t[k] < s.len() && s[t[k]]
                == ';' by {
                if k > 0 {
                    assert(t[k] == rest[k - 1]);
                }
            }
        }
    }
}

/// A script without any semicolon is a single statement: the whole script,
/// trimmed (none at all when it is blank).
pub proof fn law_no_semicolon_single_statement(s: Seq<char>)
    requires
        forall|i: int| 0 <= i < s.len() ==> s[i] != ';',
    ensures
        sql_statements(s) == keep(s),
{
    lemma_terminators_are_semicolons(s, 0, LexState::Top);
    let t = terminators(s, 0, LexState::Top);
    if t.len() > 0 {
        assert(s[t[0]] == ';');
    }
    assert(s.subrange(0, s.len() as int) =~= s);
}

/// The statements `stmts` lie in `s` at the offsets `offs`, in order, each
/// ending before any later one begins, none starting before `lo`.
pub open spec fn laid_out(s: Seq<char>, stmts: Seq<Seq<char>>, offs: Seq<int>, lo: int) -> bool {
    &&& offs.len() == stmts.len()
    &&& forall|k: int|
        0 <= k < offs.len() ==> lo <= #[trigger] offs[k] && offs[k] + stmts[k].len() <= s.len()
            && s.subrange(offs[k], offs[k] + stmts[k].len()) == stmts[k]
    &&& forall|j: int, k: int|
        0 <= j < k < offs.len() ==> #[trigger] offs[j] + stmts[j].len() < #[trigger] offs[k]
}

/// The number of semicolons in `s` from position `i` on.
pub open spec fn semicolons_from(s: Seq<char>, i: int) -> nat
    decreases s.len() - i,
{
    if i < 0 || i >= s.len() {
        0
    } else {
        (if s[i] == ';' {
            1nat
        } else {
            0nat
        }) + semicolons_from(s, i + 1)
    }
}

/// The positions of the semicolons of `s` from position `i` on, in order.
pub open spec fn semicolon_positions(s: Seq<char>, i: int) -> Seq<int>
    decreases s.len() - i,
{
    if i < 0 || i >= s.len() {
        Seq::empty()
    } else if s[i] == ';' {
        seq![i].add(semicolon_positions(s, i + 1))
    } else {
        semicolon_positions(s, i + 1)
    }
}

proof fn lemma_trim_is_window(x: Seq<char>) -> (r: (int, int))
    ensures
        0 <= r.0 <= r.1 <= x.len(),
        trim(x) == x.subrange(r.0, r.1),
{
    lemma_trim_start_shape(x);
    let k = choose|k: int| 0 <= k <= x.len() && trim_start(x) == x.subrange(k, x.len() as int);
    let y = trim_start(x);
    lemma_trim_end_shape(y);
    let j = choose|j: int| 0 <= j <= y.len() && trim_end(y) == y.subrange(0, j);
    assert(y.subrange(0, j) =~= x.subrange(k, k + j));
    (k, k + j)
}

proof fn lemma_semicolons_monotonic(s: Seq<char>, i: int, j: int)
    requires
        0 <= i <= j,
    ensures
        semicolons_from(s, j) <= semicolons_from(s, i),
    decreases j - i,
{
    if i < j {
        lemma_semicolons_monotonic(s, i + 1, j);
    }
}

/// Cut positions within `[lo, s.len())`, strictly increasing.
pub open spec fn ordered_cuts(s: Seq<char>, cuts: Seq<int>, lo: int) -> bool {
    &&& forall|k: int| 0 <= k < cuts.len() ==> lo <= #[trigger] cuts[k] < s.len()
    &&& forall|j: int, k: int| 0 <= j < k < cuts.len() ==> #[trigger] cuts[j] < #[trigger] cuts[k]
}

proof fn lemma_terminators_shape(s: Seq<char>, i: int, st: LexState)
    requires
        0 <= i,
    ensures
        ordered_cuts(s, terminators(s, i, st), i),
        terminators(s, i, st).len() <= semicolons_from(s, i),
    decreases s.len() - i,
{
    if i < s.len() {
        let (j, st2, cut) = lex_step(s, i, st);
        lemma_terminators_shape(s, j, st2);
        lemma_semicolons_monotonic(s, i + 1, j);
        let t = terminators(s, i, st);
        let rest = terminators(s, j, st2);
        if cut {
            assert(t == seq![i].add(rest));
            assert forall|k: int| 0 <= k < t.len() implies i <= #[trigger] t[k] < s.len() by {
                if k > 0 {
                    assert(t[k] == rest[k - 1]);
                }
            }
            assert forall|a: int, b: int| 0 <= a < b < t.len() implies #[trigger] t[a]
                < #[trigger] t[b] by {
                assert(t[b] == rest[b - 1]);
                if a > 0 {
                    assert(t[a] == rest[a - 1]);
                }
            }
        }
    }
}

proof fn lemma_pieces_laid_out(s: Seq<char>, start: int, cuts: Seq<int>) -> (offs: Seq<int>)
    requires
        0 <= start <= s.len(),
        ordered_cuts(s, cuts, start),
    ensures
        laid_out(s, pieces(s, start, cuts), offs, start),
    decreases cuts.len(),
{
    let end = if cuts.len() == 0 {
        s.len() as int
    } else {
        cuts[0]
    };
    let first = s.subrange(start, end);
    let (a, b) = lemma_trim_is_window(first);
    let head: Seq<int> = if trim(first).len() > 0 {
        seq![start + a]
    } else {
        Seq::empty()
    };
    assert(first.subrange(a, b) =~= s.subrange(start + a, start + b));
    let p = pieces(s, start, cuts);
    if cuts.len() == 0 {
        assert(p == keep(first));
        head
    } else {
        let tail = cuts.drop_first();
        assert forall|k: int| 0 <= k < tail.len() implies cuts[0] + 1 <= #[trigger] tail[k] < s.len() by {
            assert(tail[k] == cuts[k + 1]);
            assert(cuts[0] < cuts[k + 1]);
        }
        assert forall|j: int, k: int| 0 <= j < k < tail.len() implies #[trigger] tail[j]
            < #[trigger] tail[k] by {
            assert(tail[j] == cuts[j + 1] && tail[k] == cuts[k + 1]);
        }
        let rest = pieces(s, cuts[0] + 1, tail);
        let roffs = lemma_pieces_laid_out(s, cuts[0] + 1, tail);
        assert(p == keep(first) + rest);
        let offs = head + roffs;
        assert forall|k: int|
            0 <= k < offs.len() implies start <= #[trigger] offs[k] && offs[k] + p[k].len() <= s.len()
                && s.subrange(offs[k], offs[k] + p[k].len()) == p[k] by {
            if k < head.len() {
                assert(p[k] == trim(first));
            } else {
                assert(offs[k] == roffs[k - head.len()]);
                assert(p[k] == rest[k - head.len()]);
            }
        }
        assert forall|j: int, k: int| 0 <= j < k < offs.len() implies #[trigger] offs[j]
            + p[j].len() < #[trigger] offs[k] by {
            assert(offs[k] == roffs[k - head.len()]);
            assert(cuts[0] + 1 <= roffs[k - head.len()]);
            if j < head.len() {
                assert(p[j] == trim(first));
            } else {
                assert(offs[j] == roffs[j - head.len()]);
                assert(p[j] == rest[j - head.len()]);
            }
        }
        offs
    }
}

proof fn lemma_pieces_count(s: Seq<char>, start: int, cuts: Seq<int>)
    ensures
        pieces(s, start, cuts).len() <= cuts.len() + 1,
    decreases cuts.len(),
{
    if cuts.len() > 0 {
        lemma_pieces_count(s, cuts[0] + 1, cuts.drop_first());
    }
}

/// The statements are pieces of the script itself: they occur in it in
/// order, each ending before any later one begins, and there is at most one
/// more statement than there are semicolons.
pub proof fn law_statements_are_ordered_pieces_of_the_script(s: Seq<char>)
    ensures
        exists|offs: Seq<int>| laid_out(s, sql_statements(s), offs, 0),
        sql_statements(s).len() <= semicolons_from(s, 0) + 1,
{
    lemma_terminators_shape(s, 0, LexState::Top);
    lemma_pieces_count(s, 0, terminators(s, 0, LexState::Top));
    let offs = lemma_pieces_laid_out(s, 0, terminators(s, 0, LexState::Top));
    assert(laid_out(s, sql_statements(s), offs, 0));
}

/// No quotes, no comments: `s` has no quote and no `--` or `/*` opener.
pub open spec fn plain_script(s: Seq<char>) -> bool {
    forall|i: int|
        0 <= i < s.len() ==> #[trigger] s[i] != '\'' && s[i] != '"' && !(s[i] == '-' && next_is(
            s,
            i,
            '-',
        )) && !(s[i] == '/' && next_is(s, i, '*'))
}

proof fn lemma_plain_terminators(s: Seq<char>, i: int)
    requires
        plain_script(s),
        0 <= i,
    ensures
        terminators(s, i, LexState::Top) == semicolon_positions(s, i),
    decreases s.len() - i,
{
    if i < s.len() {
        assert(s[i] != '\'' && s[i] != '"');
        lemma_plain_terminators(s, i + 1);
    }
}

/// In a script without quotes or comments every semicolon ends a statement:
/// the statements are the trimmed, non-empty pieces between semicolons
/// (`str::split` on `;`, trimmed, empty pieces dropped).
pub proof fn law_plain_script_splits_at_every_semicolon(s: Seq<char>)
    requires
        plain_script(s),
    ensures
        terminators(s, 0, LexState::Top) == semicolon_positions(s, 0),
        sql_statements(s) == pieces(s, 0, semicolon_positions(s, 0)),
{
    lemma_plain_terminators(s, 0);
}

/// An unterminated quote or comment runs to the end of the script: once it
/// opens, no later semicolon ends a statement.
pub proof fn law_unterminated_quote_or_comment_runs_to_the_end(s: Seq<char>, i: int, st: LexState)
    requires
        0 <= i,
        st == LexState::SingleQuoted ==> forall|k: int| i <= k < s.len() ==> s[k] != '\'',
        st == LexState::DoubleQuoted ==> forall|k: int| i <= k < s.len() ==> s[k] != '"',
        st == LexState::LineComment ==> forall|k: int| i <= k < s.len() ==> s[k] != '\n',
        st == LexState::BlockComment ==> forall|k: int|
            i <= k < s.len() ==> !(s[k] == '*' && #[trigger] next_is(s, k, '/')),
        st != LexState::Top,
    ensures
        terminators(s, i, st) == Seq::<int>::empty(),
    decreases s.len() - i,
{
    if i < s.len() {
        if st == LexState::BlockComment {
            assert(!(s[i] == '*' && next_is(s, i, '/')));
        }
        law_unterminated_quote_or_comment_runs_to_the_end(s, i + 1, st);
    }
}

/// Inside a single-quoted literal every character but the quote is
/// ordinary, backslash included: it stays inside the literal and never ends
/// a statement.
pub proof fn law_quoted_characters_are_ordinary(s: Seq<char>, i: int)
    requires
        0 <= i < s.len(),
        s[i] != '\'',
    ensures
        lex_step(s, i, LexState::SingleQuoted) == (i + 1, LexState::SingleQuoted, false),
{
}

/// A quote that is not doubled closes a single-quoted literal, whatever
/// precedes it.
pub proof fn law_lone_quote_closes_the_literal(s: Seq<char>, i: int)
    requires
        0 <= i < s.len(),
        s[i] == '\'',
        !next_is(s, i, '\''),
    ensures
        lex_step(s, i, LexState::SingleQuoted) == (i + 1, LexState::Top, false),
{
}

/// A single-quoted literal runs exactly to its first quote that is not
/// doubled: the statement ends found after that quote are those of the
/// script from there on, at the top level, and none lies inside.
pub proof fn law_literal_ends_at_its_first_lone_quote(s: Seq<char>, i: int, j: int)
    requires
        0 <= i <= j < s.len(),
        forall|k: int| i <= k < j ==> s[k] != '\'',
        s[j] == '\'',
        !next_is(s, j, '\''),
    ensures
        terminators(s, i, LexState::SingleQuoted) == terminators(s, j + 1, LexState::Top),
    decreases j - i,
{
    if i < j {
        law_literal_ends_at_its_first_lone_quote(s, i + 1, j);
    }
}

} // verus!
