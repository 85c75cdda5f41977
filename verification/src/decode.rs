//! Decoding of the solver's whitespace-delimited numeric output text.
//!
//! A numeric token is validated against the floating-point literal
//! grammar that `f64` parsing documents: an optional sign, then either
//! `inf`, `infinity` or `nan` (case-insensitive) or a decimal mantissa
//! (`D+`, `D+.D*` or `D*.D+`) with an optional `e`/`E` exponent whose
//! digits may carry a sign.  Validation is a character-by-character
//! automaton, so a validated token is guaranteed to convert.

use vstd::prelude::*;
use vstd::string::StrSliceExecFns;
use crate::text::is_ws;
use crate::text::ws_char;
use crate::text::is_digit;
use crate::text::digit_char;
use crate::text::chars_of;
use crate::errors::Error;
use crate::errors::TableParseKind;
use crate::errors::SummaryField;

verus! {

/// The states of the numeric-token automaton.
#[derive(Clone, Copy)]
pub enum FState {
    /// Nothing consumed yet.
    Start,
    /// A leading sign was consumed.
    Sign,
    /// Inside the integer digits of the mantissa (accepting).
    Int,
    /// A decimal point with no digits before it.
    DotNoInt,
    /// Past the decimal point with at least one digit seen (accepting).
    Frac,
    /// Just past `e`/`E`.
    Exp0,
    /// Just past the exponent's sign.
    ExpSign,
    /// Inside the exponent digits (accepting).
    ExpDig,
    /// Progress through `inf`/`infinity`: `i`, `in`, `inf` (accepting),
    /// `infi`, `infin`, `infini`, `infinit`, `infinity` (accepting).
    I1,
    I2,
    I3,
    I4,
    I5,
    I6,
    I7,
    I8,
    /// Progress through `nan`: `n`, `na`, `nan` (accepting).
    N1,
    N2,
    N3,
    /// No completion can be reached.
    Bad,
}

/// One transition of the numeric-token automaton.
pub open spec fn fstep(st: FState, c: char) -> FState {
    match st {
        FState::Start | FState::Sign => {
            if st is Start && (c == '+' || c == '-') {
                FState::Sign
            } else if is_digit(c) {
                FState::Int
            } else if c == '.' {
                FState::DotNoInt
            } else if c == 'i' || c == 'I' {
                FState::I1
            } else if c == 'n' || c == 'N' {
                FState::N1
            } else {
                FState::Bad
            }
        },
        FState::Int => {
            if is_digit(c) {
                FState::Int
            } else if c == '.' {
                FState::Frac
            } else if c == 'e' || c == 'E' {
                FState::Exp0
            } else {
                FState::Bad
            }
        },
        FState::DotNoInt => if is_digit(c) {
            FState::Frac
        } else {
            FState::Bad
        },
        FState::Frac => {
            if is_digit(c) {
                FState::Frac
            } else if c == 'e' || c == 'E' {
                FState::Exp0
            } else {
                FState::Bad
            }
        },
        FState::Exp0 => {
            if is_digit(c) {
                FState::ExpDig
            } else if c == '+' || c == '-' {
                FState::ExpSign
            } else {
                FState::Bad
            }
        },
        FState::ExpSign => if is_digit(c) {
            FState::ExpDig
        } else {
            FState::Bad
        },
        FState::ExpDig => if is_digit(c) {
            FState::ExpDig
        } else {
            FState::Bad
        },
        FState::I1 => if c == 'n' || c == 'N' {
            FState::I2
        } else {
            FState::Bad
        },
        FState::I2 => if c == 'f' || c == 'F' {
            FState::I3
        } else {
            FState::Bad
        },
        FState::I3 => if c == 'i' || c == 'I' {
            FState::I4
        } else {
            FState::Bad
        },
        FState::I4 => if c == 'n' || c == 'N' {
            FState::I5
        } else {
            FState::Bad
        },
        FState::I5 => if c == 'i' || c == 'I' {
            FState::I6
        } else {
            FState::Bad
        },
        FState::I6 => if c == 't' || c == 'T' {
            FState::I7
        } else {
            FState::Bad
        },
        FState::I7 => if c == 'y' || c == 'Y' {
            FState::I8
        } else {
            FState::Bad
        },
        FState::I8 | FState::N3 | FState::Bad => FState::Bad,
        FState::N1 => if c == 'a' || c == 'A' {
            FState::N2
        } else {
            FState::Bad
        },
        FState::N2 => if c == 'n' || c == 'N' {
            FState::N3
        } else {
            FState::Bad
        },
    }
}

/// The automaton run over the first `i` characters of `s`.
pub open spec fn frun(s: Seq<char>, i: int) -> FState
    decreases i,
{
    if i <= 0 {
        FState::Start
    } else {
        fstep(frun(s, i - 1), s[i - 1])
    }
}

/// Whether a state completes a numeric token.
pub open spec fn faccept(st: FState) -> bool {
    st is Int || st is Frac || st is ExpDig || st is I3 || st is I8 || st is N3
}

/// Whether `s` is a valid numeric token: the automaton accepts it.
pub open spec fn is_float_token(s: Seq<char>) -> bool {
    faccept(frun(s, s.len() as int))
}

/// Executable mirror of [`fstep`].
fn fstep_x(st: FState, c: char) -> (r: FState)
    ensures
        r == fstep(st, c),
{
    match st {
        FState::Start | FState::Sign => {
            let from_start = matches!(st, FState::Start);
            if from_start && (c == '+' || c == '-') {
                FState::Sign
            } else if digit_char(c) {
                FState::Int
            } else if c == '.' {
                FState::DotNoInt
            } else if c == 'i' || c == 'I' {
                FState::I1
            } else if c == 'n' || c == 'N' {
                FState::N1
            } else {
                FState::Bad
            }
        },
        FState::Int => {
            if digit_char(c) {
                FState::Int
            } else if c == '.' {
                FState::Frac
            } else if c == 'e' || c == 'E' {
                FState::Exp0
            } else {
                FState::Bad
            }
        },
        FState::DotNoInt => if digit_char(c) {
            FState::Frac
        } else {
            FState::Bad
        },
        FState::Frac => {
            if digit_char(c) {
                FState::Frac
            } else if c == 'e' || c == 'E' {
                FState::Exp0
            } else {
                FState::Bad
            }
        },
        FState::Exp0 => {
            if digit_char(c) {
                FState::ExpDig
            } else if c == '+' || c == '-' {
                FState::ExpSign
            } else {
                FState::Bad
            }
        },
        FState::ExpSign => if digit_char(c) {
            FState::ExpDig
        } else {
            FState::Bad
        },
        FState::ExpDig => if digit_char(c) {
            FState::ExpDig
        } else {
            FState::Bad
        },
        FState::I1 => if c == 'n' || c == 'N' {
            FState::I2
        } else {
            FState::Bad
        },
        FState::I2 => if c == 'f' || c == 'F' {
            FState::I3
        } else {
            FState::Bad
        },
        FState::I3 => if c == 'i' || c == 'I' {
            FState::I4
        } else {
            FState::Bad
        },
        FState::I4 => if c == 'n' || c == 'N' {
            FState::I5
        } else {
            FState::Bad
        },
        FState::I5 => if c == 'i' || c == 'I' {
            FState::I6
        } else {
            FState::Bad
        },
        FState::I6 => if c == 't' || c == 'T' {
            FState::I7
        } else {
            FState::Bad
        },
        FState::I7 => if c == 'y' || c == 'Y' {
            FState::I8
        } else {
            FState::Bad
        },
        FState::I8 | FState::N3 | FState::Bad => FState::Bad,
        FState::N1 => if c == 'a' || c == 'A' {
            FState::N2
        } else {
            FState::Bad
        },
        FState::N2 => if c == 'n' || c == 'N' {
            FState::N3
        } else {
            FState::Bad
        },
    }
}

/// Whether an accepting state was reached.
fn faccept_x(st: FState) -> (r: bool)
    ensures
        r == faccept(st),
{
    matches!(st, FState::Int | FState::Frac | FState::ExpDig | FState::I3 | FState::I8 | FState::N3)
}

/// Runs the numeric-token automaton over `v[from..to]`.
pub fn float_in_range(v: &Vec<char>, from: usize, to: usize) -> (r: bool)
    requires
        from <= to <= v@.len(),
    ensures
        r == is_float_token(v@.subrange(from as int, to as int)),
{
    let ghost tok = v@.subrange(from as int, to as int);
    let mut st = FState::Start;
    let mut i: usize = from;
    while i < to
        invariant
            from <= i <= to <= v@.len(),
            tok == v@.subrange(from as int, to as int),
            st == frun(tok, i - from),
        decreases to - i,
    {
        proof {
            assert(tok[i - from] == v@[i as int]);
        }
        st = fstep_x(st, v[i]);
        i = i + 1;
    }
    faccept_x(st)
}

/// One step of the whitespace tokenizer: `ts` are the finished tokens,
/// `cur` the token being built.
pub open spec fn tok_step(ts: Seq<Seq<char>>, cur: Seq<char>, c: char) -> (Seq<Seq<char>>, Seq<
    char,
>) {
    if is_ws(c) {
        if cur.len() > 0 {
            (ts.push(cur), Seq::empty())
        } else {
            (ts, cur)
        }
    } else {
        (ts, cur.push(c))
    }
}

/// The tokenizer run over the first `i` characters of `s`.
pub open spec fn tok_fold(s: Seq<char>, i: int) -> (Seq<Seq<char>>, Seq<char>)
    decreases i,
{
    if i <= 0 {
        (Seq::empty(), Seq::empty())
    } else {
        let (ts, cur) = tok_fold(s, i - 1);
        tok_step(ts, cur, s[i - 1])
    }
}

/// The maximal runs of non-whitespace characters of `s`, in order.
pub open spec fn tokens_of(s: Seq<char>) -> Seq<Seq<char>> {
    let (ts, cur) = tok_fold(s, s.len() as int);
    if cur.len() > 0 {
        ts.push(cur)
    } else {
        ts
    }
}

/// The character range `[start, end)` of each token of `v[from..to]`,
/// in order; ranges index into `v` itself.
pub fn token_ranges(v: &Vec<char>, from: usize, to: usize) -> (ts: Vec<(usize, usize)>)
    requires
        from <= to <= v@.len(),
    ensures
        ts@.map_values(|r: (usize, usize)| v@.subrange(r.0 as int, r.1 as int)) == tokens_of(
            v@.subrange(from as int, to as int),
        ),
        forall|k: int| 0 <= k < ts@.len() ==> from <= #[trigger] ts@[k].0 < ts@[k].1 <= to,
{
    let ghost line = v@.subrange(from as int, to as int);
    let mut ts: Vec<(usize, usize)> = Vec::new();
    let mut cur_start: Option<usize> = None;
    let mut i: usize = from;
    while i < to
        invariant
            from <= i <= to <= v@.len(),
            line == v@.subrange(from as int, to as int),
            tok_fold(line, i - from) == (
                ts@.map_values(|r: (usize, usize)| v@.subrange(r.0 as int, r.1 as int)),
                match cur_start {
                    None => Seq::<char>::empty(),
                    Some(cs) => v@.subrange(cs as int, i as int),
                },
            ),
            match cur_start {
                None => true,
                Some(cs) => from <= cs < i,
            },
            forall|k: int| 0 <= k < ts@.len() ==> from <= #[trigger] ts@[k].0 < ts@[k].1 <= to,
        decreases to - i,
    {
        let ghost old_ts = ts@;
        let ghost old_map = ts@.map_values(
            |r: (usize, usize)| v@.subrange(r.0 as int, r.1 as int),
        );
        proof {
            assert(line[i - from] == v@[i as int]);
        }
        let c = v[i];
        if ws_char(c) {
            match cur_start {
                Some(cs) => {
                    ts.push((cs, i));
                    cur_start = None;
                    proof {
                        assert(ts@.map_values(
                            |r: (usize, usize)| v@.subrange(r.0 as int, r.1 as int),
                        ) =~= old_map.push(v@.subrange(cs as int, i as int)));
                    }
                },
                None => {},
            }
        } else {
            match cur_start {
                Some(cs) => {
                    proof {
                        assert(v@.subrange(cs as int, i + 1) =~= v@.subrange(cs as int, i as int)
                            .push(v@[i as int]));
                    }
                },
                None => {
                    cur_start = Some(i);
                    proof {
                        assert(v@.subrange(i as int, i + 1) =~= Seq::<char>::empty().push(
                            v@[i as int],
                        ));
                    }
                },
            }
        }
        i = i + 1;
    }
    match cur_start {
        Some(cs) => {
            let ghost old_map = ts@.map_values(
                |r: (usize, usize)| v@.subrange(r.0 as int, r.1 as int),
            );
            ts.push((cs, to));
            proof {
                assert(ts@.map_values(|r: (usize, usize)| v@.subrange(r.0 as int, r.1 as int))
                    =~= old_map.push(v@.subrange(cs as int, to as int)));
            }
        },
        None => {},
    }
    ts
}

/// One step of the line splitter: a line feed finishes the current
/// line (which may be empty); any other character extends it.
pub open spec fn line_step(ls: Seq<Seq<char>>, cur: Seq<char>, c: char) -> (Seq<Seq<char>>, Seq<
    char,
>) {
    if c == '\n' {
        (ls.push(cur), Seq::empty())
    } else {
        (ls, cur.push(c))
    }
}

/// The line splitter run over the first `i` characters of `s`.
pub open spec fn line_fold(s: Seq<char>, i: int) -> (Seq<Seq<char>>, Seq<char>)
    decreases i,
{
    if i <= 0 {
        (Seq::empty(), Seq::empty())
    } else {
        let (ls, cur) = line_fold(s, i - 1);
        line_step(ls, cur, s[i - 1])
    }
}

/// `s` split on line feeds: the text before each line feed, and then
/// the remainder (so a trailing line feed yields a final empty line).
pub open spec fn lines_of(s: Seq<char>) -> Seq<Seq<char>> {
    let (ls, cur) = line_fold(s, s.len() as int);
    ls.push(cur)
}

/// The character range `[start, end)` of each line of `v`, in order.
pub fn line_ranges(v: &Vec<char>) -> (ls: Vec<(usize, usize)>)
    ensures
        ls@.map_values(|r: (usize, usize)| v@.subrange(r.0 as int, r.1 as int)) == lines_of(v@),
        forall|k: int| 0 <= k < ls@.len() ==> #[trigger] ls@[k].0 <= ls@[k].1 <= v@.len(),
{
    let n = v.len();
    let mut ls: Vec<(usize, usize)> = Vec::new();
    let mut start: usize = 0;
    let mut i: usize = 0;
    while i < n
        invariant
            start <= i <= n == v@.len(),
            line_fold(v@, i as int) == (
                ls@.map_values(|r: (usize, usize)| v@.subrange(r.0 as int, r.1 as int)),
                v@.subrange(start as int, i as int),
            ),
            forall|k: int| 0 <= k < ls@.len() ==> #[trigger] ls@[k].0 <= ls@[k].1 <= v@.len(),
        decreases n - i,
    {
        let ghost old_map = ls@.map_values(
            |r: (usize, usize)| v@.subrange(r.0 as int, r.1 as int),
        );
        let c = v[i];
        if c == '\n' {
            ls.push((start, i));
            proof {
                assert(ls@.map_values(|r: (usize, usize)| v@.subrange(r.0 as int, r.1 as int))
                    =~= old_map.push(v@.subrange(start as int, i as int)));
            }
            start = i + 1;
        } else {
            proof {
                assert(v@.subrange(start as int, i + 1) =~= v@.subrange(start as int, i as int)
                    .push(v@[i as int]));
            }
        }
        i = i + 1;
    }
    let ghost old_map = ls@.map_values(|r: (usize, usize)| v@.subrange(r.0 as int, r.1 as int));
    ls.push((start, n));
    proof {
        assert(ls@.map_values(|r: (usize, usize)| v@.subrange(r.0 as int, r.1 as int))
            =~= old_map.push(v@.subrange(start as int, n as int)));
    }
    ls
}

/// The index of the first token among the first `k` that is not a
/// valid numeric token, if any.
pub open spec fn first_bad(ts: Seq<Seq<char>>, k: int) -> Option<int>
    decreases k,
{
    if k <= 0 {
        None
    } else {
        match first_bad(ts, k - 1) {
            Some(j) => Some(j),
            None => if !is_float_token(ts[k - 1]) {
                Some(k - 1)
            } else {
                None
            },
        }
    }
}

/// What one line of a numeric table contributes.
pub enum LineOutcome {
    /// No tokens at all: the line is skipped.
    Blank,
    /// The line's first `arity` tokens, all numeric.
    Row(Seq<Seq<char>>),
    /// Fewer tokens than the arity.
    TooFew,
    /// The first non-numeric token among the first `arity`.
    Bad(Seq<char>),
}

/// How one line parses at the given arity.  Tokens beyond the arity
/// are tolerated and ignored.
pub open spec fn parse_line(line: Seq<char>, arity: int) -> LineOutcome {
    let ts = tokens_of(line);
    if ts.len() == 0 {
        LineOutcome::Blank
    } else if ts.len() < arity {
        LineOutcome::TooFew
    } else {
        match first_bad(ts, arity) {
            Some(j) => LineOutcome::Bad(ts[j]),
            None => LineOutcome::Row(ts.subrange(0, arity)),
        }
    }
}

/// What a whole table text decodes to.
pub enum RowsOutcome {
    /// Every non-blank line parsed; the rows in file order.
    Rows(Seq<Seq<Seq<char>>>),
    /// The 1-based line with too few tokens.
    TooFew { line: int },
    /// The 1-based line and the offending non-numeric token.
    Invalid { line: int, token: Seq<char> },
}

/// The first `i` lines decoded, the first failing line winning.
pub open spec fn parse_rows(ls: Seq<Seq<char>>, arity: int, i: int) -> RowsOutcome
    decreases i,
{
    if i <= 0 {
        RowsOutcome::Rows(Seq::empty())
    } else {
        match parse_rows(ls, arity, i - 1) {
            RowsOutcome::Rows(rows) => match parse_line(ls[i - 1], arity) {
                LineOutcome::Blank => RowsOutcome::Rows(rows),
                LineOutcome::Row(r) => RowsOutcome::Rows(rows.push(r)),
                LineOutcome::TooFew => RowsOutcome::TooFew { line: i },
                LineOutcome::Bad(t) => RowsOutcome::Invalid { line: i, token: t },
            },
            e => e,
        }
    }
}

/// What the full table text decodes to at the given arity.
pub open spec fn spec_read_table(s: Seq<char>, arity: int) -> RowsOutcome {
    parse_rows(lines_of(s), arity, lines_of(s).len() as int)
}

/// A failing decode stays failed however many further lines follow.
proof fn lemma_parse_rows_err(ls: Seq<Seq<char>>, arity: int, i: int, j: int)
    requires
        0 <= i <= j,
        !(parse_rows(ls, arity, i) is Rows),
    ensures
        parse_rows(ls, arity, j) == parse_rows(ls, arity, i),
    decreases j - i,
{
    if j > i {
        lemma_parse_rows_err(ls, arity, i, j - 1);
    }
}

/// The token text of each column of a decoded row.
pub open spec fn row_view(r: Vec<String>) -> Seq<Seq<char>> {
    r@.map_values(|t: String| t@)
}

/// The token text of every row of a decoded table.
pub open spec fn table_view(t: Seq<Vec<String>>) -> Seq<Seq<Seq<char>>> {
    t.map_values(|r: Vec<String>| row_view(r))
}

/// Whether `e` is the error that the failing table outcome `o` calls
/// for, at file path `path`.
pub open spec fn matches_table_outcome(o: RowsOutcome, path: Seq<char>, e: Error) -> bool {
    match o {
        RowsOutcome::TooFew { line } => match e {
            Error::TableParse { path: p, line: l, kind } => p@ == path && l as int == line
                && kind is TooFewColumns,
            _ => false,
        },
        RowsOutcome::Invalid { line, token } => match e {
            Error::TableParse { path: p, line: l, kind } => p@ == path && l as int == line && match kind {
                TableParseKind::InvalidNumber { token: t } => t@ == token,
                _ => false,
            },
            _ => false,
        },
        RowsOutcome::Rows(_) => false,
    }
}

/// Decodes a table text: every non-blank line must begin with `arity`
/// numeric tokens, which become one row; blank lines are skipped;
/// tokens beyond `arity` are ignored.  The first malformed line fails
/// the decode with the table's path and the 1-based line number.
pub fn read_table(contents: &str, path: &str, arity: usize) -> (r: Result<Vec<Vec<String>>, Error>)
    requires
        arity >= 1,
    ensures
        match r {
            Ok(rows) => spec_read_table(contents@, arity as int) == RowsOutcome::Rows(
                table_view(rows@),
            ) && forall|k: int| 0 <= k < rows@.len() ==> (#[trigger] rows@[k])@.len() == arity,
            Err(e) => matches_table_outcome(spec_read_table(contents@, arity as int), path@, e),
        },
{
    let v = chars_of(contents);
    let lranges = line_ranges(&v);
    let ghost ls = lines_of(v@);
    let n = lranges.len();
    proof {
        assert(ls.len() == n);
    }
    let mut rows: Vec<Vec<String>> = Vec::new();
    proof {
        assert(table_view(rows@) =~= Seq::<Seq<Seq<char>>>::empty());
    }
    let mut k: usize = 0;
    while k < n
        invariant
            k <= n,
            v@ == contents@,
            ls == lines_of(v@),
            ls.len() == n == lranges@.len(),
            lranges@.map_values(|r: (usize, usize)| v@.subrange(r.0 as int, r.1 as int)) == ls,
            forall|q: int| 0 <= q < n ==> #[trigger] lranges@[q].0 <= lranges@[q].1 <= v@.len(),
            parse_rows(ls, arity as int, k as int) == RowsOutcome::Rows(table_view(rows@)),
            forall|q: int| 0 <= q < rows@.len() ==> (#[trigger] rows@[q])@.len() == arity,
            arity >= 1,
        decreases n - k,
    {
        let (lo, hi) = lranges[k];
        let ghost line = ls[k as int];
        proof {
            assert(lranges@.map_values(
                |r: (usize, usize)| v@.subrange(r.0 as int, r.1 as int),
            )[k as int] == v@.subrange(lo as int, hi as int));
        }
        let ts = token_ranges(&v, lo, hi);
        let ghost toks = tokens_of(line);
        proof {
            assert(ts@.map_values(|r: (usize, usize)| v@.subrange(r.0 as int, r.1 as int))
                == toks);
            assert(toks.len() == ts@.len());
        }
        if ts.len() == 0 {
            proof {
                assert(parse_line(line, arity as int) is Blank);
            }
        } else if ts.len() < arity {
            let e = Error::TableParse {
                path: path.to_owned(),
                line: (k + 1) as u64,
                kind: TableParseKind::TooFewColumns,
            };
            proof {
                assert(parse_line(line, arity as int) is TooFew);
                assert(parse_rows(ls, arity as int, k + 1) == (RowsOutcome::TooFew {
                    line: k + 1 as int,
                }));
                lemma_parse_rows_err(ls, arity as int, k + 1, n as int);
            }
            return Err(e);
        } else {
            let mut bad: Option<usize> = None;
            let mut j: usize = 0;
            while j < arity
                invariant
                    j <= arity <= ts@.len(),
                    toks == ts@.map_values(
                        |r: (usize, usize)| v@.subrange(r.0 as int, r.1 as int),
                    ),
                    forall|q: int|
                        0 <= q < ts@.len() ==> 0 <= #[trigger] ts@[q].0 <= ts@[q].1 <= v@.len(),
                    match bad {
                        None => first_bad(toks, j as int) == None::<int>,
                        Some(b) => b < j && first_bad(toks, j as int) == Some(b as int),
                    },
                decreases arity - j,
            {
                proof {
                    assert(toks[j as int] == v@.subrange(ts@[j as int].0 as int, ts@[
                        j as int
                    ].1 as int));
                }
                if bad.is_none() {
                    let (a, b) = ts[j];
                    if !float_in_range(&v, a, b) {
                        bad = Some(j);
                    }
                }
                j = j + 1;
            }
            match bad {
                Some(b) => {
                    let (a, bb) = ts[b];
                    let token = contents.substring_char(a, bb).to_owned();
                    let e = Error::TableParse {
                        path: path.to_owned(),
                        line: (k + 1) as u64,
                        kind: TableParseKind::InvalidNumber { token },
                    };
                    proof {
                        assert(token@ == toks[b as int]);
                        assert(parse_line(line, arity as int) == LineOutcome::Bad(
                            toks[b as int],
                        ));
                        assert(parse_rows(ls, arity as int, k + 1) == (RowsOutcome::Invalid {
                            line: k + 1 as int,
                            token: toks[b as int],
                        }));
                        lemma_parse_rows_err(ls, arity as int, k + 1, n as int);
                    }
                    return Err(e);
                },
                None => {
                    let mut row: Vec<String> = Vec::new();
                    let mut j2: usize = 0;
                    while j2 < arity
                        invariant
                            j2 <= arity <= ts@.len(),
                            v@ == contents@,
                            toks == ts@.map_values(
                                |r: (usize, usize)| v@.subrange(r.0 as int, r.1 as int),
                            ),
                            forall|q: int|
                                0 <= q < ts@.len() ==> 0 <= #[trigger] ts@[q].0 <= ts@[q].1
                                    <= v@.len(),
                            row_view(row) =~= toks.subrange(0, j2 as int),
                            row@.len() == j2,
                        decreases arity - j2,
                    {
                        let (a, b) = ts[j2];
                        let ghost old_row = row_view(row);
                        let t = contents.substring_char(a, b).to_owned();
                        proof {
                            assert(t@ == toks[j2 as int]);
                        }
                        row.push(t);
                        proof {
                            assert(row_view(row) =~= old_row.push(t@));
                        }
                        j2 = j2 + 1;
                    }
                    let ghost old_table = table_view(rows@);
                    proof {
                        assert(parse_line(line, arity as int) == LineOutcome::Row(
                            toks.subrange(0, arity as int),
                        ));
                        assert(row_view(row) =~= toks.subrange(0, arity as int));
                    }
                    rows.push(row);
                    proof {
                        assert(table_view(rows@) =~= old_table.push(
                            toks.subrange(0, arity as int),
                        ));
                    }
                },
            }
        }
        k = k + 1;
    }
    Ok(rows)
}

/// When no bad token was found among the first `k`, they are all
/// numeric.
proof fn lemma_first_bad_none(ts: Seq<Seq<char>>, k: int)
    requires
        first_bad(ts, k) is None,
    ensures
        forall|j: int| 0 <= j < k ==> is_float_token(ts[j]),
    decreases k,
{
    if k > 0 {
        lemma_first_bad_none(ts, k - 1);
    }
}

/// Every row of the first `i` decoded lines has exactly `arity`
/// numeric cells.
proof fn lemma_parse_rows_numeric(ls: Seq<Seq<char>>, arity: int, i: int)
    requires
        0 <= arity,
        parse_rows(ls, arity, i) is Rows,
    ensures
        forall|a: int|
            0 <= a < parse_rows(ls, arity, i)->Rows_0.len() ==> (#[trigger] parse_rows(
                ls,
                arity,
                i,
            )->Rows_0[a]).len() == arity,
        forall|a: int, b: int|
            0 <= a < parse_rows(ls, arity, i)->Rows_0.len() && 0 <= b < arity ==> is_float_token(
                #[trigger] parse_rows(ls, arity, i)->Rows_0[a][b],
            ),
    decreases i,
{
    if i > 0 {
        if !(parse_rows(ls, arity, i - 1) is Rows) {
            assert(parse_rows(ls, arity, i) == parse_rows(ls, arity, i - 1));
            assert(false);
        } else {
            lemma_parse_rows_numeric(ls, arity, i - 1);
            let prev = parse_rows(ls, arity, i - 1)->Rows_0;
            let cur = parse_rows(ls, arity, i)->Rows_0;
            match parse_line(ls[i - 1], arity) {
                LineOutcome::Blank => {
                    assert(cur == prev);
                },
                LineOutcome::Row(r) => {
                    let ts = tokens_of(ls[i - 1]);
                    lemma_first_bad_none(ts, arity);
                    assert(ts.len() >= arity);
                    assert(r == ts.subrange(0, arity));
                    assert(r.len() == arity);
                    assert(cur == prev.push(r));
                    assert forall|a: int| 0 <= a < cur.len() implies (#[trigger] cur[a]).len()
                        == arity by {
                        if a < prev.len() {
                            assert(cur[a] == prev[a]);
                        } else {
                            assert(cur[a] == r);
                        }
                    }
                    assert forall|a: int, b: int|
                        0 <= a < cur.len() && 0 <= b < arity implies is_float_token(
                        #[trigger] cur[a][b],
                    ) by {
                        if a < prev.len() {
                            assert(cur[a] == prev[a]);
                        } else {
                            assert(cur[a] == r);
                            assert(r[b] == ts[b]);
                        }
                    }
                },
                LineOutcome::TooFew => {
                    assert(!(parse_rows(ls, arity, i) is Rows));
                    assert(false);
                },
                LineOutcome::Bad(t) => {
                    assert(!(parse_rows(ls, arity, i) is Rows));
                    assert(false);
                },
            }
        }
    }
}

/// The tokenizer finds no token in text that is whitespace alone.
proof fn lemma_tok_fold_ws(s: Seq<char>, i: int)
    requires
        i <= s.len(),
        forall|j: int| 0 <= j < s.len() ==> is_ws(#[trigger] s[j]),
    ensures
        tok_fold(s, i) == (Seq::<Seq<char>>::empty(), Seq::<char>::empty()),
    decreases i,
{
    if i > 0 {
        lemma_tok_fold_ws(s, i - 1);
    }
}

/// A line of whitespace alone is blank: it adds no row and cannot
/// fail the decode, whatever the arity.
pub proof fn lemma_blank_line_skipped(ls: Seq<Seq<char>>, arity: int, i: int)
    requires
        1 <= i,
        forall|j: int| 0 <= j < ls[i - 1].len() ==> is_ws(#[trigger] ls[i - 1][j]),
    ensures
        parse_line(ls[i - 1], arity) is Blank,
        parse_rows(ls, arity, i) == parse_rows(ls, arity, i - 1),
{
    lemma_tok_fold_ws(ls[i - 1], ls[i - 1].len() as int);
    assert(tokens_of(ls[i - 1]) =~= Seq::<Seq<char>>::empty());
}

/// Every cell of a decoded table is a numeric token, and every row
/// has exactly the table's arity — so a decoded cell always converts
/// to a floating-point value.
pub proof fn lemma_table_rows_numeric(s: Seq<char>, arity: int, rows: Seq<Seq<Seq<char>>>)
    requires
        0 <= arity,
        spec_read_table(s, arity) == RowsOutcome::Rows(rows),
    ensures
        forall|a: int| 0 <= a < rows.len() ==> (#[trigger] rows[a]).len() == arity,
        forall|a: int, b: int|
            0 <= a < rows.len() && 0 <= b < arity ==> is_float_token(#[trigger] rows[a][b]),
{
    let ls = lines_of(s);
    lemma_parse_rows_numeric(ls, arity, ls.len() as int);
    assert(parse_rows(ls, arity, ls.len() as int)->Rows_0 == rows);
    assert forall|a: int| 0 <= a < rows.len() implies (#[trigger] rows[a]).len() == arity by {
        assert(rows[a] == parse_rows(ls, arity, ls.len() as int)->Rows_0[a]);
    }
    assert forall|a: int, b: int|
        0 <= a < rows.len() && 0 <= b < arity implies is_float_token(#[trigger] rows[a][b]) by {
        assert(rows[a] == parse_rows(ls, arity, ls.len() as int)->Rows_0[a]);
    }
}

/// Both values of a decoded summary are numeric tokens.
pub proof fn lemma_summary_tokens_numeric(s: Seq<char>, x: Seq<char>, f: Seq<char>)
    requires
        spec_read_summary(s) == SummaryOutcome::Pair(x, f),
    ensures
        is_float_token(x),
        is_float_token(f),
{
}

/// What the summary text decodes to.
pub enum SummaryOutcome {
    /// No token at all where the minimum location was expected.
    MissingX,
    /// The first token is not numeric.
    InvalidX(Seq<char>),
    /// No second token where the minimum value was expected.
    MissingF,
    /// The second token is not numeric.
    InvalidF(Seq<char>),
    /// The first two tokens, both numeric; anything beyond them is
    /// ignored.
    Pair(Seq<char>, Seq<char>),
}

/// How the summary text decodes: its first two whitespace-separated
/// tokens, checked in order.
pub open spec fn spec_read_summary(s: Seq<char>) -> SummaryOutcome {
    let ts = tokens_of(s);
    if ts.len() == 0 {
        SummaryOutcome::MissingX
    } else if !is_float_token(ts[0]) {
        SummaryOutcome::InvalidX(ts[0])
    } else if ts.len() < 2 {
        SummaryOutcome::MissingF
    } else if !is_float_token(ts[1]) {
        SummaryOutcome::InvalidF(ts[1])
    } else {
        SummaryOutcome::Pair(ts[0], ts[1])
    }
}

/// Whether `e` is the error that the failing summary outcome `o`
/// calls for, at file path `path`.
pub open spec fn matches_summary_outcome(o: SummaryOutcome, path: Seq<char>, e: Error) -> bool {
    match o {
        SummaryOutcome::MissingX => match e {
            Error::SummaryParse { path: p, field, token } => p@ == path && field is XMin
                && token is None,
            _ => false,
        },
        SummaryOutcome::InvalidX(t) => match e {
            Error::SummaryParse { path: p, field, token } => p@ == path && field is XMin && match token {
                Some(tt) => tt@ == t,
                None => false,
            },
            _ => false,
        },
        SummaryOutcome::MissingF => match e {
            Error::SummaryParse { path: p, field, token } => p@ == path && field is FMin
                && token is None,
            _ => false,
        },
        SummaryOutcome::InvalidF(t) => match e {
            Error::SummaryParse { path: p, field, token } => p@ == path && field is FMin && match token {
                Some(tt) => tt@ == t,
                None => false,
            },
            _ => false,
        },
        SummaryOutcome::Pair(_, _) => false,
    }
}

/// Decodes the two-value summary text: its first two tokens, both of
/// which must be numeric.  A missing or malformed token fails the
/// decode with the summary file's path.
pub fn read_summary(contents: &str, path: &str) -> (r: Result<(String, String), Error>)
    ensures
        match r {
            Ok(pair) => spec_read_summary(contents@) == SummaryOutcome::Pair(pair.0@, pair.1@),
            Err(e) => matches_summary_outcome(spec_read_summary(contents@), path@, e),
        },
{
    let v = chars_of(contents);
    let ts = token_ranges(&v, 0, v.len());
    let ghost toks = tokens_of(contents@);
    proof {
        assert(v@.subrange(0, v@.len() as int) =~= v@);
        assert(ts@.map_values(|r: (usize, usize)| v@.subrange(r.0 as int, r.1 as int)) == toks);
    }
    if ts.len() == 0 {
        return Err(
            Error::SummaryParse {
                path: path.to_owned(),
                field: SummaryField::XMin,
                token: None,
            },
        );
    }
    let (xa, xb) = ts[0];
    if !float_in_range(&v, xa, xb) {
        let token = contents.substring_char(xa, xb).to_owned();
        return Err(
            Error::SummaryParse {
                path: path.to_owned(),
                field: SummaryField::XMin,
                token: Some(token),
            },
        );
    }
    if ts.len() < 2 {
        return Err(
            Error::SummaryParse {
                path: path.to_owned(),
                field: SummaryField::FMin,
                token: None,
            },
        );
    }
    let (fa, fb) = ts[1];
    if !float_in_range(&v, fa, fb) {
        let token = contents.substring_char(fa, fb).to_owned();
        return Err(
            Error::SummaryParse {
                path: path.to_owned(),
                field: SummaryField::FMin,
                token: Some(token),
            },
        );
    }
    let x = contents.substring_char(xa, xb).to_owned();
    let f = contents.substring_char(fa, fb).to_owned();
    Ok((x, f))
}

} // verus!
