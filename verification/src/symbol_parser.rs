//! Symbol extraction: the identifier token touching a cursor column.
//!
//! Two lexical modes are tried in order. Quoted mode: when an opening
//! quote stands left of the column and a closing quote at or right of
//! it, the text strictly between them is the symbol. Delimited mode:
//! otherwise the maximal run around the column of chars that are not
//! delimiters (space, comma, braces) is split on underscores, and the
//! first sub-word whose cumulative end exceeds the column is the
//! symbol.

use vstd::prelude::*;

verus! {

/// The position of the nearest quote strictly left of `col`.
pub open spec fn find_quote_left(s: Seq<char>, col: int) -> Option<int>
    decreases col,
{
    if col <= 0 {
        None
    } else if s[col - 1] == '"' {
        Some(col - 1)
    } else {
        find_quote_left(s, col - 1)
    }
}

/// The position of the nearest quote at or right of `col`.
pub open spec fn find_quote_right(s: Seq<char>, col: int) -> Option<int>
    decreases s.len() - col,
{
    if col < 0 || col >= s.len() {
        None
    } else if s[col] == '"' {
        Some(col)
    } else {
        find_quote_right(s, col + 1)
    }
}

/// The quoted-mode symbol: the text strictly between the nearest
/// quotes around `col`, when both exist.
pub open spec fn spec_extract_quoted(s: Seq<char>, col: int) -> Option<Seq<char>> {
    match (find_quote_left(s, col), find_quote_right(s, col)) {
        (Some(a), Some(b)) => Some(s.subrange(a + 1, b)),
        _ => None,
    }
}

/// A word delimiter of the document grammar.
pub open spec fn is_delim(c: char) -> bool {
    c == ' ' || c == ',' || c == '{' || c == '}'
}

/// Where the delimited word around `col` starts: the first position
/// reached scanning left while chars are not delimiters.
pub open spec fn word_start(s: Seq<char>, col: int) -> int
    decreases col,
{
    if col <= 0 {
        0
    } else if is_delim(s[col - 1]) {
        col
    } else {
        word_start(s, col - 1)
    }
}

/// Where the delimited word around `col` ends: the first position at
/// or after `col` holding a delimiter, or the end of the line.
pub open spec fn word_end(s: Seq<char>, col: int) -> int
    decreases s.len() - col,
{
    if col >= s.len() {
        col
    } else if is_delim(s[col]) {
        col
    } else {
        word_end(s, col + 1)
    }
}

/// The position of the first underscore in `[i, e)`, or `e`.
pub open spec fn next_break(s: Seq<char>, i: int, e: int) -> int
    decreases e - i,
{
    if i >= e {
        e
    } else if s[i] == '_' {
        i
    } else {
        next_break(s, i + 1, e)
    }
}

/// The first underscore position lies between `i` and `e`.
pub proof fn lemma_next_break_bounds(s: Seq<char>, i: int, e: int)
    requires
        i <= e,
    ensures
        i <= next_break(s, i, e) <= e,
    decreases e - i,
{
    if i < e && s[i] != '_' {
        lemma_next_break_bounds(s, i + 1, e);
    }
}

/// Walk the sub-words of `[w, e)`, split on underscores, and return
/// the first whose cumulative end exceeds `col`.
pub open spec fn word_at(s: Seq<char>, w: int, e: int, col: int) -> Option<Seq<char>>
    decreases e - w when w <= e via word_at_decreases
{
    let u = next_break(s, w, e);
    if u > col {
        Some(s.subrange(w, u))
    } else if u >= e {
        None
    } else {
        word_at(s, u + 1, e, col)
    }
}

#[via_fn]
proof fn word_at_decreases(s: Seq<char>, w: int, e: int, col: int) {
    lemma_next_break_bounds(s, w, e);
}

/// The symbol under the cursor: quoted mode first, delimited mode
/// otherwise.
pub open spec fn spec_extract_symbol(s: Seq<char>, col: int) -> Option<Seq<char>> {
    match spec_extract_quoted(s, col) {
        Some(t) => Some(t),
        None => {
            let w = word_start(s, col);
            let e = word_end(s, col);
            if w == e {
                None
            } else {
                word_at(s, w, e, col)
            }
        },
    }
}

/// Check whether `c` is a word delimiter.
fn is_delim_char(c: char) -> (r: bool)
    ensures
        r == is_delim(c),
{
    c == ' ' || c == ',' || c == '{' || c == '}'
}

/// Find the nearest quote strictly left of the column.
fn quote_left(line: &str, column: usize) -> (r: Option<usize>)
    requires
        column <= line@.len(),
    ensures
        match r {
            Some(q) => find_quote_left(line@, column as int) == Some(q as int) && q < column,
            None => find_quote_left(line@, column as int) is None,
        },
{
    let mut k: usize = column;
    while k > 0
        invariant
            k <= column <= line@.len(),
            find_quote_left(line@, column as int) == find_quote_left(line@, k as int),
        decreases k,
    {
        if line.get_char(k - 1) == '"' {
            return Some(k - 1);
        }
        k = k - 1;
    }
    None
}

/// Find the nearest quote at or right of the column.
fn quote_right(line: &str, column: usize) -> (r: Option<usize>)
    requires
        column <= line@.len(),
    ensures
        match r {
            Some(q) => find_quote_right(line@, column as int) == Some(q as int) && column <= q
                && q < line@.len(),
            None => find_quote_right(line@, column as int) is None,
        },
{
    let n = line.unicode_len();
    let mut k: usize = column;
    while k < n
        invariant
            column <= k,
            k <= n,
            n == line@.len(),
            find_quote_right(line@, column as int) == find_quote_right(line@, k as int),
        decreases n - k,
    {
        if line.get_char(k) == '"' {
            return Some(k);
        }
        k = k + 1;
    }
    None
}

/// Extract the quoted-mode symbol at the column, when both enclosing
/// quotes exist.
pub fn extract_quoted<'a>(line: &'a str, column: usize) -> (r: Option<&'a str>)
    requires
        column <= line@.len(),
    ensures
        match r {
            Some(t) => spec_extract_quoted(line@, column as int) == Some(t@),
            None => spec_extract_quoted(line@, column as int) is None,
        },
{
    match quote_left(line, column) {
        Some(a) => match quote_right(line, column) {
            Some(b) => Some(line.substring_char(a + 1, b)),
            None => None,
        },
        None => None,
    }
}

/// Where the delimited word around the column starts.
fn word_start_exec(line: &str, column: usize) -> (r: usize)
    requires
        column <= line@.len(),
    ensures
        r as int == word_start(line@, column as int),
        r <= column,
{
    let mut w: usize = column;
    loop
        invariant
            w <= column <= line@.len(),
            word_start(line@, column as int) == word_start(line@, w as int),
        decreases w,
    {
        if w == 0 {
            return 0;
        }
        if is_delim_char(line.get_char(w - 1)) {
            return w;
        }
        w = w - 1;
    }
}

/// Where the delimited word around the column ends.
fn word_end_exec(line: &str, column: usize) -> (r: usize)
    requires
        column <= line@.len(),
    ensures
        r as int == word_end(line@, column as int),
        column <= r <= line@.len(),
{
    let n = line.unicode_len();
    let mut e: usize = column;
    loop
        invariant
            column <= e,
            e <= n,
            n == line@.len(),
            word_end(line@, column as int) == word_end(line@, e as int),
        decreases n - e,
    {
        if e == n {
            return e;
        }
        if is_delim_char(line.get_char(e)) {
            return e;
        }
        e = e + 1;
    }
}

/// The position of the first underscore in `[i, e)`, or `e`.
fn next_break_exec(line: &str, i: usize, e: usize) -> (r: usize)
    requires
        i <= e <= line@.len(),
    ensures
        r as int == next_break(line@, i as int, e as int),
        i <= r <= e,
{
    let mut k: usize = i;
    loop
        invariant
            i <= k <= e <= line@.len(),
            next_break(line@, i as int, e as int) == next_break(line@, k as int, e as int),
        decreases e - k,
    {
        if k == e {
            return e;
        }
        if line.get_char(k) == '_' {
            return k;
        }
        k = k + 1;
    }
}

/// Parse a line and return the symbol under the cursor, if any.
pub fn extract_symbol<'a>(line: &'a str, column: usize) -> (r: Option<&'a str>)
    requires
        column <= line@.len(),
    ensures
        match r {
            Some(t) => spec_extract_symbol(line@, column as int) == Some(t@),
            None => spec_extract_symbol(line@, column as int) is None,
        },
{
    match extract_quoted(line, column) {
        Some(t) => {
            return Some(t);
        },
        None => {},
    }
    let w = word_start_exec(line, column);
    let e = word_end_exec(line, column);
    if w == e {
        return None;
    }
    let mut ws: usize = w;
    loop
        invariant
            column <= line@.len(),
            w as int == word_start(line@, column as int),
            e as int == word_end(line@, column as int),
            w != e,
            w <= ws <= e <= line@.len(),
            spec_extract_quoted(line@, column as int) is None,
            word_at(line@, w as int, e as int, column as int) == word_at(
                line@,
                ws as int,
                e as int,
                column as int,
            ),
        decreases e - ws,
    {
        let u = next_break_exec(line, ws, e);
        if u > column {
            let t = line.substring_char(ws, u);
            proof {
                assert(word_at(line@, ws as int, e as int, column as int) == Some(
                    line@.subrange(ws as int, u as int),
                ));
            }
            return Some(t);
        }
        if u == e {
            proof {
                assert(word_at(line@, ws as int, e as int, column as int) is None);
            }
            return None;
        }
        ws = u + 1;
    }
}

proof fn lemma_quote_left_at(s: Seq<char>, col: int, q: int)
    requires
        0 <= q < col <= s.len(),
        s[q] == '"',
        forall|k: int| q < k < col ==> s[k] != '"',
    ensures
        find_quote_left(s, col) == Some(q),
    decreases col,
{
    if col - 1 > q {
        lemma_quote_left_at(s, col - 1, q);
    }
}

proof fn lemma_quote_right_at(s: Seq<char>, col: int, q: int)
    requires
        0 <= col <= q < s.len(),
        s[q] == '"',
        forall|k: int| col <= k < q ==> s[k] != '"',
    ensures
        find_quote_right(s, col) == Some(q),
    decreases q - col,
{
    if col < q {
        lemma_quote_right_at(s, col + 1, q);
    }
}

proof fn lemma_no_quote_left(s: Seq<char>, col: int)
    requires
        forall|k: int| 0 <= k < col ==> s[k] != '"',
    ensures
        find_quote_left(s, col) is None,
    decreases col,
{
    if col > 0 {
        lemma_no_quote_left(s, col - 1);
    }
}

proof fn lemma_no_quote_right(s: Seq<char>, col: int)
    requires
        forall|k: int| col <= k < s.len() ==> s[k] != '"',
    ensures
        find_quote_right(s, col) is None,
    decreases s.len() - col,
{
    if 0 <= col < s.len() {
        lemma_no_quote_right(s, col + 1);
    }
}

proof fn lemma_word_start_at(s: Seq<char>, col: int, w: int)
    requires
        0 <= w <= col <= s.len(),
        forall|k: int| w <= k < col ==> !is_delim(s[k]),
        w == 0 || is_delim(s[w - 1]),
    ensures
        word_start(s, col) == w,
    decreases col,
{
    if col > w {
        lemma_word_start_at(s, col - 1, w);
    }
}

proof fn lemma_word_end_at(s: Seq<char>, col: int, e: int)
    requires
        0 <= col <= e <= s.len(),
        forall|k: int| col <= k < e ==> !is_delim(s[k]),
        e == s.len() || is_delim(s[e]),
    ensures
        word_end(s, col) == e,
    decreases e - col,
{
    if col < e {
        lemma_word_end_at(s, col + 1, e);
    }
}

proof fn lemma_next_break_at(s: Seq<char>, i: int, e: int, u: int)
    requires
        0 <= i <= u <= e <= s.len(),
        u == e || s[u] == '_',
        forall|k: int| i <= k < u ==> s[k] != '_',
    ensures
        next_break(s, i, e) == u,
    decreases u - i,
{
    if i < u {
        lemma_next_break_at(s, i + 1, e, u);
    }
}

/// Tokenizer round trip: a cursor placed anywhere inside a quoted
/// substring yields exactly that substring.
pub proof fn lemma_quoted_round_trip(line: Seq<char>, open_q: int, close_q: int, col: int)
    requires
        0 <= open_q < close_q < line.len(),
        line[open_q] == '"',
        line[close_q] == '"',
        forall|k: int| open_q < k < close_q ==> line[k] != '"',
        open_q < col <= close_q,
    ensures
        spec_extract_symbol(line, col) == Some(line.subrange(open_q + 1, close_q)),
{
    lemma_quote_left_at(line, col, open_q);
    lemma_quote_right_at(line, col, close_q);
}

/// Tokenizer underscore splitting: in a delimited word made of two
/// underscore-free parts joined by one underscore, a cursor over the
/// left part yields the left part, and a cursor over the underscore or
/// the right part yields the right part.
pub proof fn lemma_underscore_split(line: Seq<char>, w: int, u: int, e: int, col: int)
    requires
        0 <= w <= col < e <= line.len(),
        w < u < e,
        line[u] == '_',
        forall|k: int| 0 <= k < line.len() ==> line[k] != '"',
        forall|k: int| w <= k < e && k != u ==> !is_delim(line[k]) && line[k] != '_',
        w == 0 || is_delim(line[w - 1]),
        e == line.len() || is_delim(line[e]),
    ensures
        col < u ==> spec_extract_symbol(line, col) == Some(line.subrange(w, u)),
        col >= u ==> spec_extract_symbol(line, col) == Some(line.subrange(u + 1, e)),
{
    lemma_no_quote_left(line, col);
    lemma_no_quote_right(line, col);
    assert(!is_delim('_'));
    lemma_word_start_at(line, col, w);
    lemma_word_end_at(line, col, e);
    lemma_next_break_at(line, w, e, u);
    if col >= u {
        lemma_next_break_at(line, u + 1, e, e);
        assert(word_at(line, w, e, col) == word_at(line, u + 1, e, col));
        assert(word_at(line, u + 1, e, col) == Some(line.subrange(u + 1, e)));
    }
}

} // verus!
