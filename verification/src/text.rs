use vstd::prelude::*;

verus! {

/// Number of newline characters in `s`.
pub open spec fn newline_count(s: Seq<char>) -> int
    decreases s.len(),
{
    if s.len() == 0 {
        0
    } else {
        newline_count(s.drop_last()) + if s.last() == '\n' {
            1int
        } else {
            0int
        }
    }
}

/// 1-based count of the lines that `s` holds, counting as Rust's
/// `str::lines` does: a trailing newline does not open a new line.
pub open spec fn spec_line_count(s: Seq<char>) -> int {
    if s.len() == 0 {
        0
    } else if s.last() == '\n' {
        newline_count(s)
    } else {
        newline_count(s) + 1
    }
}

pub proof fn lemma_newline_count_bound(s: Seq<char>)
    ensures
        0 <= newline_count(s) <= s.len(),
        s.len() > 0 && s.last() != '\n' ==> newline_count(s) <= s.len() - 1,
    decreases s.len(),
{
    if s.len() > 0 {
        lemma_newline_count_bound(s.drop_last());
    }
}

/// A nonempty text holds at least one line and no more lines than
/// chars.
pub proof fn lemma_line_count_bounds(s: Seq<char>)
    ensures
        0 <= spec_line_count(s) <= s.len(),
        s.len() > 0 ==> spec_line_count(s) >= 1,
{
    lemma_newline_count_bound(s);
    if s.len() > 0 && s.last() == '\n' {
        lemma_newline_count_bound(s.drop_last());
    }
}

/// Count the lines of the prefix of `file_str` that ends at char
/// index `end`: the 1-based line number of the position `end`.
pub fn line_count_of_prefix(file_str: &str, end: usize) -> (r: usize)
    requires
        end <= file_str@.len(),
    ensures
        r == spec_line_count(file_str@.take(end as int)),
{
    let mut newlines: usize = 0;
    let mut i: usize = 0;
    let mut last_is_newline: bool = false;
    while i < end
        invariant
            i <= end,
            end <= file_str@.len(),
            newlines == newline_count(file_str@.take(i as int)),
            i > 0 ==> last_is_newline == (file_str@[i as int - 1] == '\n'),
        decreases end - i,
    {
        let c = file_str.get_char(i);
        proof {
            assert(file_str@.take(i + 1).drop_last() =~= file_str@.take(i as int));
            assert(file_str@.take(i + 1).last() == file_str@[i as int]);
            lemma_newline_count_bound(file_str@.take(i as int));
        }
        if c == '\n' {
            newlines = newlines + 1;
            last_is_newline = true;
        } else {
            last_is_newline = false;
        }
        i = i + 1;
    }
    if end == 0 {
        0
    } else if last_is_newline {
        newlines
    } else {
        proof {
            lemma_newline_count_bound(file_str@.take(end as int));
        }
        newlines + 1
    }
}

/// `s` without a leading minus sign: the decimal rendering of a
/// value's magnitude, given the rendering of the value.
pub open spec fn spec_magnitude_text(s: Seq<char>) -> Seq<char> {
    if s.len() > 0 && s[0] == '-' {
        s.drop_first()
    } else {
        s
    }
}

/// Strip a leading minus sign.
pub fn magnitude_text(s: &str) -> (r: &str)
    ensures
        r@ == spec_magnitude_text(s@),
{
    let n = s.unicode_len();
    if n > 0 && s.get_char(0) == '-' {
        let r = s.substring_char(1, n);
        proof {
            assert(r@ =~= s@.drop_first());
        }
        r
    } else {
        s
    }
}

/// The parts joined with the separator between neighbours.
pub open spec fn spec_join(parts: Seq<Seq<char>>, sep: Seq<char>) -> Seq<char>
    decreases parts.len(),
{
    if parts.len() == 0 {
        Seq::empty()
    } else if parts.len() == 1 {
        parts[0]
    } else {
        spec_join(parts.drop_last(), sep) + sep + parts.last()
    }
}

/// Join the parts with the separator between neighbours.
pub fn join(parts: &Vec<String>, sep: &str) -> (r: String)
    ensures
        r@ == spec_join(parts@.map_values(|s: String| s@), sep@),
{
    let ghost viewed = parts@.map_values(|s: String| s@);
    let mut acc = String::new();
    let mut i: usize = 0;
    while i < parts.len()
        invariant
            i <= parts@.len(),
            viewed == parts@.map_values(|s: String| s@),
            acc@ == spec_join(viewed.take(i as int), sep@),
        decreases parts@.len() - i,
    {
        if i > 0 {
            acc.append(sep);
        }
        acc.append(parts[i].as_str());
        i = i + 1;
        proof {
            assert(viewed.take(i as int).drop_last() =~= viewed.take(i - 1));
            assert(viewed.take(i as int).last() == viewed[i - 1]);
        }
    }
    proof {
        assert(viewed.take(parts@.len() as int) =~= viewed);
    }
    acc
}

/// Compare two string slices character by character.
pub fn str_eq(a: &str, b: &str) -> (r: bool)
    ensures
        r == (a@ == b@),
{
    let a_len = a.unicode_len();
    let b_len = b.unicode_len();
    if a_len != b_len {
        return false;
    }
    let mut i: usize = 0;
    while i < a_len
        invariant
            i <= a_len,
            a_len == a@.len(),
            a_len == b@.len(),
            forall|j: int| 0 <= j < i ==> a@[j] == b@[j],
        decreases a_len - i,
    {
        if a.get_char(i) != b.get_char(i) {
            return false;
        }
        i = i + 1;
    }
    proof {
        assert(a@ =~= b@);
    }
    true
}

/// What `str::to_lowercase` returns: a function of the characters alone.
pub uninterp spec fn lower_of(s: Seq<char>) -> Seq<char>;

/// Relies on str::to_lowercase for Unicode-aware case folding.
#[verifier::external_body]
pub fn lowercase(s: &str) -> (r: String)
    ensures
        r@ == lower_of(s@),
{
    s.to_lowercase()
}

/// The decimal digits of `n`, most significant first.
pub open spec fn spec_dec_digits(n: nat) -> Seq<char>
    decreases n,
{
    if n < 10 {
        seq![spec_digit_char(n)]
    } else {
        spec_dec_digits(n / 10) + seq![spec_digit_char(n % 10)]
    }
}

pub open spec fn spec_digit_char(d: nat) -> char {
    ((d + 48) as u8) as char
}

/// The decimal digit `d` as a one-character string slice.
pub fn digit_to_str(d: u64) -> (r: &'static str)
    requires
        d < 10,
    ensures
        r@ =~= seq![spec_digit_char(d as nat)],
{
    proof {
        reveal_strlit("0");
        reveal_strlit("1");
        reveal_strlit("2");
        reveal_strlit("3");
        reveal_strlit("4");
        reveal_strlit("5");
        reveal_strlit("6");
        reveal_strlit("7");
        reveal_strlit("8");
        reveal_strlit("9");
    }
    match d {
        0 => "0",
        1 => "1",
        2 => "2",
        3 => "3",
        4 => "4",
        5 => "5",
        6 => "6",
        7 => "7",
        8 => "8",
        _ => "9",
    }
}

/// Render `n` in decimal.
pub fn u64_to_dec(n: u64) -> (r: String)
    ensures
        r@ == spec_dec_digits(n as nat),
    decreases n,
{
    let d = digit_to_str(n % 10);
    if n < 10 {
        let mut s = String::new();
        s.append(d);
        proof {
            assert(s@ =~= spec_dec_digits(n as nat));
        }
        s
    } else {
        let mut s = u64_to_dec(n / 10);
        s.append(d);
        proof {
            assert(s@ =~= spec_dec_digits(n as nat));
        }
        s
    }
}

} // verus!
