//! Small verified text utilities: joining, escaping, decimal rendering,
//! and the uppercase conversion relied on for include guards and macros.

use vstd::prelude::*;

verus! {

/// The sequence of characters that `str::to_uppercase` produces for `s`.
pub uninterp spec fn upper_of(s: Seq<char>) -> Seq<char>;

/// Relies on str::to_uppercase: the Unicode uppercase form of a string,
/// a function of its characters alone.
#[verifier::external_body]
pub(crate) fn to_upper(s: &str) -> (r: String)
    ensures
        r@ == upper_of(s@),
{
    s.to_uppercase()
}

/// Joins the parts with the separator between consecutive parts.
pub open spec fn join_seq(parts: Seq<Seq<char>>, sep: Seq<char>) -> Seq<char>
    decreases parts.len(),
{
    if parts.len() == 0 {
        Seq::empty()
    } else if parts.len() == 1 {
        parts[0]
    } else {
        join_seq(parts.subrange(0, parts.len() - 1), sep) + sep + parts.last()
    }
}

/// Joins the strings of `parts` with `sep` between consecutive entries.
pub fn join(parts: &Vec<String>, sep: &str) -> (r: String)
    ensures
        r@ == join_seq(parts.deep_view(), sep@),
{
    let mut r = String::new();
    let mut i: usize = 0;
    while i < parts.len()
        invariant
            i <= parts@.len(),
            r@ == join_seq(parts.deep_view().subrange(0, i as int), sep@),
        decreases parts@.len() - i,
    {
        if i > 0 {
            r.append(sep);
        }
        r.append(parts[i].as_str());
        proof {
            let pv = parts.deep_view();
            assert(pv.subrange(0, i + 1).subrange(0, i as int) =~= pv.subrange(0, i as int));
            assert(pv.subrange(0, i + 1).last() == pv[i as int]);
            if i == 0 {
                assert(join_seq(pv.subrange(0, 1), sep@) == pv[0]);
            }
        }
        i += 1;
    }
    proof {
        assert(parts.deep_view().subrange(0, parts.deep_view().len() as int)
            =~= parts.deep_view());
    }
    r
}

/// Concatenates the parts in order.
pub open spec fn concat_seq(parts: Seq<Seq<char>>) -> Seq<char>
    decreases parts.len(),
{
    if parts.len() == 0 {
        Seq::empty()
    } else {
        concat_seq(parts.subrange(0, parts.len() - 1)) + parts.last()
    }
}

/// `s` with every double-quote character preceded by a backslash.
pub open spec fn escaped_quotes(s: Seq<char>) -> Seq<char>
    decreases s.len(),
{
    if s.len() == 0 {
        Seq::empty()
    } else {
        escaped_quotes(s.subrange(0, s.len() - 1))
            + (if s.last() == '"' { seq!['\\', '"'] } else { seq![s.last()] })
    }
}

/// `s` with every backslash doubled.
pub open spec fn escaped_backslashes(s: Seq<char>) -> Seq<char>
    decreases s.len(),
{
    if s.len() == 0 {
        Seq::empty()
    } else {
        escaped_backslashes(s.subrange(0, s.len() - 1))
            + (if s.last() == '\\' { seq!['\\', '\\'] } else { seq![s.last()] })
    }
}

/// `s` with every dot replaced by an underscore.
pub open spec fn dots_to_underscores(s: Seq<char>) -> Seq<char>
    decreases s.len(),
{
    if s.len() == 0 {
        Seq::empty()
    } else {
        dots_to_underscores(s.subrange(0, s.len() - 1))
            + (if s.last() == '.' { seq!['_'] } else { seq![s.last()] })
    }
}

/// Escapes every double quote in `s` with a backslash.
pub fn escape_quotes(s: &str) -> (r: String)
    ensures
        r@ == escaped_quotes(s@),
{
    let n = s.unicode_len();
    let mut r = String::new();
    let mut i: usize = 0;
    while i < n
        invariant
            n == s@.len(),
            i <= n,
            r@ == escaped_quotes(s@.subrange(0, i as int)),
        decreases n - i,
    {
        let c = s.get_char(i);
        if c == '"' {
            r.append("\\\"");
            proof {
                reveal_strlit("\\\"");
                assert(r@.subrange(r@.len() - 2, r@.len() as int) =~= seq!['\\', '"']);
            }
        } else {
            let piece = s.substring_char(i, i + 1);
            r.append(piece);
            proof {
                assert(piece@ =~= seq![s@[i as int]]);
            }
        }
        proof {
            assert(s@.subrange(0, i + 1).subrange(0, i as int) =~= s@.subrange(0, i as int));
            assert(s@.subrange(0, i + 1).last() == s@[i as int]);
            if c == '"' {
                assert(r@ =~= escaped_quotes(s@.subrange(0, i as int)) + seq!['\\', '"']);
            } else {
                assert(r@ =~= escaped_quotes(s@.subrange(0, i as int)) + seq![s@[i as int]]);
            }
        }
        i += 1;
    }
    proof {
        assert(s@.subrange(0, s@.len() as int) =~= s@);
    }
    r
}

/// Doubles every backslash in `s`.
pub fn escape_backslashes(s: &str) -> (r: String)
    ensures
        r@ == escaped_backslashes(s@),
{
    let n = s.unicode_len();
    let mut r = String::new();
    let mut i: usize = 0;
    while i < n
        invariant
            n == s@.len(),
            i <= n,
            r@ == escaped_backslashes(s@.subrange(0, i as int)),
        decreases n - i,
    {
        let c = s.get_char(i);
        if c == '\\' {
            r.append("\\\\");
            proof {
                reveal_strlit("\\\\");
                assert(r@.subrange(r@.len() - 2, r@.len() as int) =~= seq!['\\', '\\']);
            }
        } else {
            let piece = s.substring_char(i, i + 1);
            r.append(piece);
            proof {
                assert(piece@ =~= seq![s@[i as int]]);
            }
        }
        proof {
            assert(s@.subrange(0, i + 1).subrange(0, i as int) =~= s@.subrange(0, i as int));
            assert(s@.subrange(0, i + 1).last() == s@[i as int]);
            if c == '\\' {
                assert(r@ =~= escaped_backslashes(s@.subrange(0, i as int)) + seq!['\\', '\\']);
            } else {
                assert(r@ =~= escaped_backslashes(s@.subrange(0, i as int)) + seq![s@[i as int]]);
            }
        }
        i += 1;
    }
    proof {
        assert(s@.subrange(0, s@.len() as int) =~= s@);
    }
    r
}

/// Replaces every dot in `s` with an underscore.
pub fn replace_dots(s: &str) -> (r: String)
    ensures
        r@ == dots_to_underscores(s@),
{
    let n = s.unicode_len();
    let mut r = String::new();
    let mut i: usize = 0;
    while i < n
        invariant
            n == s@.len(),
            i <= n,
            r@ == dots_to_underscores(s@.subrange(0, i as int)),
        decreases n - i,
    {
        let c = s.get_char(i);
        if c == '.' {
            r.append("_");
            proof {
                reveal_strlit("_");
                assert(r@.subrange(r@.len() - 1, r@.len() as int) =~= seq!['_']);
            }
        } else {
            let piece = s.substring_char(i, i + 1);
            r.append(piece);
            proof {
                assert(piece@ =~= seq![s@[i as int]]);
            }
        }
        proof {
            assert(s@.subrange(0, i + 1).subrange(0, i as int) =~= s@.subrange(0, i as int));
            assert(s@.subrange(0, i + 1).last() == s@[i as int]);
            if c == '.' {
                assert(r@ =~= dots_to_underscores(s@.subrange(0, i as int)) + seq!['_']);
            } else {
                assert(r@ =~= dots_to_underscores(s@.subrange(0, i as int)) + seq![s@[i as int]]);
            }
        }
        i += 1;
    }
    proof {
        assert(s@.subrange(0, s@.len() as int) =~= s@);
    }
    r
}

/// The character for a single decimal digit.
pub open spec fn digit_char(d: nat) -> char {
    if d == 0 { '0' }
    else if d == 1 { '1' }
    else if d == 2 { '2' }
    else if d == 3 { '3' }
    else if d == 4 { '4' }
    else if d == 5 { '5' }
    else if d == 6 { '6' }
    else if d == 7 { '7' }
    else if d == 8 { '8' }
    else { '9' }
}

/// The decimal digit string of `n`, most significant digit first.
pub open spec fn decimal_seq(n: nat) -> Seq<char>
    decreases n,
{
    if n < 10 {
        seq![digit_char(n)]
    } else {
        decimal_seq(n / 10) + seq![digit_char(n % 10)]
    }
}

fn digit_str(d: u32) -> (r: &'static str)
    requires
        d < 10,
    ensures
        r@ == seq![digit_char(d as nat)],
{
    let r: &'static str = if d == 0 { "0" }
    else if d == 1 { "1" }
    else if d == 2 { "2" }
    else if d == 3 { "3" }
    else if d == 4 { "4" }
    else if d == 5 { "5" }
    else if d == 6 { "6" }
    else if d == 7 { "7" }
    else if d == 8 { "8" }
    else { "9" };
    proof {
        reveal_strlit("0");
        reveal_strlit("1");
        reveal_strlit("2");
        reveal_strlit("3");
        reveal_strlit("4");
        reveal_strlit("5");
        reveal_strlit("6");
        reveal_strlit("7");
        reveal_strlit("8");
        reveal_strlit("9");
        assert(r@ =~= seq![digit_char(d as nat)]);
    }
    r
}

/// Renders `n` in decimal.
pub fn decimal_string(n: u32) -> (r: String)
    ensures
        r@ == decimal_seq(n as nat),
    decreases n,
{
    if n < 10 {
        let mut r = String::new();
        r.append(digit_str(n));
        proof {
            assert(r@ =~= seq![digit_char(n as nat)]);
        }
        r
    } else {
        let mut r = decimal_string(n / 10);
        r.append(digit_str(n % 10));
        r
    }
}

} // verus!
