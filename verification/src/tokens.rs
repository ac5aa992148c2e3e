//! Token text: the textual token streams that the generator builds.
//!
//! A token stream is kept as its text. Appending one stream to another puts a
//! single space between them when both are non-empty, and nothing otherwise, so
//! that an empty interpolation leaves no trace.
use vstd::prelude::*;
use vstd::string::StrSliceExecFns;

verus! {

/// The text of token stream `s` followed by token stream `t`.
pub open spec fn tok_join(s: Seq<char>, t: Seq<char>) -> Seq<char> {
    if s.len() > 0 && t.len() > 0 {
        s + seq![' '] + t
    } else {
        s + t
    }
}

/// Appends the tokens `t` to the stream `acc`.
pub fn append_tokens(acc: &mut String, t: &str)
    ensures
        final(acc)@ == tok_join(old(acc)@, t@),
{
    if acc.as_str().is_empty() || t.is_empty() {
        acc.append(t);
    } else {
        proof {
            reveal_strlit(" ");
        }
        acc.append(" ");
        acc.append(t);
    }
}

/// Appends the single character `c` to `s` (`String::push`).
#[verifier::external_body]
pub(crate) fn push_char(s: &mut String, c: char)
    ensures
        final(s)@ == old(s)@.push(c),
{
    s.push(c);
}

/// An identifier made of `lhs` directly followed by `rhs`.
pub fn concat_idents(lhs: &str, rhs: &str) -> (res: String)
    ensures
        res@ == lhs@ + rhs@,
{
    let mut s = String::from_str(lhs);
    s.append(rhs);
    s
}

/// The character of the decimal digit `d`.
pub open spec fn digit_char(d: nat) -> char {
    ((d + 48) as u8) as char
}

/// The decimal notation of `n`, without leading zeros.
pub open spec fn decimal_text(n: nat) -> Seq<char>
    decreases n,
{
    if n < 10 {
        seq![digit_char(n)]
    } else {
        decimal_text(n / 10).push(digit_char(n % 10))
    }
}

/// Writes `n` in decimal notation.
pub fn decimal(n: usize) -> (res: String)
    ensures
        res@ == decimal_text(n as nat),
    decreases n,
{
    let d: u8 = (n % 10) as u8;
    let c: char = (d + 48u8) as char;
    if n < 10 {
        let mut s = String::new();
        push_char(&mut s, c);
        assert(s@ =~= seq![digit_char(n as nat)]);
        s
    } else {
        let mut s = decimal(n / 10);
        push_char(&mut s, c);
        s
    }
}

/// The text `s` with every occurrence of `pat` taken out, occurrences being
/// found from left to right without overlap (`str::replace(pat, "")`).
pub open spec fn remove_all(s: Seq<char>, pat: Seq<char>) -> Seq<char>
    decreases s.len(),
{
    if s.len() == 0 {
        s
    } else if 0 < pat.len() <= s.len() && s.take(pat.len() as int) == pat {
        remove_all(s.skip(pat.len() as int), pat)
    } else {
        seq![s[0]] + remove_all(s.skip(1), pat)
    }
}

/// The characters of `s`, one by one.
fn chars_of(s: &str) -> (res: Vec<char>)
    ensures
        res@ == s@,
{
    let n = s.unicode_len();
    let mut v: Vec<char> = Vec::new();
    let mut i: usize = 0;
    while i < n
        invariant
            n == s@.len(),
            i <= n,
            v@ == s@.take(i as int),
        decreases n - i,
    {
        v.push(s.get_char(i));
        i = i + 1;
        assert(v@ =~= s@.take(i as int));
    }
    assert(s@.take(n as int) =~= s@);
    v
}

/// Whether `pat` occurs in `chars` at position `at`.
fn occurs_at(chars: &Vec<char>, at: usize, pat: &Vec<char>) -> (res: bool)
    requires
        at + pat@.len() <= chars@.len(),
    ensures
        res == (chars@.subrange(at as int, at + pat@.len()) == pat@),
{
    let mut j: usize = 0;
    while j < pat.len()
        invariant
            at + pat@.len() <= chars.len(),
            j <= pat@.len(),
            chars@.subrange(at as int, at + j) == pat@.take(j as int),
        decreases pat@.len() - j,
    {
        if chars[at + j] != pat[j] {
            assert(chars@.subrange(at as int, at + pat@.len())[j as int] != pat@[j as int]);
            return false;
        }
        j = j + 1;
        assert(chars@.subrange(at as int, at + j) =~= pat@.take(j as int));
    }
    assert(pat@.take(j as int) =~= pat@);
    true
}

/// `s` with every occurrence of `pat` taken out (`s.replace(pat, "")`).
pub fn remove_occurrences(s: &str, pat: &str) -> (res: String)
    ensures
        res@ == remove_all(s@, pat@),
{
    let chars = chars_of(s);
    let pc = chars_of(pat);
    let mut out = String::new();
    let mut i: usize = 0;
    assert(s@.skip(0) =~= s@);
    while i < chars.len()
        invariant
            chars@ == s@,
            pc@ == pat@,
            i <= chars@.len(),
            out@ + remove_all(s@.skip(i as int), pat@) == remove_all(s@, pat@),
        decreases chars@.len() - i,
    {
        let rest = Ghost(s@.skip(i as int));
        if pc.len() > 0 && pc.len() <= chars.len() - i && occurs_at(&chars, i, &pc) {
            proof {
                assert(rest@.take(pat@.len() as int) =~= chars@.subrange(
                    i as int,
                    i + pat@.len(),
                ));
                assert(rest@.skip(pat@.len() as int) =~= s@.skip(i + pat@.len()));
            }
            i = i + pc.len();
        } else {
            let c = chars[i];
            proof {
                if 0 < pat@.len() <= rest@.len() {
                    assert(rest@.take(pat@.len() as int) =~= chars@.subrange(
                        i as int,
                        i + pat@.len(),
                    ));
                }
                assert(rest@.skip(1) =~= s@.skip(i + 1));
            }
            push_char(&mut out, c);
            i = i + 1;
            assert(out@ + remove_all(s@.skip(i as int), pat@) =~= remove_all(s@, pat@));
        }
    }
    assert(s@.skip(i as int) =~= Seq::<char>::empty());
    assert(out@ =~= remove_all(s@, pat@));
    out
}

} // verus!
