//! Verified text utilities: ASCII case folding, character search, splitting
//! and trimming over `&str` values, modelled on `Seq<char>` views.
use vstd::prelude::*;
use vstd::string::*;

verus! {

/// Lowercase one character, folding only the ASCII uppercase range.
pub open spec fn ascii_lower_char(c: char) -> char {
    if 'A' <= c && c <= 'Z' {
        ((c as u8) + 32) as char
    } else {
        c
    }
}

/// ASCII case folding of a whole character sequence.
pub open spec fn ascii_lower(s: Seq<char>) -> Seq<char> {
    Seq::new(s.len(), |i: int| ascii_lower_char(s[i]))
}

/// Folding a character twice is the same as folding it once.
pub proof fn lemma_ascii_lower_char_idempotent(c: char)
    ensures
        ascii_lower_char(ascii_lower_char(c)) == ascii_lower_char(c),
{
}

/// ASCII case folding is idempotent.
pub proof fn lemma_ascii_lower_idempotent(s: Seq<char>)
    ensures
        ascii_lower(ascii_lower(s)) == ascii_lower(s),
{
    assert forall|i: int| 0 <= i < s.len() implies ascii_lower(ascii_lower(s))[i] == ascii_lower(
        s,
    )[i] by {
        lemma_ascii_lower_char_idempotent(s[i]);
    }
    assert(ascii_lower(ascii_lower(s)) =~= ascii_lower(s));
}

/// Executable ASCII case folding of one character.
pub fn lower_char(c: char) -> (r: char)
    ensures
        r == ascii_lower_char(c),
{
    let u: u32 = c as u32;
    if 65 <= u && u <= 90 {
        proof {
            assert(c as u8 == u as u8);
        }
        ((u + 32) as u8) as char
    } else {
        c
    }
}

/// Relies on std's String::push: appends the given character to the string.
#[verifier::external_body]
fn push_char(s: &mut String, c: char)
    ensures
        final(s)@ == old(s)@.push(c),
{
    s.push(c)
}

/// Executable ASCII case folding of a whole string.
pub fn to_ascii_lower(s: &str) -> (r: String)
    ensures
        r@ == ascii_lower(s@),
{
    let n = s.unicode_len();
    let mut out = String::new();
    let mut i: usize = 0;
    while i < n
        invariant
            i <= n,
            n == s@.len(),
            out@ == ascii_lower(s@).subrange(0, i as int),
        decreases n - i,
    {
        let c = s.get_char(i);
        push_char(&mut out, lower_char(c));
        i = i + 1;
        proof {
            assert(out@ =~= ascii_lower(s@).subrange(0, i as int));
        }
    }
    proof {
        assert(ascii_lower(s@).subrange(0, n as int) =~= ascii_lower(s@));
    }
    out
}

/// Character-wise string equality.
pub fn str_eq(a: &str, b: &str) -> (r: bool)
    ensures
        r == (a@ == b@),
{
    let na = a.unicode_len();
    let nb = b.unicode_len();
    if na != nb {
        return false;
    }
    let mut i: usize = 0;
    while i < na
        invariant
            i <= na,
            na == a@.len(),
            na == b@.len(),
            forall|j: int| 0 <= j < i ==> a@[j] == b@[j],
        decreases na - i,
    {
        if a.get_char(i) != b.get_char(i) {
            return false;
        }
        i = i + 1;
    }
    proof {
        assert(a@ =~= b@);
    }
    true
}

/// Index of the first occurrence of `c` in `s`, or `s.len()` if `c` is absent.
pub open spec fn spec_find(s: Seq<char>, c: char) -> nat
    decreases s.len(),
{
    if s.len() == 0 {
        0
    } else if s[0] == c {
        0
    } else {
        1 + spec_find(s.drop_first(), c)
    }
}

/// What `spec_find` returns: the position of the first occurrence.
pub proof fn lemma_find_spec(s: Seq<char>, c: char)
    ensures
        spec_find(s, c) <= s.len(),
        spec_find(s, c) < s.len() ==> s[spec_find(s, c) as int] == c,
        forall|j: int| 0 <= j < spec_find(s, c) ==> s[j] != c,
    decreases s.len(),
{
    if s.len() > 0 && s[0] != c {
        lemma_find_spec(s.drop_first(), c);
        assert forall|j: int| 0 <= j < spec_find(s, c) implies s[j] != c by {
            if j > 0 {
                assert(s.drop_first()[j - 1] != c);
            }
        }
    }
}

/// A position with no earlier occurrence and `c` at it (or none at all) is what
/// `spec_find` returns.
pub proof fn lemma_find_unique(s: Seq<char>, c: char, i: int)
    requires
        0 <= i <= s.len(),
        forall|j: int| 0 <= j < i ==> s[j] != c,
        i < s.len() ==> s[i] == c,
    ensures
        spec_find(s, c) == i,
    decreases s.len(),
{
    if s.len() > 0 && s[0] != c {
        assert forall|j: int| 0 <= j < i - 1 implies s.drop_first()[j] != c by {
            assert(s[j + 1] != c);
        }
        lemma_find_unique(s.drop_first(), c, i - 1);
    }
}

/// Executable search for the first occurrence of a character.
pub fn find_char(s: &str, c: char) -> (r: usize)
    ensures
        r == spec_find(s@, c),
{
    let n = s.unicode_len();
    let mut i: usize = 0;
    while i < n
        invariant
            i <= n,
            n == s@.len(),
            forall|j: int| 0 <= j < i ==> s@[j] != c,
        decreases n - i,
    {
        if s.get_char(i) == c {
            proof {
                lemma_find_unique(s@, c, i as int);
            }
            return i;
        }
        i = i + 1;
    }
    proof {
        lemma_find_unique(s@, c, n as int);
    }
    n
}

/// The whitespace characters that trimming removes: the ASCII whitespace set.
pub open spec fn is_ascii_space(c: char) -> bool {
    c == ' ' || c == '\t' || c == '\n' || c == '\r' || c == '\u{000B}' || c == '\u{000C}'
}

/// `s` without its leading whitespace.
pub open spec fn spec_trim_start(s: Seq<char>) -> Seq<char>
    decreases s.len(),
{
    if s.len() > 0 && is_ascii_space(s[0]) {
        spec_trim_start(s.drop_first())
    } else {
        s
    }
}

/// `s` without its trailing whitespace.
pub open spec fn spec_trim_end(s: Seq<char>) -> Seq<char>
    decreases s.len(),
{
    if s.len() > 0 && is_ascii_space(s[s.len() - 1]) {
        spec_trim_end(s.drop_last())
    } else {
        s
    }
}

/// `s` without leading and trailing whitespace.
pub open spec fn spec_trim(s: Seq<char>) -> Seq<char> {
    spec_trim_end(spec_trim_start(s))
}

proof fn lemma_trim_start_at(s: Seq<char>, i: int)
    requires
        0 <= i <= s.len(),
        forall|j: int| 0 <= j < i ==> is_ascii_space(s[j]),
        i < s.len() ==> !is_ascii_space(s[i]),
    ensures
        spec_trim_start(s) == s.subrange(i, s.len() as int),
    decreases s.len(),
{
    if i == 0 {
        assert(s.subrange(0, s.len() as int) =~= s);
    } else {
        let t = s.drop_first();
        assert forall|j: int| 0 <= j < i - 1 implies is_ascii_space(t[j]) by {
            assert(t[j] == s[j + 1]);
        }
        lemma_trim_start_at(t, i - 1);
        assert(t.subrange(i - 1, t.len() as int) =~= s.subrange(i, s.len() as int));
    }
}

proof fn lemma_trim_end_at(s: Seq<char>, i: int)
    requires
        0 <= i <= s.len(),
        forall|j: int| i <= j < s.len() ==> is_ascii_space(s[j]),
        i > 0 ==> !is_ascii_space(s[i - 1]),
    ensures
        spec_trim_end(s) == s.subrange(0, i),
    decreases s.len(),
{
    if i == s.len() {
        assert(s.subrange(0, s.len() as int) =~= s);
    } else {
        let t = s.drop_last();
        lemma_trim_end_at(t, i);
        assert(t.subrange(0, i) =~= s.subrange(0, i));
    }
}

/// Whether `c` is in the trimmed whitespace set.
pub fn is_space_char(c: char) -> (r: bool)
    ensures
        r == is_ascii_space(c),
{
    c == ' ' || c == '\t' || c == '\n' || c == '\r' || c == '\u{000B}' || c == '\u{000C}'
}

/// `s` without leading and trailing ASCII whitespace.
pub fn trim_ascii(s: &str) -> (r: String)
    ensures
        r@ == spec_trim(s@),
{
    let n = s.unicode_len();
    let mut i: usize = 0;
    while i < n && is_space_char(s.get_char(i))
        invariant
            i <= n,
            n == s@.len(),
            forall|j: int| 0 <= j < i ==> is_ascii_space(s@[j]),
        decreases n - i,
    {
        i = i + 1;
    }
    let mut j: usize = n;
    while j > i && is_space_char(s.get_char(j - 1))
        invariant
            i <= j <= n,
            n == s@.len(),
            forall|k: int| j <= k < n ==> is_ascii_space(s@[k]),
        decreases j,
    {
        j = j - 1;
    }
    let out = s.substring_char(i, j).to_owned();
    proof {
        lemma_trim_start_at(s@, i as int);
        let t = s@.subrange(i as int, n as int);
        assert forall|k: int| (j - i) <= k < t.len() implies is_ascii_space(t[k]) by {
            assert(t[k] == s@[i + k]);
        }
        if j > i {
            assert(!is_ascii_space(t[j - i - 1]));
        }
        lemma_trim_end_at(t, j - i);
        assert(t.subrange(0, j - i) =~= s@.subrange(i as int, j as int));
    }
    out
}

/// The pieces of `s` between occurrences of the separator `sep`, in order.
/// An input without the separator yields one piece, the whole of `s`.
pub open spec fn spec_split(s: Seq<char>, sep: char) -> Seq<Seq<char>>
    decreases s.len(),
{
    if spec_find(s, sep) >= s.len() {
        seq![s]
    } else {
        let i = spec_find(s, sep) as int;
        seq![s.subrange(0, i)] + spec_split(s.subrange(i + 1, s.len() as int), sep)
    }
}

/// An absent character is found nowhere: the search runs off the end.
pub proof fn lemma_find_absent(s: Seq<char>, c: char)
    requires
        !s.contains(c),
    ensures
        spec_find(s, c) == s.len(),
{
    assert forall|j: int| 0 <= j < s.len() implies s[j] != c by {
        if s[j] == c {
            assert(s.contains(c));
        }
    }
    lemma_find_unique(s, c, s.len() as int);
}

/// Splitting on an absent separator yields one piece: the whole input.
pub proof fn lemma_split_absent(s: Seq<char>, sep: char)
    requires
        !s.contains(sep),
    ensures
        spec_split(s, sep) == seq![s],
{
    lemma_find_absent(s, sep);
}

/// Splitting two clean halves around one separator yields the two halves.
pub proof fn lemma_split_once(a: Seq<char>, b: Seq<char>, sep: char)
    requires
        !a.contains(sep),
        !b.contains(sep),
    ensures
        spec_split(a + seq![sep] + b, sep) == seq![a, b],
{
    let s = a + seq![sep] + b;
    assert forall|j: int| 0 <= j < a.len() implies s[j] != sep by {
        assert(s[j] == a[j]);
        if a[j] == sep {
            assert(a.contains(sep));
        }
    }
    assert(s[a.len() as int] == sep);
    lemma_find_unique(s, sep, a.len() as int);
    assert(s.subrange(0, a.len() as int) =~= a);
    assert(s.subrange(a.len() as int + 1, s.len() as int) =~= b);
    lemma_split_absent(b, sep);
    assert(spec_split(s, sep) =~= seq![a, b]);
}

/// Executable split on a separator character.
pub fn split_char(s: &str, sep: char) -> (parts: Vec<String>)
    ensures
        parts@.len() == spec_split(s@, sep).len(),
        forall|k: int| 0 <= k < parts@.len() ==> parts@[k]@ == spec_split(s@, sep)[k],
{
    let mut parts: Vec<String> = Vec::new();
    let mut rest: &str = s;
    loop
        invariant_except_break
            spec_split(s@, sep).len() == parts@.len() + spec_split(rest@, sep).len(),
            forall|k: int| 0 <= k < parts@.len() ==> parts@[k]@ == spec_split(s@, sep)[k],
            forall|k: int|
                0 <= k < spec_split(rest@, sep).len() ==> spec_split(rest@, sep)[k] == spec_split(
                    s@,
                    sep,
                )[parts@.len() + k],
        ensures
            parts@.len() == spec_split(s@, sep).len(),
            forall|k: int| 0 <= k < parts@.len() ==> parts@[k]@ == spec_split(s@, sep)[k],
        decreases rest@.len(),
    {
        let ghost prior = parts@;
        let n = rest.unicode_len();
        let i = find_char(rest, sep);
        proof {
            lemma_find_spec(rest@, sep);
        }
        if i >= n {
            let piece = rest.to_owned();
            parts.push(piece);
            proof {
                assert(spec_split(rest@, sep) =~= seq![rest@]);
                assert(spec_split(rest@, sep)[0] == spec_split(s@, sep)[prior.len() as int + 0]);
                assert(parts@[prior.len() as int]@ == rest@);
                assert(parts@[prior.len() as int]@ == spec_split(s@, sep)[prior.len() as int]);
                assert forall|k: int| 0 <= k < parts@.len() implies parts@[k]@ == spec_split(
                    s@,
                    sep,
                )[k] by {
                    if k < prior.len() {
                        assert(parts@[k] == prior[k]);
                    }
                }
            }
            break;
        }
        let piece_str = rest.substring_char(0, i);
        let piece = piece_str.to_owned();
        let next: &str = rest.substring_char(i + 1, n);
        proof {
            assert(spec_split(rest@, sep) == seq![rest@.subrange(0, i as int)] + spec_split(
                next@,
                sep,
            ));
        }
        parts.push(piece);
        proof {
            assert(parts@[prior.len() as int]@ == rest@.subrange(0, i as int));
            assert(spec_split(rest@, sep)[0] == rest@.subrange(0, i as int));
            assert forall|k: int| 0 <= k < parts@.len() implies parts@[k]@ == spec_split(
                s@,
                sep,
            )[k] by {
                if k < prior.len() {
                    assert(parts@[k] == prior[k]);
                } else {
                    assert(spec_split(rest@, sep)[0] == spec_split(s@, sep)[prior.len() as int]);
                }
            }
            assert forall|k: int| 0 <= k < spec_split(next@, sep).len() implies spec_split(
                next@,
                sep,
            )[k] == spec_split(s@, sep)[parts@.len() + k] by {
                assert(spec_split(rest@, sep)[k + 1] == spec_split(next@, sep)[k]);
                assert(spec_split(s@, sep)[prior.len() + (k + 1)] == spec_split(rest@, sep)[k
                    + 1]);
            }
        }
        rest = next;
    }
    parts
}

} // verus!
