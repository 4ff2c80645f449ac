//! Text helpers shared by the blocks: building messages from literals,
//! decimal rendering, separator joins and ASCII key normalisation.

use vstd::prelude::*;
use vstd::string::StrSliceExecFns;
use vstd::string::StringExecFns;

verus! {

/// Appends `c` to `s` (`String::push`, which the standard library documents
/// as appending the given char to the end of the string).
#[verifier::external_body]
pub fn string_push(s: &mut String, c: char)
    ensures
        final(s)@ == old(s)@.push(c),
{
    s.push(c);
}

/// Whether two texts hold the same characters.
pub fn text_eq(a: &str, b: &str) -> (r: bool)
    ensures
        r == (a@ == b@),
{
    let a_owned = String::from_str(a);
    let b_owned = String::from_str(b);
    a_owned == b_owned
}

/// `a` followed by `b`.
pub fn concat2(a: &str, b: &str) -> (r: String)
    ensures
        r@ == a@ + b@,
{
    let mut r = String::from_str(a);
    r.append(b);
    r
}

/// `a`, `b` and `c` in that order.
pub fn concat3(a: &str, b: &str, c: &str) -> (r: String)
    ensures
        r@ == a@ + b@ + c@,
{
    let mut r = String::from_str(a);
    r.append(b);
    r.append(c);
    r
}

/// The character of a decimal digit.
pub open spec fn digit_char(d: nat) -> char {
    (('0' as u8) + d) as char
}

/// The decimal rendering of `n`, without sign or leading zeros.
pub open spec fn decimal(n: nat) -> Seq<char>
    decreases n,
{
    if n < 10 {
        seq![digit_char(n)]
    } else {
        decimal(n / 10).push(digit_char(n % 10))
    }
}

fn push_decimal(s: &mut String, n: u64)
    ensures
        final(s)@ == old(s)@ + decimal(n as nat),
    decreases n,
{
    if n >= 10 {
        push_decimal(s, n / 10);
    }
    let d: u8 = (n % 10) as u8;
    let zero: u8 = 48;
    let c: char = (zero + d) as char;
    string_push(s, c);
}

/// The decimal rendering of `n` (what `format!("{}", n)` gives).
pub fn decimal_string(n: u64) -> (r: String)
    ensures
        r@ == decimal(n as nat),
{
    let mut s = String::new();
    push_decimal(&mut s, n);
    s
}

/// The items of `list` with `sep` between each neighbouring pair.
pub open spec fn join(list: Seq<Seq<char>>, sep: Seq<char>) -> Seq<char>
    decreases list.len(),
{
    if list.len() == 0 {
        Seq::empty()
    } else if list.len() == 1 {
        list[0]
    } else {
        join(list.drop_last(), sep) + sep + list.last()
    }
}

/// Whether `c` is an ASCII letter or digit.
pub open spec fn is_ascii_alnum(c: char) -> bool {
    ('0' <= c && c <= '9') || ('a' <= c && c <= 'z') || ('A' <= c && c <= 'Z')
}

/// The ASCII lower-case form of `c` (other characters are unchanged).
pub open spec fn ascii_lower(c: char) -> char {
    if 'A' <= c && c <= 'Z' {
        ((c as u32) + 32) as char
    } else {
        c
    }
}

/// A key with every character that is not an ASCII letter or digit dropped
/// and every letter in lower case.
pub open spec fn normalized(s: Seq<char>) -> Seq<char>
    decreases s.len(),
{
    if s.len() == 0 {
        Seq::empty()
    } else if is_ascii_alnum(s.last()) {
        normalized(s.drop_last()).push(ascii_lower(s.last()))
    } else {
        normalized(s.drop_last())
    }
}

fn is_ascii_alnum_exec(c: char) -> (r: bool)
    ensures
        r == is_ascii_alnum(c),
{
    ('0' <= c && c <= '9') || ('a' <= c && c <= 'z') || ('A' <= c && c <= 'Z')
}

fn ascii_lower_exec(c: char) -> (r: char)
    requires
        is_ascii_alnum(c),
    ensures
        r == ascii_lower(c),
{
    if 'A' <= c && c <= 'Z' {
        let b: u8 = (c as u8) + 32;
        assert(b as u32 == (c as u32) + 32);
        b as char
    } else {
        c
    }
}

/// Folds a name to its lookup key: ASCII letters and digits only, lower case.
pub fn normalize_key(value: &str) -> (key: String)
    ensures
        key@ == normalized(value@),
{
    let n = value.unicode_len();
    let mut key = String::new();
    let mut i: usize = 0;
    while i < n
        invariant
            n == value@.len(),
            i <= n,
            key@ == normalized(value@.take(i as int)),
        decreases n - i,
    {
        let c = value.get_char(i);
        assert(value@.take(i as int + 1).drop_last() == value@.take(i as int));
        assert(value@.take(i as int + 1).last() == c);
        if is_ascii_alnum_exec(c) {
            let l = ascii_lower_exec(c);
            string_push(&mut key, l);
        }
        i = i + 1;
    }
    assert(value@.take(n as int) == value@);
    key
}

/// A normalised key holds only ASCII digits and lower-case letters.
pub proof fn lemma_normalized_is_lower_alnum(s: Seq<char>)
    ensures
        forall|i: int|
            0 <= i < normalized(s).len() ==> ({
                let c = #[trigger] normalized(s)[i];
                ('0' <= c && c <= '9') || ('a' <= c && c <= 'z')
            }),
    decreases s.len(),
{
    if s.len() > 0 {
        lemma_normalized_is_lower_alnum(s.drop_last());
        let c = s.last();
        if is_ascii_alnum(c) {
            let l = ascii_lower(c);
            assert(('0' <= l && l <= '9') || ('a' <= l && l <= 'z'));
            let prev = normalized(s.drop_last());
            assert(normalized(s) == prev.push(l));
            assert forall|i: int| 0 <= i < prev.len() + 1 implies ({
                let d = #[trigger] prev.push(l)[i];
                ('0' <= d && d <= '9') || ('a' <= d && d <= 'z')
            }) by {
                if i < prev.len() {
                    assert(prev.push(l)[i] == prev[i]);
                }
            }
        } else {
            assert(normalized(s) == normalized(s.drop_last()));
        }
    }
}

/// Normalising a key twice gives the same key as normalising it once.
pub proof fn lemma_normalize_idempotent(s: Seq<char>)
    ensures
        normalized(normalized(s)) == normalized(s),
    decreases s.len(),
{
    if s.len() > 0 {
        lemma_normalize_idempotent(s.drop_last());
        let prev = normalized(s.drop_last());
        lemma_normalized_is_lower_alnum(s.drop_last());
        if is_ascii_alnum(s.last()) {
            let c = ascii_lower(s.last());
            let t = prev.push(c);
            assert(t.drop_last() == prev);
            assert(t.last() == c);
            assert(is_ascii_alnum(c));
            assert(ascii_lower(c) == c);
        }
    }
}

/// The texts of a list of strings.
pub open spec fn strings_view(list: Seq<String>) -> Seq<Seq<char>> {
    list.map_values(|s: String| s@)
}

/// The strings of `list` with `sep` between each neighbouring pair.
pub fn join_strings(list: &Vec<String>, sep: &str) -> (s: String)
    ensures
        s@ == join(strings_view(list@), sep@),
{
    let n = list.len();
    let mut s = String::new();
    let mut i: usize = 0;
    while i < n
        invariant
            n == list@.len(),
            i <= n,
            s@ == join(strings_view(list@).take(i as int), sep@),
        decreases n - i,
    {
        let ghost texts = strings_view(list@);
        assert(texts.take(i as int + 1).drop_last() == texts.take(i as int));
        assert(texts.take(i as int + 1).last() == list@[i as int]@);
        if i == 0 {
            assert(texts.take(1) == seq![list@[0]@]);
            s.append(list[i].as_str());
        } else {
            s.append(sep);
            s.append(list[i].as_str());
        }
        i = i + 1;
    }
    assert(strings_view(list@).take(n as int) == strings_view(list@));
    s
}

} // verus!
