//! Text as sequences of characters: comparison, search, trimming, and the
//! decimal numerals that headers and screen lines are made of.

use vstd::prelude::*;
use vstd::string::StringExecFns;
use vstd::string::StrSliceExecFns;

verus! {

broadcast use vstd::string::group_string_axioms;

/// The Unicode property `White_Space`.
pub open spec fn is_white_space_spec(c: char) -> bool {
    ||| '\u{9}' <= c <= '\u{d}'
    ||| c == ' '
    ||| c == '\u{85}'
    ||| c == '\u{a0}'
    ||| c == '\u{1680}'
    ||| '\u{2000}' <= c <= '\u{200a}'
    ||| c == '\u{2028}'
    ||| c == '\u{2029}'
    ||| c == '\u{202f}'
    ||| c == '\u{205f}'
    ||| c == '\u{3000}'
}

/// Whether a character has the Unicode property `White_Space`.
pub fn is_white_space(c: char) -> (r: bool)
    ensures
        r == is_white_space_spec(c),
{
    ('\u{9}' <= c && c <= '\u{d}') || c == ' ' || c == '\u{85}' || c == '\u{a0}' || c == '\u{1680}'
        || ('\u{2000}' <= c && c <= '\u{200a}') || c == '\u{2028}' || c == '\u{2029}' || c
        == '\u{202f}' || c == '\u{205f}' || c == '\u{3000}'
}

/// `s` without the white space at its beginning.
pub open spec fn trimmed_start(s: Seq<char>) -> Seq<char>
    decreases s.len(),
{
    if s.len() > 0 && is_white_space_spec(s[0]) {
        trimmed_start(s.drop_first())
    } else {
        s
    }
}

/// `s` without the white space at its end.
pub open spec fn trimmed_end(s: Seq<char>) -> Seq<char>
    decreases s.len(),
{
    if s.len() > 0 && is_white_space_spec(s.last()) {
        trimmed_end(s.drop_last())
    } else {
        s
    }
}

/// `s` without the white space at either end.
pub open spec fn trimmed(s: Seq<char>) -> Seq<char> {
    trimmed_end(trimmed_start(s))
}

/// Whether `s` begins with `prefix`.
pub open spec fn has_prefix(s: Seq<char>, prefix: Seq<char>) -> bool {
    prefix.len() <= s.len() && s.take(prefix.len() as int) == prefix
}

/// Whether `needle` occurs in `s` at position `at`.
pub open spec fn occurs_at(s: Seq<char>, needle: Seq<char>, at: int) -> bool {
    0 <= at && at + needle.len() <= s.len() && s.subrange(at, at + needle.len()) == needle
}

/// Whether `needle` occurs anywhere in `s`.
pub open spec fn has_substring(s: Seq<char>, needle: Seq<char>) -> bool {
    exists|at: int| occurs_at(s, needle, at)
}

/// The numeral of a single digit.
pub open spec fn digit_char(d: nat) -> char {
    if d == 0 {
        '0'
    } else if d == 1 {
        '1'
    } else if d == 2 {
        '2'
    } else if d == 3 {
        '3'
    } else if d == 4 {
        '4'
    } else if d == 5 {
        '5'
    } else if d == 6 {
        '6'
    } else if d == 7 {
        '7'
    } else if d == 8 {
        '8'
    } else {
        '9'
    }
}

/// The decimal numeral of `n`, without leading zeros.
pub open spec fn decimal(n: nat) -> Seq<char>
    decreases n,
{
    if n < 10 {
        seq![digit_char(n)]
    } else {
        decimal(n / 10).push(digit_char(n % 10))
    }
}

/// The characters that a byte string stands for, where what is no UTF-8 has been
/// replaced.
pub uninterp spec fn lossy_text(bytes: Seq<u8>) -> Seq<char>;

/// `String::from_utf8_lossy`: the text of the bytes, with a replacement character
/// for what is no UTF-8; UTF-8 is decoded as it stands.
#[verifier::external_body]
pub(crate) fn from_utf8_lossy(bytes: &[u8]) -> (r: String)
    ensures
        r@ == lossy_text(bytes@),
        vstd::utf8::valid_utf8(bytes@) ==> r@ == vstd::utf8::decode_utf8(bytes@),
{
    String::from_utf8_lossy(bytes).into_owned()
}

/// Two byte strings that are UTF-8 are so one behind the other, and encode their
/// texts one behind the other.
pub(crate) proof fn lemma_decode_append(a: Seq<u8>, b: Seq<u8>)
    requires
        vstd::utf8::valid_utf8(a),
        vstd::utf8::valid_utf8(b),
    ensures
        vstd::utf8::valid_utf8(a + b),
        vstd::utf8::decode_utf8(a + b) == vstd::utf8::decode_utf8(a) + vstd::utf8::decode_utf8(b),
    decreases a.len(),
{
    if a.len() == 0 {
        assert(a + b == b);
    } else {
        let rest = vstd::utf8::pop_first_scalar(a);
        assert(vstd::utf8::pop_first_scalar(a + b) == rest + b);
        lemma_decode_append(rest, b);
    }
}

/// The characters of `s`.
pub fn chars_of(s: &str) -> (r: Vec<char>)
    ensures
        r@ == s@,
{
    let mut out: Vec<char> = Vec::new();
    for c in it: s.chars()
        invariant
            it.seq() == s@,
            out@ == s@.take(it.index() as int),
    {
        assert(s@.take(it.index() as int + 1) == s@.take(it.index() as int).push(
            s@[it.index() as int],
        ));
        out.push(c);
    }
    assert(s@.take(s@.len() as int) == s@);
    out
}

/// Whether two strings hold the same characters.
pub fn same_text(a: &str, b: &str) -> (r: bool)
    ensures
        r == (a@ == b@),
{
    a.to_owned() == b.to_owned()
}

/// Whether `s` begins with `prefix`.
pub fn starts_with(s: &str, prefix: &str) -> (r: bool)
    ensures
        r == has_prefix(s@, prefix@),
{
    let p: usize = prefix.unicode_len();
    p <= s.unicode_len() && same_text(s.substring_char(0, p), prefix)
}

/// Whether `needle` occurs in `s`.
pub fn contains(s: &str, needle: &str) -> (r: bool)
    ensures
        r == has_substring(s@, needle@),
{
    let n: usize = s.unicode_len();
    let m: usize = needle.unicode_len();
    if m > n {
        return false;
    }
    let mut at: usize = 0;
    while at < n - m
        invariant
            n == s@.len(),
            m == needle@.len(),
            m <= n,
            at <= n - m,
            forall|k: int| 0 <= k < at ==> !occurs_at(s@, needle@, k),
        decreases n - m - at,
    {
        if same_text(s.substring_char(at, at + m), needle) {
            assert(occurs_at(s@, needle@, at as int));
            return true;
        }
        at = at + 1;
    }
    let last: bool = same_text(s.substring_char(n - m, n), needle);
    assert(last == occurs_at(s@, needle@, n - m));
    last
}

/// `s` without the white space at either end.
pub fn trim(s: &str) -> (r: &str)
    ensures
        r@ == trimmed(s@),
{
    let cs: Vec<char> = chars_of(s);
    let mut from: usize = 0;
    assert(s@.subrange(0, s@.len() as int) == s@);
    while from < cs.len() && is_white_space(cs[from])
        invariant
            cs@ == s@,
            from <= cs.len(),
            trimmed_start(s@) == trimmed_start(s@.subrange(from as int, s@.len() as int)),
        decreases cs.len() - from,
    {
        assert(s@.subrange(from as int, s@.len() as int).drop_first() == s@.subrange(
            from + 1,
            s@.len() as int,
        ));
        from = from + 1;
    }
    let mut to: usize = cs.len();
    while from < to && is_white_space(cs[to - 1])
        invariant
            cs@ == s@,
            from <= to <= cs.len(),
            trimmed(s@) == trimmed_end(s@.subrange(from as int, to as int)),
        decreases to,
    {
        assert(s@.subrange(from as int, to as int).drop_last() == s@.subrange(
            from as int,
            to - 1,
        ));
        to = to - 1;
    }
    s.substring_char(from, to)
}

/// The numeral of a single digit, as a string.
fn digit_str(d: u64) -> (r: &'static str)
    requires
        d < 10,
    ensures
        r@ == seq![digit_char(d as nat)],
{
    proof {
        reveal_strlit("0");
        reveal_strlit("1");
        reveal_strlit("2");
        reveal_strlit("3");
        reveal_strlit("4");
        reveal_strlit("5");
        reveal_strlit("6");
        reveal_strlit("7");
        reveal_strlit("8");
        reveal_strlit("9");
    }
    match d {
        0 => "0",
        1 => "1",
        2 => "2",
        3 => "3",
        4 => "4",
        5 => "5",
        6 => "6",
        7 => "7",
        8 => "8",
        _ => "9",
    }
}

/// Appends the decimal numeral of `n`.
pub fn push_decimal(out: &mut String, n: u64)
    ensures
        final(out)@ == old(out)@ + decimal(n as nat),
    decreases n,
{
    if n >= 10 {
        push_decimal(out, n / 10);
    }
    out.append(digit_str(n % 10));
}

/// Text whose ends are not white space is left alone by trimming.
pub(crate) proof fn lemma_trimmed_of_bare(s: Seq<char>)
    requires
        s.len() > 0 ==> !is_white_space_spec(s[0]) && !is_white_space_spec(s.last()),
    ensures
        trimmed(s) == s,
{
}

/// Trimming the start takes away white space and nothing else.
proof fn lemma_trimmed_start(s: Seq<char>)
    ensures
        trimmed_start(s).len() <= s.len(),
        trimmed_start(s) == s.skip(s.len() - trimmed_start(s).len()),
        trimmed_start(s).len() > 0 ==> !is_white_space_spec(trimmed_start(s)[0]),
    decreases s.len(),
{
    if s.len() > 0 && is_white_space_spec(s[0]) {
        lemma_trimmed_start(s.drop_first());
        let n = trimmed_start(s).len();
        assert(s.drop_first().skip(s.drop_first().len() - n) == s.skip(s.len() - n));
    } else {
        assert(s.skip(0) == s);
    }
}

/// Trimming the end takes away white space and nothing else.
proof fn lemma_trimmed_end(s: Seq<char>)
    ensures
        trimmed_end(s).len() <= s.len(),
        trimmed_end(s) == s.take(trimmed_end(s).len() as int),
        trimmed_end(s).len() > 0 ==> !is_white_space_spec(trimmed_end(s).last()),
    decreases s.len(),
{
    if s.len() > 0 && is_white_space_spec(s.last()) {
        lemma_trimmed_end(s.drop_last());
        let n = trimmed_end(s).len() as int;
        assert(s.drop_last().take(n) == s.take(n));
    } else {
        assert(s.take(s.len() as int) == s);
    }
}

/// Trimmed text has no white space at either end, and trimming it again changes
/// nothing.
pub proof fn law_trimmed_is_bare(s: Seq<char>)
    ensures
        trimmed(s).len() > 0 ==> !is_white_space_spec(trimmed(s)[0]) && !is_white_space_spec(
            trimmed(s).last(),
        ),
        trimmed(trimmed(s)) == trimmed(s),
{
    lemma_trimmed_start(s);
    lemma_trimmed_end(trimmed_start(s));
}

/// In front of a prefix that ends bare, trimming the end trims what follows.
pub(crate) proof fn lemma_trimmed_end_after(prefix: Seq<char>, s: Seq<char>)
    requires
        prefix.len() > 0,
        !is_white_space_spec(prefix.last()),
    ensures
        trimmed_end(prefix + s) == prefix + trimmed_end(s),
    decreases s.len(),
{
    if s.len() == 0 {
        assert(prefix + s == prefix);
    } else {
        assert((prefix + s).last() == s.last());
        if is_white_space_spec(s.last()) {
            assert((prefix + s).drop_last() == prefix + s.drop_last());
            lemma_trimmed_end_after(prefix, s.drop_last());
        }
    }
}

/// Trimming a longer text's end: one character more in front either stays or, if
/// all behind it goes, is trimmed itself.
proof fn lemma_trimmed_end_cons(c: char, s: Seq<char>)
    ensures
        trimmed_end(seq![c] + s) == (if trimmed_end(s).len() > 0 {
            seq![c] + trimmed_end(s)
        } else {
            trimmed_end(seq![c])
        }),
    decreases s.len(),
{
    if s.len() == 0 {
        assert(seq![c] + s == seq![c]);
    } else {
        assert((seq![c] + s).last() == s.last());
        if is_white_space_spec(s.last()) {
            assert((seq![c] + s).drop_last() == seq![c] + s.drop_last());
            lemma_trimmed_end_cons(c, s.drop_last());
        }
    }
}

/// It does not matter which end is trimmed first.
pub(crate) proof fn lemma_trims_commute(s: Seq<char>)
    ensures
        trimmed_start(trimmed_end(s)) == trimmed(s),
    decreases s.len(),
{
    if s.len() > 0 && is_white_space_spec(s[0]) {
        let rest = s.drop_first();
        assert(s == seq![s[0]] + rest);
        lemma_trimmed_end_cons(s[0], rest);
        lemma_trims_commute(rest);
        let one = seq![s[0]];
        assert(one.drop_last() == Seq::<char>::empty());
        assert(trimmed_end(one) == Seq::<char>::empty()) by {
            assert(one.last() == s[0]);
            reveal_with_fuel(trimmed_end, 2);
        }
        if trimmed_end(rest).len() > 0 {
            assert((one + trimmed_end(rest)).drop_first() == trimmed_end(rest));
        } else {
            assert(trimmed_end(rest) == Seq::<char>::empty());
        }
    } else if s.len() > 0 {
        lemma_trimmed_end_cons(s[0], s.drop_first());
        assert(s == seq![s[0]] + s.drop_first());
        lemma_trimmed_end(s);
        assert(trimmed_end(s)[0] == s[0]);
    }
}

/// Trimming the end first changes nothing for the trimmed text.
pub(crate) proof fn lemma_trimmed_of_trimmed_end(s: Seq<char>)
    ensures
        trimmed(trimmed_end(s)) == trimmed(s),
{
    lemma_trims_commute(s);
    law_trimmed_is_bare(s);
    lemma_trimmed_start(s);
    lemma_trimmed_end(trimmed_start(s));
}

/// Whether a text is white space and nothing else.
pub open spec fn is_blank(s: Seq<char>) -> bool {
    forall|i: int| 0 <= i < s.len() ==> is_white_space_spec(#[trigger] s[i])
}

/// Whether a text is not empty and has no white space at its ends.
pub open spec fn is_bare(s: Seq<char>) -> bool {
    s.len() > 0 && !is_white_space_spec(s[0]) && !is_white_space_spec(s.last())
}

/// Nothing is left of blank text, and blank text in front of a text is taken from
/// its start.
proof fn lemma_trimmed_start_of_blank(a: Seq<char>, s: Seq<char>)
    requires
        is_blank(a),
        s.len() > 0 ==> !is_white_space_spec(s[0]),
    ensures
        trimmed_start(a + s) == s,
    decreases a.len(),
{
    if a.len() == 0 {
        assert(a + s == s);
    } else {
        let rest = a.drop_first();
        assert forall|i: int| 0 <= i < rest.len() implies is_white_space_spec(#[trigger] rest[i]) by {
            assert(rest[i] == a[i + 1]);
        }
        assert((a + s)[0] == a[0]);
        assert((a + s).drop_first() == rest + s);
        lemma_trimmed_start_of_blank(rest, s);
    }
}

/// Blank text behind a text is taken from its end.
proof fn lemma_trimmed_end_of_blank(s: Seq<char>, b: Seq<char>)
    requires
        is_blank(b),
        s.len() > 0 ==> !is_white_space_spec(s.last()),
    ensures
        trimmed_end(s + b) == s,
    decreases b.len(),
{
    if b.len() == 0 {
        assert(s + b == s);
    } else {
        let rest = b.drop_last();
        assert forall|i: int| 0 <= i < rest.len() implies is_white_space_spec(#[trigger] rest[i]) by {
            assert(rest[i] == b[i]);
        }
        assert((s + b).last() == b[b.len() - 1]);
        assert((s + b).drop_last() == s + rest);
        lemma_trimmed_end_of_blank(s, rest);
    }
}

/// Trimming takes the white space around a text, however much there is, and
/// nothing else; of blank text it leaves nothing.
pub proof fn law_trimming_frees_the_text(a: Seq<char>, s: Seq<char>, b: Seq<char>)
    requires
        is_blank(a),
        is_blank(b),
    ensures
        is_bare(s) ==> trimmed(a + s + b) == s,
        trimmed(a) == Seq::<char>::empty(),
{
    let none = Seq::<char>::empty();
    lemma_trimmed_start_of_blank(a, none);
    assert(a + none == a);
    if is_bare(s) {
        assert((s + b)[0] == s[0]);
        lemma_trimmed_start_of_blank(a, s + b);
        assert(a + s + b == a + (s + b));
        lemma_trimmed_end_of_blank(s, b);
    }
}

/// Every text is its trimmed text between two blank ones, which are returned.
pub proof fn law_trimming_takes_blanks_only(s: Seq<char>) -> (ends: (Seq<char>, Seq<char>))
    ensures
        is_blank(ends.0),
        is_blank(ends.1),
        s == ends.0 + trimmed(s) + ends.1,
        trimmed(s).len() > 0 ==> is_bare(trimmed(s)),
{
    lemma_trimmed_start(s);
    lemma_trimmed_end(trimmed_start(s));
    lemma_start_is_blank(s);
    lemma_end_is_blank(trimmed_start(s));
    let start = trimmed_start(s);
    let a = s.take(s.len() - start.len());
    let b = start.skip(trimmed(s).len() as int);
    assert(s == a + start);
    assert(start == trimmed(s) + b);
    assert(s == a + trimmed(s) + b);
    (a, b)
}

/// What is trimmed from the start is blank.
proof fn lemma_start_is_blank(s: Seq<char>)
    ensures
        trimmed_start(s).len() <= s.len(),
        is_blank(s.take(s.len() - trimmed_start(s).len())),
    decreases s.len(),
{
    if s.len() > 0 && is_white_space_spec(s[0]) {
        lemma_start_is_blank(s.drop_first());
        let n = s.len() - trimmed_start(s).len();
        assert forall|i: int| 0 <= i < n implies is_white_space_spec(#[trigger] s.take(n)[i]) by {
            if i > 0 {
                assert(s.drop_first().take(n - 1)[i - 1] == s.take(n)[i]);
            }
        }
    }
}

/// What is trimmed from the end is blank.
proof fn lemma_end_is_blank(s: Seq<char>)
    ensures
        trimmed_end(s).len() <= s.len(),
        is_blank(s.skip(trimmed_end(s).len() as int)),
    decreases s.len(),
{
    if s.len() > 0 && is_white_space_spec(s.last()) {
        lemma_end_is_blank(s.drop_last());
        let n = trimmed_end(s).len() as int;
        assert forall|i: int| 0 <= i < s.len() - n implies is_white_space_spec(
            #[trigger] s.skip(n)[i],
        ) by {
            if i < s.len() - n - 1 {
                assert(s.drop_last().skip(n)[i] == s.skip(n)[i]);
            }
        }
    }
}

/// A text begins with a prefix if and only if it is that prefix and more.
pub proof fn law_prefix_stands_in_front(s: Seq<char>, prefix: Seq<char>, rest: Seq<char>)
    ensures
        has_prefix(prefix + rest, prefix),
        has_prefix(s, prefix) ==> s == prefix + s.skip(prefix.len() as int),
{
    assert((prefix + rest).take(prefix.len() as int) == prefix);
    if has_prefix(s, prefix) {
        assert(s == s.take(prefix.len() as int) + s.skip(prefix.len() as int));
    }
}

/// A text is found wherever it stands, whatever is in front of it and behind it.
pub proof fn law_search_finds_the_text(a: Seq<char>, needle: Seq<char>, b: Seq<char>)
    ensures
        has_substring(a + needle + b, needle),
{
    let s = a + needle + b;
    assert(s.subrange(a.len() as int, (a.len() + needle.len()) as int) == needle);
    assert(occurs_at(s, needle, a.len() as int));
}

/// A text that is found stands there: what is in front of it and behind it is
/// returned.
pub proof fn law_search_finds_nothing_else(s: Seq<char>, needle: Seq<char>) -> (around: (
    Seq<char>,
    Seq<char>,
))
    requires
        has_substring(s, needle),
    ensures
        s == around.0 + needle + around.1,
{
    let at = choose|at: int| occurs_at(s, needle, at);
    let (a, b) = (s.take(at), s.skip(at + needle.len()));
    assert(s == a + s.subrange(at, at + needle.len()) + b);
    (a, b)
}

/// The number that a decimal numeral denotes.
pub open spec fn numeral_value(s: Seq<char>) -> int
    decreases s.len(),
{
    if s.len() == 0 {
        0
    } else {
        10 * numeral_value(s.drop_last()) + (s.last() as int - '0' as int)
    }
}

/// Whether a text is digits, without leading zeros.
pub open spec fn is_numeral(s: Seq<char>) -> bool {
    &&& s.len() > 0
    &&& forall|i: int| 0 <= i < s.len() ==> '0' <= #[trigger] s[i] <= '9'
    &&& s.len() > 1 ==> s[0] != '0'
}

/// The numeral of a number is digits without leading zeros, and denotes the
/// number.
pub proof fn law_decimal_denotes_its_number(n: nat)
    ensures
        is_numeral(decimal(n)),
        numeral_value(decimal(n)) == n,
        n > 0 ==> decimal(n)[0] != '0',
    decreases n,
{
    if n < 10 {
        assert(decimal(n).drop_last() == Seq::<char>::empty());
        reveal_with_fuel(numeral_value, 2);
    } else {
        law_decimal_denotes_its_number(n / 10);
        assert(decimal(n).drop_last() == decimal(n / 10));
        assert(decimal(n)[0] == decimal(n / 10)[0]);
        assert forall|i: int| 0 <= i < decimal(n).len() implies '0' <= #[trigger] decimal(n)[i]
            <= '9' by {
            if i < decimal(n / 10).len() {
                assert(decimal(n)[i] == decimal(n / 10)[i]);
            }
        }
    }
}

} // verus!
