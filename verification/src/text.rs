//! Character-level facts the library relies on: Unicode white space,
//! lower-casing, decimal rendering, and the string checks built on them.

use vstd::prelude::*;

verus! {

/// Whether `c` has the Unicode `White_Space` property (listed in the
/// Unicode Character Database's PropList.txt), which `char::is_whitespace`
/// reports.
pub open spec fn white_space(c: char) -> bool {
    let u = c as int;
    ||| 0x9 <= u <= 0xD
    ||| u == 0x20
    ||| u == 0x85
    ||| u == 0xA0
    ||| u == 0x1680
    ||| 0x2000 <= u <= 0x200A
    ||| u == 0x2028
    ||| u == 0x2029
    ||| u == 0x202F
    ||| u == 0x205F
    ||| u == 0x3000
}

/// The lower-case form of `s`, as `str::to_lowercase` produces it.
pub uninterp spec fn lowercase(s: Seq<char>) -> Seq<char>;

/// Trusted: calls `char::is_whitespace`, which reports the `White_Space`
/// property stated by `white_space`.
#[verifier::external_body]
pub fn char_is_whitespace(c: char) -> (r: bool)
    ensures
        r == white_space(c),
{
    c.is_whitespace()
}

/// Trusted: calls `str::to_lowercase`; its result is named `lowercase(s@)`.
#[verifier::external_body]
pub fn to_lowercase(s: &str) -> (r: String)
    ensures
        r@ == lowercase(s@),
{
    s.to_lowercase()
}

/// The character of decimal digit `d`.
pub open spec fn digit_char(d: nat) -> char {
    ((d + 48) as u32) as char
}

/// The decimal digits of `n`, most significant first, without leading zeros.
pub open spec fn decimal(n: nat) -> Seq<char>
    decreases n,
{
    if n < 10 {
        seq![digit_char(n)]
    } else {
        decimal(n / 10).push(digit_char(n % 10))
    }
}

/// The number a text of decimal digits stands for.
pub open spec fn digits_value(s: Seq<char>) -> int
    decreases s.len(),
{
    if s.len() == 0 {
        0
    } else {
        digits_value(s.drop_last()) * 10 + (s.last() as int - '0' as int)
    }
}

/// `decimal(n)` is the decimal writing of `n`: it is made of the digits
/// '0' to '9', reads back as `n`, and starts with '0' only for zero.
pub proof fn lemma_decimal_reads_back(n: nat)
    ensures
        decimal(n).len() > 0,
        forall|i: int| 0 <= i < decimal(n).len() ==> '0' <= #[trigger] decimal(n)[i] <= '9',
        digits_value(decimal(n)) == n,
        n > 0 ==> decimal(n)[0] != '0',
        n < 10 ==> decimal(n).len() == 1,
        n >= 10 ==> decimal(n).len() == decimal(n / 10).len() + 1,
    decreases n,
{
    let last = n % 10;
    assert(digit_char(last) as int == last + 48);
    if n < 10 {
        assert(decimal(n).drop_last() =~= Seq::<char>::empty());
        assert(last == n);
        assert(decimal(n).last() == digit_char(last));
        assert(digits_value(decimal(n)) == digits_value(Seq::<char>::empty()) * 10 + last);
    }
    if n >= 10 {
        lemma_decimal_reads_back(n / 10);
        let d = decimal(n);
        assert(d.drop_last() =~= decimal(n / 10));
        assert forall|i: int| 0 <= i < d.len() implies '0' <= #[trigger] d[i] <= '9' by {
            if i < d.len() - 1 {
                assert(d[i] == decimal(n / 10)[i]);
            }
        }
        assert(d[0] == decimal(n / 10)[0]);
        assert(d.last() == digit_char(last));
        assert(digits_value(d) == digits_value(decimal(n / 10)) * 10 + last);
        assert((n / 10) as int * 10 + last == n);
    }
}

/// The one-character text of decimal digit `d`.
fn digit_text(d: usize) -> (r: &'static str)
    requires
        d < 10,
    ensures
        r@ == seq![digit_char(d as nat)],
{
    proof {
        reveal_strlit("0");
        reveal_strlit("1");
        reveal_strlit("2");
        reveal_strlit("3");
        reveal_strlit("4");
        reveal_strlit("5");
        reveal_strlit("6");
        reveal_strlit("7");
        reveal_strlit("8");
        reveal_strlit("9");
    }
    match d {
        0 => "0",
        1 => "1",
        2 => "2",
        3 => "3",
        4 => "4",
        5 => "5",
        6 => "6",
        7 => "7",
        8 => "8",
        _ => "9",
    }
}

/// `n` written in decimal.
pub fn usize_to_decimal(n: usize) -> (r: String)
    ensures
        r@ == decimal(n as nat),
    decreases n,
{
    if n < 10 {
        String::from_str(digit_text(n))
    } else {
        let mut text = usize_to_decimal(n / 10);
        text.append(digit_text(n % 10));
        text
    }
}

/// Every character of `s` is white space (so trimming `s` leaves nothing).
pub open spec fn blank(s: Seq<char>) -> bool {
    forall|i: int| 0 <= i < s.len() ==> white_space(#[trigger] s[i])
}

/// A word starts at position `i`: a non-white-space character at the start
/// of `s` or right after white space.
pub open spec fn starts_word(s: Seq<char>, i: int) -> bool {
    !white_space(s[i]) && (i == 0 || white_space(s[i - 1]))
}

/// The number of maximal runs of non-white-space characters in `s`, which is
/// what splitting `s` at white space yields.
pub open spec fn word_count(s: Seq<char>) -> nat
    decreases s.len(),
{
    if s.len() == 0 {
        0
    } else {
        word_count(s.drop_last()) + if starts_word(s, s.len() - 1) {
            1nat
        } else {
            0nat
        }
    }
}

/// The empty text is blank, and a text stays blank exactly as long as
/// every character added is white space.
pub proof fn lemma_blank_push(s: Seq<char>, c: char)
    ensures
        blank(Seq::<char>::empty()),
        blank(s.push(c)) <==> blank(s) && white_space(c),
{
    if blank(s.push(c)) {
        assert(white_space(s.push(c)[s.len() as int]));
        assert forall|i: int| 0 <= i < s.len() implies white_space(#[trigger] s[i]) by {
            assert(s.push(c)[i] == s[i]);
        }
    }
}

/// Appending white space never starts a word; appending another character
/// starts one exactly when the text is empty or ends in white space.
pub proof fn lemma_word_count_push(s: Seq<char>, c: char)
    ensures
        white_space(c) ==> word_count(s.push(c)) == word_count(s),
        !white_space(c) && (s.len() == 0 || white_space(s.last())) ==> word_count(s.push(c))
            == word_count(s) + 1,
        !white_space(c) && s.len() > 0 && !white_space(s.last()) ==> word_count(s.push(c))
            == word_count(s),
{
    assert(s.push(c).drop_last() =~= s);
}

/// A text of white space only has no words, and no text has more words
/// than characters.
pub proof fn lemma_word_count_bounds(s: Seq<char>)
    ensures
        blank(s) ==> word_count(s) == 0,
        word_count(s) <= s.len(),
    decreases s.len(),
{
    if s.len() > 0 {
        lemma_word_count_bounds(s.drop_last());
        if blank(s) {
            assert forall|i: int| 0 <= i < s.drop_last().len() implies white_space(
                #[trigger] s.drop_last()[i],
            ) by {
                assert(s.drop_last()[i] == s[i]);
            }
            assert(white_space(s[s.len() - 1]));
        }
    }
}

/// Whether `s` holds only white space (the empty string included).
pub fn is_blank(s: &str) -> (r: bool)
    ensures
        r == blank(s@),
{
    broadcast use vstd::string::group_string_axioms;

    let mut all: bool = true;
    let ghost chars = s@;
    for c in it: s.chars()
        invariant
            it.seq() == chars,
            all == blank(chars.take(it.index() as int)),
    {
        let ghost k = it.index() as int;
        assert(chars.take(k + 1).drop_last() =~= chars.take(k));
        if !char_is_whitespace(c) {
            all = false;
        }
        assert(all == blank(chars.take(k + 1))) by {
            if blank(chars.take(k + 1)) {
                assert(white_space(chars.take(k + 1)[k]));
            }
        }
    }
    assert(chars.take(chars.len() as int) =~= chars);
    all
}

/// The number of words in `s`, words being separated by white space.
pub fn count_words(s: &str) -> (r: usize)
    ensures
        r == word_count(s@),
{
    broadcast use vstd::string::group_string_axioms;

    let total: usize = s.unicode_len();
    let mut count: usize = 0;
    let mut after_space: bool = true;
    let ghost chars = s@;
    for c in it: s.chars()
        invariant
            it.seq() == chars,
            count == word_count(chars.take(it.index() as int)),
            count <= it.index(),
            total == chars.len(),
            after_space == (it.index() == 0 || white_space(chars[it.index() - 1])),
    {
        let ghost k = it.index() as int;
        assert(chars.take(k + 1).drop_last() =~= chars.take(k));
        let space = char_is_whitespace(c);
        if !space && after_space {
            count = count + 1;
        }
        after_space = space;
    }
    assert(chars.take(chars.len() as int) =~= chars);
    count
}

/// Whether `a` and `b` hold the same characters.
pub fn str_eq(a: &str, b: &str) -> (r: bool)
    ensures
        r == (a@ == b@),
{
    String::from_str(a) == String::from_str(b)
}

/// `a` comes before `b` in the order of strings: compared character by
/// character (by code point), a proper prefix coming first. This is the
/// order of their UTF-8 bytes, by which strings are sorted.
pub open spec fn text_less(a: Seq<char>, b: Seq<char>) -> bool
    decreases a.len(),
{
    if a.len() == 0 {
        b.len() > 0
    } else if b.len() == 0 {
        false
    } else if a[0] != b[0] {
        (a[0] as int) < (b[0] as int)
    } else {
        text_less(a.drop_first(), b.drop_first())
    }
}

/// The order of strings compares the first characters by code point and
/// goes on to the rest when they are equal; the empty string comes first.
pub proof fn lemma_text_less_meaning(a: Seq<char>, b: Seq<char>, c: char, d: char)
    ensures
        text_less(Seq::empty(), b) <==> b.len() > 0,
        !text_less(a, Seq::empty()),
        c != d ==> (text_less(seq![c] + a, seq![d] + b) <==> (c as int) < (d as int)),
        text_less(seq![c] + a, seq![c] + b) <==> text_less(a, b),
{
    assert((seq![c] + a)[0] == c);
    assert((seq![d] + b)[0] == d);
    assert((seq![c] + b)[0] == c);
    assert((seq![c] + a).drop_first() =~= a);
    assert((seq![c] + b).drop_first() =~= b);
    assert((seq![d] + b).drop_first() =~= b);
}

/// No string comes before itself.
pub proof fn lemma_text_less_irreflexive(a: Seq<char>)
    ensures
        !text_less(a, a),
    decreases a.len(),
{
    if a.len() > 0 {
        lemma_text_less_irreflexive(a.drop_first());
    }
}

/// The order of strings is transitive.
pub proof fn lemma_text_less_transitive(a: Seq<char>, b: Seq<char>, c: Seq<char>)
    requires
        text_less(a, b),
        text_less(b, c),
    ensures
        text_less(a, c),
    decreases a.len(),
{
    if a.len() > 0 && b.len() > 0 && c.len() > 0 {
        if a[0] == b[0] && b[0] == c[0] {
            lemma_text_less_transitive(a.drop_first(), b.drop_first(), c.drop_first());
        }
    }
}

/// Of two different strings, one comes before the other.
pub proof fn lemma_text_less_total(a: Seq<char>, b: Seq<char>)
    requires
        a != b,
    ensures
        text_less(a, b) || text_less(b, a),
    decreases a.len(),
{
    if a.len() > 0 && b.len() > 0 {
        if a[0] == b[0] {
            if a.drop_first() == b.drop_first() {
                assert(a =~= seq![a[0]] + a.drop_first());
                assert(b =~= seq![b[0]] + b.drop_first());
            }
            lemma_text_less_total(a.drop_first(), b.drop_first());
        } else {
            assert((a[0] as int) != (b[0] as int));
        }
    } else if a.len() == 0 && b.len() == 0 {
        assert(a =~= b);
    }
}

proof fn lemma_text_less_common_prefix(a: Seq<char>, b: Seq<char>, i: int)
    requires
        0 <= i <= a.len(),
        i <= b.len(),
        forall|j: int| 0 <= j < i ==> a[j] == b[j],
    ensures
        text_less(a, b) == text_less(a.skip(i), b.skip(i)),
    decreases i,
{
    if i > 0 {
        assert forall|j: int| 0 <= j < i - 1 implies a.drop_first()[j] == b.drop_first()[j] by {
            assert(a[j + 1] == b[j + 1]);
        }
        lemma_text_less_common_prefix(a.drop_first(), b.drop_first(), i - 1);
        assert(a.drop_first().skip(i - 1) =~= a.skip(i));
        assert(b.drop_first().skip(i - 1) =~= b.skip(i));
    } else {
        assert(a.skip(0) =~= a);
        assert(b.skip(0) =~= b);
    }
}

/// Whether `a` comes before `b` in the order of strings.
pub fn str_less(a: &str, b: &str) -> (r: bool)
    ensures
        r == text_less(a@, b@),
{
    let la: usize = a.unicode_len();
    let lb: usize = b.unicode_len();
    let mut i: usize = 0;
    while i < la && i < lb
        invariant
            la == a@.len(),
            lb == b@.len(),
            i <= la,
            i <= lb,
            forall|j: int| 0 <= j < i ==> a@[j] == b@[j],
        decreases la - i,
    {
        let ca = a.get_char(i);
        let cb = b.get_char(i);
        if ca != cb {
            proof {
                lemma_text_less_common_prefix(a@, b@, i as int);
                assert(a@.skip(i as int)[0] == ca);
                assert(b@.skip(i as int)[0] == cb);
            }
            return (ca as u32) < (cb as u32);
        }
        i = i + 1;
    }
    proof {
        lemma_text_less_common_prefix(a@, b@, i as int);
    }
    la < lb
}

} // verus!
