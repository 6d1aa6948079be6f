//! Text handling shared by the job logic: trimming a prompt and writing
//! numbers in decimal.

use vstd::prelude::*;

verus! {

/// The characters that count as white space when a prompt is trimmed: the
/// code points that Unicode marks as `White_Space`.
pub open spec fn is_white_space(c: char) -> bool {
    let code = c as u32;
    ||| 0x09 <= code <= 0x0D
    ||| code == 0x20
    ||| code == 0x85
    ||| code == 0xA0
    ||| code == 0x1680
    ||| 0x2000 <= code <= 0x200A
    ||| code == 0x2028
    ||| code == 0x2029
    ||| code == 0x202F
    ||| code == 0x205F
    ||| code == 0x3000
}

/// The number of white-space characters at the start of `text`.
pub open spec fn leading_white_space(text: Seq<char>) -> nat
    decreases text.len(),
{
    if text.len() > 0 && is_white_space(text[0]) {
        1 + leading_white_space(text.drop_first())
    } else {
        0
    }
}

/// The number of white-space characters at the end of `text`.
pub open spec fn trailing_white_space(text: Seq<char>) -> nat
    decreases text.len(),
{
    if text.len() > 0 && is_white_space(text.last()) {
        1 + trailing_white_space(text.drop_last())
    } else {
        0
    }
}

/// `text` without the white space at its start and at its end.
pub open spec fn trimmed(text: Seq<char>) -> Seq<char> {
    let start = leading_white_space(text);
    if start >= text.len() {
        Seq::empty()
    } else {
        text.subrange(start as int, text.len() - trailing_white_space(text))
    }
}

/// A text that neither starts nor ends with white space.
pub open spec fn is_trimmed(text: Seq<char>) -> bool {
    text.len() > 0 ==> !is_white_space(text[0]) && !is_white_space(text.last())
}

/// A text made of white space only (the empty text is one).
pub open spec fn is_blank(text: Seq<char>) -> bool {
    forall|i: int| 0 <= i < text.len() ==> is_white_space(#[trigger] text[i])
}

/// The leading white space is a prefix of white-space characters that ends
/// at the first other character.
pub proof fn lemma_leading_white_space(text: Seq<char>)
    ensures
        leading_white_space(text) <= text.len(),
        forall|i: int| 0 <= i < leading_white_space(text) ==> is_white_space(#[trigger] text[i]),
        leading_white_space(text) < text.len() ==> !is_white_space(
            text[leading_white_space(text) as int],
        ),
    decreases text.len(),
{
    if text.len() > 0 && is_white_space(text[0]) {
        let rest = text.drop_first();
        lemma_leading_white_space(rest);
        assert forall|i: int| 0 <= i < leading_white_space(text) implies is_white_space(
            #[trigger] text[i],
        ) by {
            if i > 0 {
                assert(text[i] == rest[i - 1]);
            }
        }
        if leading_white_space(text) < text.len() {
            assert(text[leading_white_space(text) as int] == rest[leading_white_space(
                rest,
            ) as int]);
        }
    }
}

/// The trailing white space is a suffix of white-space characters that
/// begins after the last other character.
pub proof fn lemma_trailing_white_space(text: Seq<char>)
    ensures
        trailing_white_space(text) <= text.len(),
        forall|i: int|
            text.len() - trailing_white_space(text) <= i < text.len() ==> is_white_space(
                #[trigger] text[i],
            ),
        trailing_white_space(text) < text.len() ==> !is_white_space(
            text[text.len() - trailing_white_space(text) - 1],
        ),
    decreases text.len(),
{
    if text.len() > 0 && is_white_space(text.last()) {
        let rest = text.drop_last();
        lemma_trailing_white_space(rest);
        assert forall|i: int|
            text.len() - trailing_white_space(text) <= i < text.len() implies is_white_space(
            #[trigger] text[i],
        ) by {
            if i < text.len() - 1 {
                assert(text[i] == rest[i]);
            }
        }
        if trailing_white_space(text) < text.len() {
            assert(text[text.len() - trailing_white_space(text) - 1] == rest[rest.len()
                - trailing_white_space(rest) - 1]);
        }
    }
}

/// Trimming leaves a trimmed text, and leaves nothing exactly when the text
/// is blank.
pub proof fn lemma_trimmed(text: Seq<char>)
    ensures
        is_trimmed(trimmed(text)),
        trimmed(text).len() == 0 <==> is_blank(text),
{
    lemma_leading_white_space(text);
    lemma_trailing_white_space(text);
    let start = leading_white_space(text);
    let tail = trailing_white_space(text);
    if start < text.len() {
        assert(!is_white_space(text[start as int]));
        assert(start < text.len() - tail) by {
            if start >= text.len() - tail {
                assert(is_white_space(text[start as int]));
            }
        }
        let kept = trimmed(text);
        assert(kept[0] == text[start as int]);
        assert(kept.last() == text[text.len() - tail - 1]);
        assert(!is_blank(text));
    } else {
        assert(is_blank(text));
    }
}

/// Trimming a trimmed text changes nothing.
pub proof fn lemma_trimmed_is_fixed(text: Seq<char>)
    requires
        is_trimmed(text),
    ensures
        trimmed(text) == text,
{
    if text.len() > 0 {
        assert(leading_white_space(text) == 0);
        assert(trailing_white_space(text) == 0);
        assert(trimmed(text) =~= text);
    } else {
        assert(trimmed(text) =~= text);
    }
}

/// Whether `c` is white space.
pub fn white_space(c: char) -> (yes: bool)
    ensures
        yes == is_white_space(c),
{
    let code: u32 = c as u32;
    (0x09 <= code && code <= 0x0D) || code == 0x20 || code == 0x85 || code == 0xA0 || code
        == 0x1680 || (0x2000 <= code && code <= 0x200A) || code == 0x2028 || code == 0x2029
        || code == 0x202F || code == 0x205F || code == 0x3000
}

/// `text` without the white space at its start and at its end.
pub fn trim(text: &str) -> (kept: String)
    ensures
        kept@ == trimmed(text@),
{
    let n = text.unicode_len();
    let mut start: usize = 0;
    let mut scanning = true;
    assert(text@.skip(0) =~= text@);
    while scanning && start < n
        invariant
            n == text@.len(),
            start <= n,
            leading_white_space(text@) == start + leading_white_space(text@.skip(start as int)),
            !scanning ==> start < n && !is_white_space(text@[start as int]),
        decreases n - start + if scanning { 1int } else { 0int },
    {
        assert(text@.skip(start as int)[0] == text@[start as int]);
        assert(text@.skip(start as int).drop_first() =~= text@.skip(start as int + 1));
        if white_space(text.get_char(start)) {
            start = start + 1;
        } else {
            scanning = false;
        }
    }
    if start >= n {
        assert(text@.skip(start as int).len() == 0);
        return String::new();
    }
    assert(text@.skip(start as int)[0] == text@[start as int]);
    assert(leading_white_space(text@) == start);
    let mut end: usize = n;
    scanning = true;
    assert(text@.take(n as int) =~= text@);
    while scanning
        invariant
            n == text@.len(),
            start < end <= n,
            !is_white_space(text@[start as int]),
            trailing_white_space(text@) == (n - end) + trailing_white_space(
                text@.take(end as int),
            ),
            !scanning ==> !is_white_space(text@[end - 1]),
        decreases end - start + if scanning { 1int } else { 0int },
    {
        assert(text@.take(end as int).last() == text@[end - 1]);
        assert(text@.take(end as int).drop_last() =~= text@.take(end - 1));
        if white_space(text.get_char(end - 1)) {
            end = end - 1;
        } else {
            scanning = false;
        }
    }
    assert(text@.take(end as int).last() == text@[end - 1]);
    assert(trailing_white_space(text@) == n - end);
    String::from_str(text.substring_char(start, end))
}

/// The character that stands for the digit `d`.
pub open spec fn digit(d: int) -> char {
    if d == 0 {
        '0'
    } else if d == 1 {
        '1'
    } else if d == 2 {
        '2'
    } else if d == 3 {
        '3'
    } else if d == 4 {
        '4'
    } else if d == 5 {
        '5'
    } else if d == 6 {
        '6'
    } else if d == 7 {
        '7'
    } else if d == 8 {
        '8'
    } else {
        '9'
    }
}

/// `n` written in decimal, without leading zeros.
pub open spec fn decimal(n: nat) -> Seq<char>
    decreases n,
{
    if n < 10 {
        seq![digit(n as int)]
    } else {
        decimal(n / 10).push(digit((n % 10) as int))
    }
}

/// The one-character text of the digit `d`.
pub(crate) fn digit_text(d: u64) -> (text: &'static str)
    requires
        d < 10,
    ensures
        text@ == seq![digit(d as int)],
{
    proof {
        reveal_strlit("0");
        reveal_strlit("1");
        reveal_strlit("2");
        reveal_strlit("3");
        reveal_strlit("4");
        reveal_strlit("5");
        reveal_strlit("6");
        reveal_strlit("7");
        reveal_strlit("8");
        reveal_strlit("9");
    }
    let text = if d == 0 {
        "0"
    } else if d == 1 {
        "1"
    } else if d == 2 {
        "2"
    } else if d == 3 {
        "3"
    } else if d == 4 {
        "4"
    } else if d == 5 {
        "5"
    } else if d == 6 {
        "6"
    } else if d == 7 {
        "7"
    } else if d == 8 {
        "8"
    } else {
        "9"
    };
    assert(text@ =~= seq![digit(d as int)]);
    text
}

/// `n` written in decimal, without leading zeros.
pub fn decimal_text(n: u64) -> (text: String)
    ensures
        text@ == decimal(n as nat),
    decreases n,
{
    if n < 10 {
        String::from_str(digit_text(n))
    } else {
        let mut text = decimal_text(n / 10);
        text.append(digit_text(n % 10));
        assert(text@ =~= decimal(n as nat));
        text
    }
}

} // verus!
