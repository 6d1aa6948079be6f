//! The words that the requester gets to read: the fixed notices, the caption
//! of a delivered image and the text of a failure.

use vstd::prelude::*;
use crate::error::{description, ErrorModel, GenerationError};
use crate::text::{decimal, decimal_text, digit, digit_text};

verus! {

/// Sent in answer to a command without a prompt.
pub const USAGE_HINT: &'static str = "Please provide a prompt";

/// Shown while the backend works.
pub const PLACEHOLDER_TEXT: &'static str = "Generating image...";

/// Stands between the prompt and the elapsed time in a caption.
pub const CAPTION_SEPARATOR: &'static str = " | Generated image in ";

/// Stands before the description of an error.
pub const FAILURE_PREFIX: &'static str = "Failed to generate image: ";

/// A duration of `millis` milliseconds in hundredths of a second, rounded to
/// the nearest; a half is rounded up.
pub open spec fn centiseconds(millis: nat) -> nat {
    (millis + 5) / 10
}

/// A duration in seconds with exactly two decimal places and the unit:
/// the whole seconds in decimal, a point, two digits, and `s`.
pub open spec fn elapsed(millis: nat) -> Seq<char> {
    let hundredths = centiseconds(millis);
    decimal(hundredths / 100) + seq![
        '.',
        digit(((hundredths % 100) / 10) as int),
        digit((hundredths % 10) as int),
        's',
    ]
}

/// The caption of a delivered image: the prompt and the time it took.
pub open spec fn caption(prompt: Seq<char>, millis: nat) -> Seq<char> {
    prompt + CAPTION_SEPARATOR@ + elapsed(millis)
}

/// The text that replaces the placeholder after a failure.
pub open spec fn failure_text(error: ErrorModel) -> Seq<char> {
    FAILURE_PREFIX@ + description(error)
}

/// Whether `c` is one of the ten digits.
pub open spec fn is_digit(c: char) -> bool {
    exists|d: int| 0 <= d < 10 && c == #[trigger] digit(d)
}

/// A number in decimal is one digit or more, and digits only.
pub proof fn lemma_decimal_is_digits(n: nat)
    ensures
        decimal(n).len() >= 1,
        forall|i: int| 0 <= i < decimal(n).len() ==> is_digit(#[trigger] decimal(n)[i]),
    decreases n,
{
    if n < 10 {
        assert(is_digit(digit(n as int)));
    } else {
        lemma_decimal_is_digits(n / 10);
        assert(is_digit(digit((n % 10) as int)));
    }
}

/// An elapsed time always reads: digits, a point, exactly two digits, `s`.
pub proof fn lemma_elapsed_shape(millis: nat)
    ensures
        ({
            let text = elapsed(millis);
            let n = text.len() as int;
            &&& n >= 5
            &&& text[n - 1] == 's'
            &&& is_digit(text[n - 2])
            &&& is_digit(text[n - 3])
            &&& text[n - 4] == '.'
            &&& forall|i: int| 0 <= i < n - 4 ==> is_digit(#[trigger] text[i])
            &&& text.subrange(0, n - 4) == decimal(centiseconds(millis) / 100)
        }),
{
    let hundredths = centiseconds(millis);
    let whole = decimal(hundredths / 100);
    lemma_decimal_is_digits(hundredths / 100);
    let text = elapsed(millis);
    let n = text.len() as int;
    assert(is_digit(digit(((hundredths % 100) / 10) as int)));
    assert(is_digit(digit((hundredths % 10) as int)));
    assert forall|i: int| 0 <= i < n - 4 implies is_digit(#[trigger] text[i]) by {
        assert(text[i] == whole[i]);
    }
    assert(text.subrange(0, n - 4) =~= whole);
}

/// A duration in seconds with exactly two decimal places and the unit.
pub fn elapsed_text(millis: u64) -> (text: String)
    ensures
        text@ == elapsed(millis as nat),
{
    let up: u64 = if millis % 10 >= 5 {
        1
    } else {
        0
    };
    let hundredths: u64 = millis / 10 + up;
    assert(hundredths == centiseconds(millis as nat));
    let mut text = decimal_text(hundredths / 100);
    proof {
        reveal_strlit(".");
        reveal_strlit("s");
    }
    text.append(".");
    text.append(digit_text((hundredths % 100) / 10));
    text.append(digit_text(hundredths % 10));
    text.append("s");
    assert(text@ =~= elapsed(millis as nat));
    text
}

/// The caption of a delivered image: the prompt and the time it took.
pub fn caption_text(prompt: &str, millis: u64) -> (text: String)
    ensures
        text@ == caption(prompt@, millis as nat),
{
    let mut text = String::from_str(prompt);
    text.append(CAPTION_SEPARATOR);
    let time = elapsed_text(millis);
    text.append(time.as_str());
    text
}

/// The text that replaces the placeholder after a failure.
pub fn failure_notice(error: &GenerationError) -> (text: String)
    ensures
        text@ == failure_text(error@),
{
    let mut text = String::from_str(FAILURE_PREFIX);
    let words = error.describe();
    text.append(words.as_str());
    text
}

} // verus!
