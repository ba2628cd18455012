//! Duration texts of the form `<integer>(ms|s|m|h|d|w|y)`.

use vstd::prelude::*;
use crate::text::{chars_of, char_is_ascii_digit, decimal, digit_char, is_ascii_digit};

verus! {

/// A length of time in whole milliseconds.
#[derive(Clone, Copy, Debug, PartialEq, Eq, Structural)]
pub struct Span {
    pub millis: u128,
}

/// Why a text is no duration.
#[derive(Clone, Copy, Debug, PartialEq, Eq, Structural)]
pub enum SpanError {
    /// The text is not an integer followed by one of the units.
    Format,
    /// The text has the right form but the duration does not fit.
    TooLarge,
}

/// The error of `duration_string`: a text of the wrong form, a number
/// that cannot be read, or a duration that overflows. Nothing is read
/// from it here.
#[verifier::external_type_specification]
#[verifier::external_body]
pub struct ExDurationStringError(duration_string::Error);

/// The first index from `i` on that holds no digit.
pub open spec fn digit_end(s: Seq<char>, i: int) -> int
    decreases s.len() - i,
{
    if 0 <= i < s.len() && is_ascii_digit(s[i]) {
        digit_end(s, i + 1)
    } else {
        i
    }
}

/// The number that a run of decimal digits writes.
pub open spec fn digits_value(d: Seq<char>) -> nat
    decreases d.len(),
{
    if d.len() == 0 {
        0
    } else {
        digits_value(d.drop_last()) * 10 + ((d.last() as u32 - '0' as u32) as nat)
    }
}

/// Milliseconds in one unit, for the units `ms s m h d w y`.
pub open spec fn unit_millis(u: Seq<char>) -> Option<nat> {
    if u.len() == 2 && u[0] == 'm' && u[1] == 's' {
        Some(1)
    } else if u.len() == 1 && u[0] == 's' {
        Some(1_000)
    } else if u.len() == 1 && u[0] == 'm' {
        Some(60_000)
    } else if u.len() == 1 && u[0] == 'h' {
        Some(3_600_000)
    } else if u.len() == 1 && u[0] == 'd' {
        Some(86_400_000)
    } else if u.len() == 1 && u[0] == 'w' {
        Some(604_800_000)
    } else if u.len() == 1 && u[0] == 'y' {
        Some(31_556_926_000)
    } else {
        None
    }
}

/// The leading digits of a text.
pub open spec fn number_part(s: Seq<char>) -> Seq<char> {
    s.subrange(0, digit_end(s, 0))
}

/// What follows the leading digits of a text.
pub open spec fn unit_part(s: Seq<char>) -> Seq<char> {
    s.subrange(digit_end(s, 0), s.len() as int)
}

/// The text is at least one digit followed by exactly one unit.
pub open spec fn is_duration_text(s: Seq<char>) -> bool {
    digit_end(s, 0) > 0 && unit_millis(unit_part(s)) is Some
}

/// The number fits 64 bits, and so does the duration in seconds where the
/// unit is a multiple of a second.
pub open spec fn span_fits(value: nat, unit: nat) -> bool {
    value <= u64::MAX && (unit >= 1_000 ==> value * (unit / 1_000) <= u64::MAX)
}

/// The milliseconds that a duration text stands for.
pub open spec fn text_millis(s: Seq<char>) -> Result<nat, SpanError> {
    if !is_duration_text(s) {
        Err(SpanError::Format)
    } else {
        let value = digits_value(number_part(s));
        let unit = unit_millis(unit_part(s))->0;
        if span_fits(value, unit) {
            Ok(value * unit)
        } else {
            Err(SpanError::TooLarge)
        }
    }
}

/// The span that a duration text stands for.
pub open spec fn text_span(s: Seq<char>) -> Result<Span, SpanError> {
    match text_millis(s) {
        Ok(ms) => Ok(Span { millis: ms as u128 }),
        Err(e) => Err(e),
    }
}

/// `DurationString::from_string`, as whole milliseconds. Of a text made of
/// ASCII digits and one of the units `ms s m h d w y` it gives the number
/// times the unit; it fails where the number exceeds 64 bits or, for the
/// units above the second, where the seconds do.
#[verifier::external_body]
fn duration_string_millis(text: &str) -> (r: Result<u128, duration_string::Error>)
    ensures
        is_duration_text(text@) ==> match r {
            Ok(ms) => text_millis(text@) == Ok::<nat, SpanError>(ms as nat),
            Err(_) => text_millis(text@) is Err,
        },
{
    match duration_string::DurationString::from_string(text.to_string()) {
        Ok(d) => Ok(std::time::Duration::from(d).as_millis()),
        Err(e) => Err(e),
    }
}

/// Whether `v` is one digit or more followed by exactly one unit.
pub fn has_duration_form(v: &Vec<char>) -> (r: bool)
    ensures
        r == is_duration_text(v@),
{
    let n: usize = v.len();
    let mut k: usize = 0;
    while k < n && char_is_ascii_digit(v[k])
        invariant
            n == v@.len(),
            k <= n,
            digit_end(v@, 0) == digit_end(v@, k as int),
        decreases n - k,
    {
        k = k + 1;
    }
    assert(digit_end(v@, 0) == k);
    if k == 0 {
        return false;
    }
    let ghost u = unit_part(v@);
    assert(u.len() == n - k);
    assert(forall|j: int| 0 <= j < u.len() ==> u[j] == v@[k + j]);
    if n - k == 2 {
        v[k] == 'm' && v[k + 1] == 's'
    } else if n - k == 1 {
        let c = v[k];
        c == 's' || c == 'm' || c == 'h' || c == 'd' || c == 'w' || c == 'y'
    } else {
        false
    }
}

/// Reads a duration text: `Ok` with its milliseconds where the text is an
/// integer followed by one of `ms s m h d w y` and the duration fits,
/// `Format` where the text has another form, `TooLarge` where it does not
/// fit.
pub fn parse_span(text: &str) -> (r: Result<Span, SpanError>)
    ensures
        match r {
            Ok(span) => text_millis(text@) == Ok::<nat, SpanError>(span.millis as nat),
            Err(e) => text_millis(text@) == Err::<nat, SpanError>(e),
        },
        r == text_span(text@),
{
    let v = chars_of(text);
    if !has_duration_form(&v) {
        return Err(SpanError::Format);
    }
    match duration_string_millis(text) {
        Ok(ms) => Ok(Span { millis: ms }),
        Err(_) => Err(SpanError::TooLarge),
    }
}

/// The span of a text that is known to be a duration.
pub fn span_of(text: &str) -> (r: Span)
    requires
        text_millis(text@) is Ok,
    ensures
        text_millis(text@) == Ok::<nat, SpanError>(r.millis as nat),
{
    match parse_span(text) {
        Ok(span) => span,
        Err(_) => Span { millis: 0 },
    }
}

/// One digit and a one-letter unit stand for the digit times the unit.
pub proof fn lemma_short_text(s: Seq<char>)
    requires
        s.len() == 2,
        is_ascii_digit(s[0]),
        unit_millis(seq![s[1]]) is Some,
    ensures
        text_millis(s) == Ok::<nat, SpanError>(
            ((s[0] as u32 - '0' as u32) as nat) * unit_millis(seq![s[1]])->0,
        ),
{
    reveal_with_fuel(digit_end, 3);
    reveal_with_fuel(digits_value, 2);
    assert(digit_end(s, 0) == 1);
    assert(unit_part(s) =~= seq![s[1]]);
    assert(number_part(s) =~= seq![s[0]]);
    assert(number_part(s).drop_last() =~= Seq::<char>::empty());
    let value = digits_value(number_part(s));
    assert(value == (s[0] as u32 - '0' as u32) as nat);
    assert(value <= 9);
    let unit = unit_millis(unit_part(s))->0;
    assert(unit <= 31_556_926_000);
    assert(span_fits(value, unit)) by (nonlinear_arith)
        requires
            value <= 9,
            unit <= 31_556_926_000,
    ;
}

/// The text of a duration: the number of the largest unit that divides
/// it, and that unit. No time at all is written `0y`.
pub open spec fn canonical_text(ms: nat) -> Seq<char> {
    if ms % 31_556_926_000 == 0 {
        decimal(ms / 31_556_926_000) + "y"@
    } else if ms % 604_800_000 == 0 {
        decimal(ms / 604_800_000) + "w"@
    } else if ms % 86_400_000 == 0 {
        decimal(ms / 86_400_000) + "d"@
    } else if ms % 3_600_000 == 0 {
        decimal(ms / 3_600_000) + "h"@
    } else if ms % 60_000 == 0 {
        decimal(ms / 60_000) + "m"@
    } else if ms % 1_000 == 0 {
        decimal(ms / 1_000) + "s"@
    } else {
        decimal(ms) + "ms"@
    }
}

/// The conversion of a `DurationString` to a `String`, for a duration of
/// whole milliseconds: the number of the largest unit that divides the
/// duration, in decimal, followed by that unit.
#[verifier::external_body]
fn duration_string_text(millis: u64) -> (r: String)
    ensures
        r@ == canonical_text(millis as nat),
{
    String::from(duration_string::DurationString::new(std::time::Duration::from_millis(millis)))
}

/// A number in decimal is at least one digit, digits only, and writes
/// that number.
pub proof fn lemma_decimal_digits(n: nat)
    ensures
        decimal(n).len() >= 1,
        forall|i: int| 0 <= i < decimal(n).len() ==> is_ascii_digit(#[trigger] decimal(n)[i]),
        digits_value(decimal(n)) == n,
    decreases n,
{
    if n < 10 {
        assert(decimal(n).drop_last() =~= Seq::<char>::empty());
        assert(digits_value(decimal(n)) == n) by {
            reveal_with_fuel(digits_value, 2);
        }
    } else {
        lemma_decimal_digits(n / 10);
        let d = digit_char(n % 10);
        assert(decimal(n).drop_last() =~= decimal(n / 10));
        assert(decimal(n).last() == d);
        assert((d as u32 - '0' as u32) as nat == n % 10);
    }
}

proof fn lemma_digit_end_of_number(s: Seq<char>, k: int, i: int)
    requires
        0 <= i <= k < s.len(),
        forall|j: int| 0 <= j < k ==> is_ascii_digit(#[trigger] s[j]),
        !is_ascii_digit(s[k]),
    ensures
        digit_end(s, i) == k,
    decreases k - i,
{
    if i < k {
        lemma_digit_end_of_number(s, k, i + 1);
    }
}

/// A number in decimal followed by a unit stands for the number times
/// the unit, as long as it fits.
pub proof fn lemma_number_and_unit(n: nat, unit: Seq<char>)
    requires
        unit_millis(unit) is Some,
        span_fits(n, unit_millis(unit)->0),
    ensures
        text_millis(decimal(n) + unit) == Ok::<nat, SpanError>(n * unit_millis(unit)->0),
{
    let s = decimal(n) + unit;
    let k = decimal(n).len() as int;
    lemma_decimal_digits(n);
    assert(s[k] == unit[0]);
    assert forall|j: int| 0 <= j < k implies is_ascii_digit(#[trigger] s[j]) by {
        assert(s[j] == decimal(n)[j]);
    }
    lemma_digit_end_of_number(s, k, 0);
    assert(number_part(s) =~= decimal(n));
    assert(unit_part(s) =~= unit);
}

/// Reading the text of a duration gives the duration back.
pub proof fn lemma_text_round_trip(ms: nat)
    requires
        ms <= u64::MAX,
    ensures
        text_millis(canonical_text(ms)) == Ok::<nat, SpanError>(ms),
{
    reveal_strlit("y");
    reveal_strlit("w");
    reveal_strlit("d");
    reveal_strlit("h");
    reveal_strlit("m");
    reveal_strlit("s");
    reveal_strlit("ms");
    let unit: Seq<char> = if ms % 31_556_926_000 == 0 {
        "y"@
    } else if ms % 604_800_000 == 0 {
        "w"@
    } else if ms % 86_400_000 == 0 {
        "d"@
    } else if ms % 3_600_000 == 0 {
        "h"@
    } else if ms % 60_000 == 0 {
        "m"@
    } else if ms % 1_000 == 0 {
        "s"@
    } else {
        "ms"@
    };
    let u = unit_millis(unit)->0;
    assert(unit_millis(unit) is Some);
    assert(ms % u == 0);
    let n = ms / u;
    assert(canonical_text(ms) == decimal(n) + unit);
    assert(n * u == ms && n <= ms && n * (u / 1_000) <= ms) by (nonlinear_arith)
        requires
            ms % u == 0,
            n == ms / u,
            u >= 1,
    ;
    lemma_number_and_unit(n, unit);
}

impl Span {
    /// The text of this span, which `parse_span` reads back as the same
    /// span. A span of more milliseconds than 64 bits hold has none.
    pub fn to_text(&self) -> (r: Option<String>)
        ensures
            match r {
                Some(t) => self.millis <= u64::MAX && t@ == canonical_text(self.millis as nat)
                    && text_span(t@) == Ok::<Span, SpanError>(*self),
                None => self.millis > u64::MAX,
            },
    {
        if self.millis > u64::MAX as u128 {
            None
        } else {
            proof {
                lemma_text_round_trip(self.millis as nat);
            }
            Some(duration_string_text(self.millis as u64))
        }
    }
}

} // verus!
