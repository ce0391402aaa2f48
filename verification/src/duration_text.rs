//! What the minutes-and-seconds text of a short duration reads back as.

use vstd::prelude::*;

use crate::text::{decimal, decimal_two, digit_char};
use crate::utils::minutes_seconds;

verus! {

/// The value of a decimal digit character.
pub open spec fn digit_value(c: char) -> int {
    c as int - 48
}

/// Below 100, the two-character rendering is the tens digit then the units
/// digit.
proof fn lemma_decimal_two_digits(n: nat)
    requires
        n < 100,
    ensures
        decimal_two(n) == seq![digit_char(n / 10), digit_char(n % 10)],
        digit_value(digit_char(n / 10)) == n / 10,
        digit_value(digit_char(n % 10)) == n % 10,
{
    if n < 10 {
        assert(digit_char(0) == '0');
        assert(decimal_two(n) =~= seq![digit_char(n / 10), digit_char(n % 10)]);
    } else {
        assert(decimal(n / 10) == seq![digit_char(n / 10)]);
        assert(decimal_two(n) =~= seq![digit_char(n / 10), digit_char(n % 10)]);
    }
}

/// A duration under 100 minutes is shown in five characters: two-digit
/// minutes, a colon and two-digit seconds, which read back give its whole
/// seconds.
pub proof fn short_duration_text_reads_back(total: nat)
    requires
        total < 6000,
    ensures
        minutes_seconds(total).len() == 5,
        minutes_seconds(total)[2] == ':',
        (digit_value(minutes_seconds(total)[0]) * 10 + digit_value(minutes_seconds(total)[1])) * 60
            + digit_value(minutes_seconds(total)[3]) * 10 + digit_value(minutes_seconds(total)[4])
            == total,
{
    lemma_decimal_two_digits(total / 60);
    lemma_decimal_two_digits(total % 60);
    let s = minutes_seconds(total);
    assert(s =~= seq![
        digit_char(total / 60 / 10),
        digit_char(total / 60 % 10),
        ':',
        digit_char(total % 60 / 10),
        digit_char(total % 60 % 10),
    ]);
}

} // verus!
