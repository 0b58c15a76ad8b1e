//! Operating system versions and the texts in which they appear.

use vstd::prelude::*;

verus! {

/// The first major version of iOS that offers continued-processing tasks.
pub const FIRST_CONTINUED_PROCESSING_MAJOR_VERSION: isize = 26;

/// The version text used when the system does not tell its version.
pub const UNKNOWN_SYSTEM_VERSION: &'static str = "unknown";

/// A version as the operating system reports it.
#[derive(Debug, Clone, Copy, PartialEq, Eq, Structural)]
pub struct OperatingSystemVersion {
    pub major_version: isize,
    pub minor_version: isize,
    pub patch_version: isize,
}

/// The character of one decimal digit.
pub open spec fn digit(value: nat) -> char
    recommends
        value < 10,
{
    (48 + value) as char
}

/// The decimal digits of a natural number, without leading zeros.
pub open spec fn digits(value: nat) -> Seq<char>
    decreases value,
{
    if value < 10 {
        seq![digit(value)]
    } else {
        digits(value / 10).push(digit(value % 10))
    }
}

/// A number in decimal notation.
pub open spec fn decimal(value: int) -> Seq<char> {
    if value < 0 {
        seq!['-'] + digits((-value) as nat)
    } else {
        digits(value as nat)
    }
}

/// A version as three numbers with dots between them.
pub open spec fn dotted(version: OperatingSystemVersion) -> Seq<char> {
    decimal(version.major_version as int) + "."@ + decimal(version.minor_version as int) + "."@
        + decimal(version.patch_version as int)
}

/// The version text of a start report.
pub open spec fn system_version_text(version: Option<OperatingSystemVersion>) -> Seq<char> {
    match version {
        Some(version) => dotted(version),
        None => UNKNOWN_SYSTEM_VERSION@,
    }
}

/// Whether a version of iOS offers continued-processing tasks.
pub open spec fn offers_continued_processing(version: OperatingSystemVersion) -> bool {
    version.major_version >= FIRST_CONTINUED_PROCESSING_MAJOR_VERSION
}

/// Why a version of iOS that does not offer continued-processing tasks is passed over.
pub open spec fn unsupported_version_text(version: OperatingSystemVersion) -> Seq<char> {
    "iOS "@ + dotted(version) + " does not support BGContinuedProcessingTask"@
}

fn push_digits(text: &mut String, value: usize)
    ensures
        final(text)@ == old(text)@ + digits(value as nat),
    decreases value,
{
    if value >= 10 {
        push_digits(text, value / 10);
    }
    text.push((48 + (value % 10) as u8) as char);
    assert(text@ =~= old(text)@ + digits(value as nat));
}

fn push_decimal(text: &mut String, value: isize)
    ensures
        final(text)@ == old(text)@ + decimal(value as int),
{
    if value < 0 {
        text.push('-');
        push_digits(text, (-(value + 1)) as usize + 1);
        assert(text@ =~= old(text)@ + decimal(value as int));
    } else {
        push_digits(text, value as usize);
    }
}

fn push_dotted(text: &mut String, version: OperatingSystemVersion)
    ensures
        final(text)@ == old(text)@ + dotted(version),
{
    push_decimal(text, version.major_version);
    text.append(".");
    push_decimal(text, version.minor_version);
    text.append(".");
    push_decimal(text, version.patch_version);
    assert(text@ =~= old(text)@ + dotted(version));
}

/// The version text of a start report.
pub fn system_version_string(version: Option<OperatingSystemVersion>) -> (text: String)
    ensures
        text@ == system_version_text(version),
{
    match version {
        Some(version) => {
            let mut text: String = String::new();
            push_dotted(&mut text, version);
            assert(text@ =~= dotted(version));
            text
        },
        None => UNKNOWN_SYSTEM_VERSION.to_string(),
    }
}

/// The reason given when iOS is too old for continued-processing tasks.
pub fn unsupported_version_message(version: OperatingSystemVersion) -> (text: String)
    ensures
        text@ == unsupported_version_text(version),
{
    let mut text: String = "iOS ".to_string();
    push_dotted(&mut text, version);
    text.append(" does not support BGContinuedProcessingTask");
    text
}

/// The number that decimal digits stand for.
pub open spec fn value_of(digits: Seq<char>) -> int
    decreases digits.len(),
{
    if digits.len() == 0 {
        0
    } else {
        value_of(digits.drop_last()) * 10 + (digits.last() as int - '0' as int)
    }
}

proof fn lemma_digits(value: nat)
    ensures
        value_of(digits(value)) == value,
        digits(value).len() > 0,
        digits(value).len() > 1 ==> digits(value)[0] != '0',
        value > 0 ==> digits(value)[0] != '0',
        forall|i: int|
            0 <= i < digits(value).len() ==> '0' <= #[trigger] digits(value)[i] && digits(value)[i]
                <= '9',
    decreases value,
{
    let text = digits(value);
    if value < 10 {
        assert(text.drop_last() =~= Seq::<char>::empty());
        assert(value_of(text.drop_last()) == 0);
    } else {
        lemma_digits(value / 10);
        assert(text.drop_last() =~= digits(value / 10));
        assert(text[0] == digits(value / 10)[0]);
        assert forall|i: int| 0 <= i < text.len() implies '0' <= #[trigger] text[i] && text[i]
            <= '9' by {
            if i < text.len() - 1 {
                assert(text[i] == digits(value / 10)[i]);
            }
        }
    }
}

/// A number is told by the digits that stand for it, without leading zeros, behind a minus
/// sign exactly if it is negative.
pub proof fn law_number_is_told_exactly(value: int)
    ensures
        ({
            let text = decimal(value);
            let digits = if value < 0 {
                text.skip(1)
            } else {
                text
            };
            &&& value < 0 ==> text.len() > 0 && text[0] == '-'
            &&& digits.len() > 0
            &&& digits.len() > 1 ==> digits[0] != '0'
            &&& forall|i: int|
                0 <= i < digits.len() ==> '0' <= #[trigger] digits[i] && digits[i] <= '9'
            &&& value_of(digits) == if value < 0 {
                -value
            } else {
                value
            }
        }),
{
    if value < 0 {
        lemma_digits((-value) as nat);
        assert(decimal(value).skip(1) =~= digits((-value) as nat));
    } else {
        lemma_digits(value as nat);
    }
}

proof fn lemma_decimal_has_no_dot(value: int)
    ensures
        !decimal(value).contains('.'),
{
    let text = decimal(value);
    let size = (if value < 0 {
        -value
    } else {
        value
    }) as nat;
    lemma_digits(size);
    assert forall|i: int| 0 <= i < text.len() implies text[i] != '.' by {
        if value >= 0 {
            assert(text[i] == digits(size)[i]);
        } else if i > 0 {
            assert(text[i] == digits(size)[i - 1]);
        }
    }
}

proof fn lemma_decimal_tells_apart(one: int, other: int)
    requires
        decimal(one) == decimal(other),
    ensures
        one == other,
{
    law_number_is_told_exactly(one);
    law_number_is_told_exactly(other);
    if one < 0 && other >= 0 {
        lemma_digits(other as nat);
        assert('0' <= decimal(other)[0]);
    }
    if other < 0 && one >= 0 {
        lemma_digits(one as nat);
        assert('0' <= decimal(one)[0]);
    }
}

proof fn lemma_first_dot(head: Seq<char>, tail: Seq<char>, other_head: Seq<char>, other_tail: Seq<char>)
    requires
        !head.contains('.'),
        !other_head.contains('.'),
        head + "."@ + tail == other_head + "."@ + other_tail,
    ensures
        head == other_head,
        tail == other_tail,
{
    reveal_strlit(".");
    let text = head + "."@ + tail;
    assert(text[head.len() as int] == '.');
    assert(text[other_head.len() as int] == (other_head + "."@ + other_tail)[other_head.len() as int]);
    if head.len() < other_head.len() {
        assert(other_head[head.len() as int] == '.');
    } else if other_head.len() < head.len() {
        assert(head[other_head.len() as int] == '.');
    }
    assert(head =~= text.take(head.len() as int));
    assert(other_head =~= text.take(other_head.len() as int));
    assert(tail =~= text.skip(head.len() as int + 1));
    assert(other_tail =~= text.skip(other_head.len() as int + 1));
}

/// The version text of a report holds the three numbers of the version in order, with a dot
/// between each two, and tells any two versions apart. Without a version it is `unknown`.
pub proof fn law_version_is_told_exactly(
    one: OperatingSystemVersion,
    other: OperatingSystemVersion,
)
    ensures
        system_version_text(Some(one)) == decimal(one.major_version as int) + "."@ + (decimal(
            one.minor_version as int,
        ) + "."@ + decimal(one.patch_version as int)),
        system_version_text(Some(one)) == system_version_text(Some(other)) ==> one == other,
        system_version_text(None) == "unknown"@,
        unsupported_version_text(one) == "iOS "@ + system_version_text(Some(one))
            + " does not support BGContinuedProcessingTask"@,
{
    let one_tail = decimal(one.minor_version as int) + "."@ + decimal(one.patch_version as int);
    let other_tail = decimal(other.minor_version as int) + "."@ + decimal(
        other.patch_version as int,
    );
    assert(dotted(one) =~= decimal(one.major_version as int) + "."@ + one_tail);
    assert(dotted(other) =~= decimal(other.major_version as int) + "."@ + other_tail);
    lemma_decimal_has_no_dot(one.major_version as int);
    lemma_decimal_has_no_dot(other.major_version as int);
    lemma_decimal_has_no_dot(one.minor_version as int);
    lemma_decimal_has_no_dot(other.minor_version as int);
    if dotted(one) == dotted(other) {
        lemma_first_dot(
            decimal(one.major_version as int),
            one_tail,
            decimal(other.major_version as int),
            other_tail,
        );
        lemma_first_dot(
            decimal(one.minor_version as int),
            decimal(one.patch_version as int),
            decimal(other.minor_version as int),
            decimal(other.patch_version as int),
        );
        lemma_decimal_tells_apart(one.major_version as int, other.major_version as int);
        lemma_decimal_tells_apart(one.minor_version as int, other.minor_version as int);
        lemma_decimal_tells_apart(one.patch_version as int, other.patch_version as int);
    }
}

/// Continued processing is offered by every version from iOS 26 on and by no earlier one,
/// whatever the other numbers of the version.
pub proof fn law_continued_processing_is_offered_from_one_version_on(
    version: OperatingSystemVersion,
)
    ensures
        offers_continued_processing(version) <==> version.major_version >= 26,
{
}

} // verus!
