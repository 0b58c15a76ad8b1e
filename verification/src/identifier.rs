//! Names derived from run ids: the identifier under which a continued-processing
//! task is submitted, and the short form of a run id that is shown to the user.

use vstd::prelude::*;

verus! {

/// What every continued-processing identifier starts with.
pub const CONTINUED_PROCESSING_IDENTIFIER_PREFIX: &'static str =
    "com.tauritavern.client.agent.continued.";

/// The pattern under which the launch handler is registered.
pub const CONTINUED_PROCESSING_IDENTIFIER_PATTERN: &'static str =
    "com.tauritavern.client.agent.continued.*";

/// The suffix used when nothing of the run id is left.
pub const EMPTY_RUN_SUFFIX: &'static str = "run";

/// `String::push` of the standard library appends one character at the end and
/// leaves what was there before it as it was.
pub assume_specification[ String::push ](string: &mut String, character: char)
    ensures
        final(string)@ == old(string)@.push(character),
;

/// Whether a character is one of `a..z`, `A..Z`, `0..9`.
pub open spec fn is_ascii_alphanumeric(character: char) -> bool {
    ||| 'a' <= character <= 'z'
    ||| 'A' <= character <= 'Z'
    ||| '0' <= character <= '9'
}

/// Whether a character may stand behind the prefix of an identifier.
pub open spec fn is_identifier_character(character: char) -> bool {
    ||| 'a' <= character <= 'z'
    ||| '0' <= character <= '9'
    ||| character == '-'
}

/// The character that stands in an identifier for a character of the run id:
/// ASCII letters in lower case, digits as they are, a dash for all else.
pub open spec fn identifier_character(character: char) -> char {
    if 'A' <= character <= 'Z' {
        (character as u32 + 32) as char
    } else if is_ascii_alphanumeric(character) {
        character
    } else {
        '-'
    }
}

/// A text without its leading dashes.
pub open spec fn trim_leading_dashes(text: Seq<char>) -> Seq<char>
    decreases text.len(),
{
    if text.len() > 0 && text[0] == '-' {
        trim_leading_dashes(text.skip(1))
    } else {
        text
    }
}

/// A text without its trailing dashes.
pub open spec fn trim_trailing_dashes(text: Seq<char>) -> Seq<char>
    decreases text.len(),
{
    if text.len() > 0 && text.last() == '-' {
        trim_trailing_dashes(text.drop_last())
    } else {
        text
    }
}

/// What is left of a run id once it is put into identifier characters and
/// stripped of the dashes at both ends.
pub open spec fn run_suffix(run_id: Seq<char>) -> Seq<char> {
    trim_trailing_dashes(
        trim_leading_dashes(run_id.map_values(|c: char| identifier_character(c))),
    )
}

/// The identifier of a run's continued-processing task.
pub open spec fn identifier_for(run_id: Seq<char>) -> Seq<char> {
    CONTINUED_PROCESSING_IDENTIFIER_PREFIX@ + if run_suffix(run_id).len() == 0 {
        EMPTY_RUN_SUFFIX@
    } else {
        run_suffix(run_id)
    }
}

/// The part of a run id behind its last underscore, or all of it where it has
/// none: its longest ending without an underscore.
pub open spec fn short_form(run_id: Seq<char>) -> Seq<char>
    decreases run_id.len(),
{
    if run_id.len() == 0 || run_id.last() == '_' {
        Seq::empty()
    } else {
        short_form(run_id.drop_last()).push(run_id.last())
    }
}

/// Whether the registered pattern covers an identifier: the pattern's text up to
/// its star starts the identifier, and something follows.
pub open spec fn covered_by_pattern(identifier: Seq<char>) -> bool {
    let fixed = CONTINUED_PROCESSING_IDENTIFIER_PATTERN@.drop_last();
    &&& CONTINUED_PROCESSING_IDENTIFIER_PATTERN@.last() == '*'
    &&& fixed.len() < identifier.len()
    &&& identifier.take(fixed.len() as int) == fixed
}

fn to_identifier_character(character: char) -> (mapped: char)
    ensures
        mapped == identifier_character(character),
{
    if 'A' <= character && character <= 'Z' {
        ((character as u8) + 32) as char
    } else if ('a' <= character && character <= 'z') || ('0' <= character && character <= '9') {
        character
    } else {
        '-'
    }
}

proof fn lemma_trim_leading_skips(text: Seq<char>, start: int)
    requires
        0 <= start <= text.len(),
        forall|i: int| 0 <= i < start ==> text[i] == '-',
    ensures
        trim_leading_dashes(text) == trim_leading_dashes(text.skip(start)),
    decreases start,
{
    if start == 0 {
        assert(text.skip(0) =~= text);
    } else {
        let rest = text.skip(1);
        assert forall|i: int| 0 <= i < start - 1 implies rest[i] == '-' by {
            assert(rest[i] == text[i + 1]);
        }
        lemma_trim_leading_skips(rest, start - 1);
        assert(rest.skip(start - 1) =~= text.skip(start));
    }
}

proof fn lemma_trim_trailing_drops(text: Seq<char>, end: int)
    requires
        0 <= end <= text.len(),
        forall|i: int| end <= i < text.len() ==> text[i] == '-',
    ensures
        trim_trailing_dashes(text) == trim_trailing_dashes(text.take(end)),
    decreases text.len() - end,
{
    if end == text.len() {
        assert(text.take(end) =~= text);
    } else {
        lemma_trim_trailing_drops(text.drop_last(), end);
        assert(text.drop_last().take(end) =~= text.take(end));
    }
}

/// The identifier under which the continued-processing task of a run is submitted.
pub fn continued_processing_identifier(run_id: &str) -> (identifier: String)
    ensures
        identifier@ == identifier_for(run_id@),
{
    let ghost mapped = run_id@.map_values(|c: char| identifier_character(c));
    let mut characters: Vec<char> = Vec::new();
    for character in it: run_id.chars()
        invariant
            it.seq() == run_id@,
            characters@ == run_id@.map_values(|c: char| identifier_character(c)).take(
                it.index() as int,
            ),
    {
        characters.push(to_identifier_character(character));
    }
    assert(characters@ =~= mapped);

    let mut start: usize = 0;
    while start < characters.len() && characters[start] == '-'
        invariant
            start <= characters.len(),
            forall|i: int| 0 <= i < start ==> characters@[i] == '-',
        decreases characters.len() - start,
    {
        start += 1;
    }
    let ghost led = mapped.skip(start as int);
    proof {
        lemma_trim_leading_skips(mapped, start as int);
        assert(led.len() > 0 ==> led[0] == mapped[start as int]);
        assert(trim_leading_dashes(mapped) == led);
    }

    let mut end: usize = characters.len();
    while start < end && characters[end - 1] == '-'
        invariant
            start <= end <= characters.len(),
            forall|i: int| end <= i < characters.len() ==> characters@[i] == '-',
        decreases end,
    {
        end -= 1;
    }
    let ghost suffix = led.take(end - start);
    proof {
        assert forall|i: int| end - start <= i < led.len() implies led[i] == '-' by {
            assert(led[i] == characters@[i + start]);
        }
        lemma_trim_trailing_drops(led, end - start);
        assert(suffix.len() > 0 ==> suffix.last() == characters@[end - 1]);
        assert(run_suffix(run_id@) == suffix);
    }

    let mut identifier: String = CONTINUED_PROCESSING_IDENTIFIER_PREFIX.to_string();
    if start == end {
        identifier.append(EMPTY_RUN_SUFFIX);
    } else {
        let mut next: usize = start;
        while next < end
            invariant
                start <= next <= end <= characters.len(),
                characters@ == mapped,
                suffix == mapped.skip(start as int).take(end - start),
                identifier@ == CONTINUED_PROCESSING_IDENTIFIER_PREFIX@ + suffix.take(next - start),
            decreases end - next,
        {
            assert(suffix[next - start] == characters@[next as int]);
            identifier.push(characters[next]);
            next += 1;
            assert(identifier@ =~= CONTINUED_PROCESSING_IDENTIFIER_PREFIX@ + suffix.take(
                next - start,
            ));
        }
        assert(suffix.take(end - start) =~= suffix);
    }
    identifier
}

/// The part of a run id that is shown to the user.
pub fn short_run_id(run_id: &str) -> (short: &str)
    ensures
        short@ == short_form(run_id@),
{
    let length: usize = run_id.unicode_len();
    let mut from: usize = 0;
    let mut position: usize = 0;
    for character in it: run_id.chars()
        invariant
            it.seq() == run_id@,
            length == run_id@.len(),
            position == it.index(),
            from <= position,
            short_form(run_id@.take(position as int)) == run_id@.subrange(
                from as int,
                position as int,
            ),
    {
        position += 1;
        if character == '_' {
            from = position;
        }
        proof {
            let seen = run_id@.take(position as int);
            assert(seen.last() == character);
            assert(seen.drop_last() =~= run_id@.take(position - 1));
            assert(short_form(seen) =~= run_id@.subrange(from as int, position as int));
        }
    }
    assert(run_id@.take(length as int) =~= run_id@);
    run_id.substring_char(from, length)
}

proof fn lemma_trims(text: Seq<char>)
    ensures
        ({
            let led = trim_leading_dashes(text);
            &&& led.len() <= text.len()
            &&& led == text.skip(text.len() - led.len())
            &&& led.len() > 0 ==> led[0] != '-'
        }),
        ({
            let cut = trim_trailing_dashes(text);
            &&& cut.len() <= text.len()
            &&& cut == text.take(cut.len() as int)
            &&& cut.len() > 0 ==> cut.last() != '-'
        }),
    decreases text.len(),
{
    if text.len() > 0 {
        lemma_trims(text.skip(1));
        lemma_trims(text.drop_last());
    }
    let led = trim_leading_dashes(text);
    let cut = trim_trailing_dashes(text);
    assert(led =~= text.skip(text.len() - led.len()));
    assert(cut =~= text.take(cut.len() as int));
}

proof fn lemma_trim_keeps(text: Seq<char>)
    requires
        text.len() > 0 ==> text[0] != '-' && text.last() != '-',
    ensures
        trim_trailing_dashes(trim_leading_dashes(text)) == text,
{
}

proof fn lemma_run_suffix(run_id: Seq<char>)
    ensures
        forall|i: int|
            0 <= i < run_suffix(run_id).len() ==> is_identifier_character(
                #[trigger] run_suffix(run_id)[i],
            ),
        run_suffix(run_id).len() > 0 ==> run_suffix(run_id)[0] != '-' && run_suffix(run_id).last()
            != '-',
{
    let mapped = run_id.map_values(|c: char| identifier_character(c));
    let led = trim_leading_dashes(mapped);
    let suffix = run_suffix(run_id);
    lemma_trims(mapped);
    lemma_trims(led);
    assert forall|i: int| 0 <= i < suffix.len() implies is_identifier_character(
        #[trigger] suffix[i],
    ) by {
        let at = i + mapped.len() - led.len();
        assert(suffix[i] == led[i] && led[i] == mapped[at]);
        assert(mapped[at] == identifier_character(run_id[at]));
    }
    assert(suffix.len() > 0 ==> suffix[0] == led[0]);
}

/// Whatever the run id, the identifier of its task is covered by the pattern under
/// which the launch handler is registered.
pub proof fn law_identifier_is_covered_by_the_pattern(run_id: Seq<char>)
    ensures
        covered_by_pattern(identifier_for(run_id)),
{
    reveal_strlit("com.tauritavern.client.agent.continued.");
    reveal_strlit("com.tauritavern.client.agent.continued.*");
    reveal_strlit("run");
    let prefix = CONTINUED_PROCESSING_IDENTIFIER_PREFIX@;
    let fixed = CONTINUED_PROCESSING_IDENTIFIER_PATTERN@.drop_last();
    assert(fixed =~= prefix);
    assert(identifier_for(run_id).take(fixed.len() as int) =~= prefix);
}

/// Behind the prefix an identifier is never empty, holds only lower-case ASCII
/// letters, digits and dashes, and neither starts nor ends with a dash.
pub proof fn law_identifier_is_well_formed(run_id: Seq<char>)
    ensures
        ({
            let prefix = CONTINUED_PROCESSING_IDENTIFIER_PREFIX@;
            let suffix = identifier_for(run_id).skip(prefix.len() as int);
            &&& identifier_for(run_id) == prefix + suffix
            &&& suffix.len() > 0
            &&& suffix[0] != '-'
            &&& suffix.last() != '-'
            &&& forall|i: int|
                0 <= i < suffix.len() ==> is_identifier_character(#[trigger] suffix[i])
        }),
{
    reveal_strlit("run");
    lemma_run_suffix(run_id);
    let prefix = CONTINUED_PROCESSING_IDENTIFIER_PREFIX@;
    let tail = if run_suffix(run_id).len() == 0 {
        EMPTY_RUN_SUFFIX@
    } else {
        run_suffix(run_id)
    };
    assert(identifier_for(run_id).skip(prefix.len() as int) =~= tail);
}

/// A run id that already is the suffix of an identifier leads to that identifier.
pub proof fn law_identifier_is_stable(run_id: Seq<char>)
    ensures
        identifier_for(
            identifier_for(run_id).skip(CONTINUED_PROCESSING_IDENTIFIER_PREFIX@.len() as int),
        ) == identifier_for(run_id),
{
    let prefix = CONTINUED_PROCESSING_IDENTIFIER_PREFIX@;
    let suffix = identifier_for(run_id).skip(prefix.len() as int);
    law_identifier_is_well_formed(run_id);
    let mapped = suffix.map_values(|c: char| identifier_character(c));
    assert forall|i: int| 0 <= i < suffix.len() implies mapped[i] == suffix[i] by {
        assert(is_identifier_character(suffix[i]));
    }
    assert(mapped =~= suffix);
    lemma_trim_keeps(suffix);
}

/// The short form of a run id is an ending of it, holds no underscore, and is all of
/// it or stands directly behind an underscore.
pub proof fn law_short_form_is_the_tail_behind_the_last_underscore(run_id: Seq<char>)
    ensures
        ({
            let short = short_form(run_id);
            let start = run_id.len() - short.len();
            &&& 0 <= start
            &&& short == run_id.skip(start)
            &&& !short.contains('_')
            &&& start == 0 || run_id[start - 1] == '_'
        }),
    decreases run_id.len(),
{
    if run_id.len() > 0 && run_id.last() != '_' {
        let init = run_id.drop_last();
        law_short_form_is_the_tail_behind_the_last_underscore(init);
        let start = init.len() - short_form(init).len();
        assert(short_form(run_id) =~= run_id.skip(start));
        assert forall|i: int| 0 <= i < short_form(run_id).len() implies short_form(run_id)[i]
            != '_' by {
            if i < short_form(init).len() {
                assert(short_form(run_id)[i] == short_form(init)[i]);
            }
        }
    } else {
        assert(short_form(run_id) =~= run_id.skip(run_id.len() as int));
    }
}

/// Behind the prefix stands the whole of a run id from its first ASCII letter or digit to its
/// last: each letter in lower case, each digit as it is, and a dash for every other
/// character. Nothing in between is left out.
pub proof fn law_identifier_keeps_every_character(run_id: Seq<char>, first: int, last: int)
    requires
        0 <= first <= last < run_id.len(),
        forall|i: int|
            0 <= i < run_id.len() && (('a' <= #[trigger] run_id[i] && run_id[i] <= 'z') || ('A'
                <= run_id[i] && run_id[i] <= 'Z') || ('0' <= run_id[i] && run_id[i] <= '9'))
                ==> first <= i <= last,
        forall|i: int|
            i == first || i == last ==> ('a' <= #[trigger] run_id[i] && run_id[i] <= 'z') || ('A'
                <= run_id[i] && run_id[i] <= 'Z') || ('0' <= run_id[i] && run_id[i] <= '9'),
    ensures
        ({
            let prefix = "com.tauritavern.client.agent.continued."@;
            let suffix = identifier_for(run_id).skip(prefix.len() as int);
            &&& identifier_for(run_id) == prefix + suffix
            &&& suffix.len() == last - first + 1
            &&& forall|i: int|
                0 <= i < suffix.len() ==> {
                    let character = run_id[first + i];
                    let kept = #[trigger] suffix[i];
                    if 'A' <= character && character <= 'Z' {
                        kept as int == character as int + 32
                    } else if ('a' <= character && character <= 'z') || ('0' <= character
                        && character <= '9') {
                        kept == character
                    } else {
                        kept == '-'
                    }
                }
        }),
{
    let prefix = CONTINUED_PROCESSING_IDENTIFIER_PREFIX@;
    let mapped = run_id.map_values(|c: char| identifier_character(c));
    assert(is_ascii_alphanumeric(run_id[first]) && is_ascii_alphanumeric(run_id[last]));
    assert forall|i: int| 0 <= i < first implies mapped[i] == '-' by {
        assert(!is_ascii_alphanumeric(run_id[i]));
    }
    lemma_trim_leading_skips(mapped, first);
    let led = mapped.skip(first);
    assert(led[0] == mapped[first]);
    assert(mapped[first] != '-');
    assert(trim_leading_dashes(mapped) == led);
    let end = last - first + 1;
    assert forall|i: int| end <= i < led.len() implies led[i] == '-' by {
        assert(led[i] == mapped[first + i]);
        assert(!is_ascii_alphanumeric(run_id[first + i]));
    }
    lemma_trim_trailing_drops(led, end);
    let cut = led.take(end);
    assert(cut.last() == mapped[last]);
    assert(mapped[last] != '-');
    assert(run_suffix(run_id) == cut);
    assert(identifier_for(run_id).skip(prefix.len() as int) =~= cut);
    assert forall|i: int| 0 <= i < cut.len() implies #[trigger] cut[i] == identifier_character(
        run_id[first + i],
    ) by {}
}

/// A run id without any ASCII letter or digit leads to the identifier that ends in `run`.
pub proof fn law_identifier_of_an_unnamed_run(run_id: Seq<char>)
    requires
        forall|i: int|
            0 <= i < run_id.len() ==> !(('a' <= #[trigger] run_id[i] && run_id[i] <= 'z') || ('A'
                <= run_id[i] && run_id[i] <= 'Z') || ('0' <= run_id[i] && run_id[i] <= '9')),
    ensures
        identifier_for(run_id) == "com.tauritavern.client.agent.continued."@ + "run"@,
{
    let mapped = run_id.map_values(|c: char| identifier_character(c));
    assert forall|i: int| 0 <= i < mapped.len() implies mapped[i] == '-' by {
        assert(!is_ascii_alphanumeric(run_id[i]));
    }
    lemma_trim_leading_skips(mapped, mapped.len() as int);
    assert(mapped.skip(mapped.len() as int) =~= Seq::<char>::empty());
}

/// Runs whose ids hold nothing but lower-case ASCII letters and digits have different
/// identifiers if their ids differ.
pub proof fn law_identifiers_tell_runs_apart(one: Seq<char>, other: Seq<char>)
    requires
        one.len() > 0,
        other.len() > 0,
        forall|i: int|
            0 <= i < one.len() ==> ('a' <= #[trigger] one[i] && one[i] <= 'z') || ('0' <= one[i]
                && one[i] <= '9'),
        forall|i: int|
            0 <= i < other.len() ==> ('a' <= #[trigger] other[i] && other[i] <= 'z') || ('0'
                <= other[i] && other[i] <= '9'),
        identifier_for(one) == identifier_for(other),
    ensures
        one == other,
{
    law_identifier_keeps_every_character(one, 0, one.len() - 1);
    law_identifier_keeps_every_character(other, 0, other.len() - 1);
    let prefix = "com.tauritavern.client.agent.continued."@;
    let suffix = identifier_for(one).skip(prefix.len() as int);
    assert forall|i: int| 0 <= i < one.len() implies one[i] == other[i] by {
        assert(suffix[i] == one[0 + i]);
        assert(suffix[i] == other[0 + i]);
    }
    assert(one =~= other);
}

} // verus!
