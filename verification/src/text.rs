//! Keys of translated captions, and helpers on strings.

use vstd::prelude::*;

verus! {

/// Interface languages.
#[derive(Debug, Clone, Copy, PartialEq, Eq, Structural)]
pub enum Language {
    English,
    SimplifiedChinese,
}

/// Entries of the caption table.
#[derive(Debug, Clone, Copy, PartialEq, Eq, Structural)]
pub enum Text {
    About,
    AddDevice,
    AddTrace,
    AnalysisCurrent,
    AnalysisDelta,
    AnalysisHold,
    AnalysisMagnitude,
    AnalysisMaxHold,
    AnalysisMinHold,
    AnalysisReference,
    CalibrationBusy,
    CalibrationCancelled,
    CalibrationCancelling,
    CalibrationChanged,
    CalibrationCompleted,
    CalibrationContinuousOnly,
    CalibrationLoad,
    CalibrationMeasurementsOnly,
    CalibrationMeasuring,
    CalibrationOpen,
    CalibrationProcessing,
    CalibrationReacquire,
    CalibrationS11System,
    CalibrationS11User,
    CalibrationS21System,
    CalibrationS21User,
    CalibrationSaving,
    CalibrationSelectTrace,
    CalibrationShort,
    CalibrationStarting,
    CalibrationStepCurrent,
    CalibrationStepDone,
    CalibrationStepInterrupted,
    CalibrationStepPending,
    CalibrationStopSource,
    CalibrationThrough,
    CalibrationUnknown,
    CalibrationWarming,
    Closing,
    Connected,
    Connecting,
    DeviceInfoUnavailable,
    Devices,
    Disconnected,
    Disconnecting,
    EditDevice,
    Error,
    ExportCancelHelp,
    FrequencyFilePending,
    HealthUpdating,
    Hide,
    Level,
    Network,
    Phase,
    ProfileHostRequired,
    ProfileNameExists,
    ProfileNameRequired,
    ReturnLoss,
    RunFilePending,
    S21Delay,
    S21Loss,
    S21Phase,
    Serial,
    SerialPathRequired,
    Settings,
    Show,
    SourceNotStarted,
    SourceStopForHealth,
    TraceLimit,
    TraceSettings,
    Vswr,
}

/// A caption: an entry of one language's table, or a fixed text.
#[derive(Debug, Clone, Copy, PartialEq, Eq)]
pub enum Caption {
    Entry { language: Language, key: Text },
    Literal(&'static str),
}

impl Language {
    /// The caption that this language's table holds under `key`.
    pub fn text(self, key: Text) -> (caption: Caption)
        ensures
            caption == (Caption::Entry { language: self, key }),
    {
        Caption::Entry { language: self, key }
    }
}

/// Whether two strings hold the same characters.
pub fn same_text(a: &str, b: &str) -> (same: bool)
    ensures
        same == (a@ == b@),
{
    a.to_owned() == b.to_owned()
}

/// Whether a character counts as white space: it has the `White_Space` property
/// of Unicode.
pub open spec fn white(c: char) -> bool {
    let code = c as int;
    ||| 0x09 <= code <= 0x0d
    ||| code == 0x20
    ||| code == 0x85
    ||| code == 0xa0
    ||| code == 0x1680
    ||| 0x2000 <= code <= 0x200a
    ||| code == 0x2028
    ||| code == 0x2029
    ||| code == 0x202f
    ||| code == 0x205f
    ||| code == 0x3000
}

fn is_white(c: char) -> (answer: bool)
    ensures
        answer == white(c),
{
    let code: u32 = c as u32;
    (0x09 <= code && code <= 0x0d) || code == 0x20 || code == 0x85 || code == 0xa0 || code == 0x1680
        || (0x2000 <= code && code <= 0x200a) || code == 0x2028 || code == 0x2029 || code == 0x202f
        || code == 0x205f || code == 0x3000
}

/// A string in lower case.
pub uninterp spec fn lower_case(text: Seq<char>) -> Seq<char>;

/// Wraps `str::to_lowercase` of the standard library, which maps a string to
/// its lower case by the tables of Unicode, whatever the locale. The result is
/// called `lower_case` here. The tables themselves are not stated.
#[verifier::external_body]
pub(crate) fn lowercase(text: &str) -> (lower: String)
    ensures
        lower@ == lower_case(text@),
{
    text.to_lowercase()
}

/// Number of leading characters that are white space.
pub open spec fn leading(text: Seq<char>) -> nat
    decreases text.len(),
{
    if text.len() > 0 && white(text[0]) {
        1 + leading(text.skip(1))
    } else {
        0
    }
}

/// Number of trailing characters that are white space.
pub open spec fn trailing(text: Seq<char>) -> nat
    decreases text.len(),
{
    if text.len() > 0 && white(text.last()) {
        1 + trailing(text.drop_last())
    } else {
        0
    }
}

/// The string without white space at both ends.
pub open spec fn trimmed(text: Seq<char>) -> Seq<char> {
    let rest = text.skip(leading(text) as int);
    rest.take(rest.len() - trailing(rest))
}

proof fn lemma_leading(text: Seq<char>, count: int)
    requires
        0 <= count <= text.len(),
        forall|i: int| 0 <= i < count ==> white(#[trigger] text[i]),
        count == text.len() || !white(text[count]),
    ensures
        leading(text) == count,
    decreases count,
{
    if count > 0 {
        let rest = text.skip(1);
        assert forall|i: int| 0 <= i < count - 1 implies white(#[trigger] rest[i]) by {
            assert(rest[i] == text[i + 1]);
        }
        lemma_leading(rest, count - 1);
    }
}

proof fn lemma_trailing(text: Seq<char>, count: int)
    requires
        0 <= count <= text.len(),
        forall|i: int| text.len() - count <= i < text.len() ==> white(#[trigger] text[i]),
        count == text.len() || !white(text[text.len() - count - 1]),
    ensures
        trailing(text) == count,
    decreases count,
{
    if count > 0 {
        let rest = text.drop_last();
        assert forall|i: int| rest.len() - (count - 1) <= i < rest.len() implies white(
            #[trigger] rest[i],
        ) by {
            assert(rest[i] == text[i]);
        }
        lemma_trailing(rest, count - 1);
    }
}

/// The string without white space at both ends.
pub fn trim(text: &str) -> (short: String)
    ensures
        short@ == trimmed(text@),
{
    let length: usize = text.unicode_len();
    let mut start: usize = 0;
    while start < length && is_white(text.get_char(start))
        invariant
            start <= length == text@.len(),
            forall|i: int| 0 <= i < start ==> white(#[trigger] text@[i]),
        ensures
            start <= length,
            forall|i: int| 0 <= i < start ==> white(#[trigger] text@[i]),
            start == length || !white(text@[start as int]),
        decreases length - start,
    {
        start = start + 1;
    }
    let mut end: usize = length;
    while end > start && is_white(text.get_char(end - 1))
        invariant
            start <= end <= length == text@.len(),
            forall|i: int| end <= i < length ==> white(#[trigger] text@[i]),
        ensures
            start <= end <= length,
            forall|i: int| end <= i < length ==> white(#[trigger] text@[i]),
            end == start || !white(text@[end - 1]),
        decreases end,
    {
        end = end - 1;
    }
    proof {
        lemma_leading(text@, start as int);
        let rest = text@.skip(start as int);
        assert forall|i: int| rest.len() - (length - end) <= i < rest.len() implies white(
            #[trigger] rest[i],
        ) by {
            assert(rest[i] == text@[i + start]);
        }
        lemma_trailing(rest, length - end);
        assert(text@.subrange(start as int, end as int) =~= trimmed(text@));
    }
    text.substring_char(start, end).to_owned()
}

/// Trimming twice changes nothing more.
pub proof fn law_trimming_settles(text: Seq<char>)
    ensures
        trimmed(trimmed(text)) == trimmed(text),
{
    let rest = text.skip(leading(text) as int);
    lemma_leading_stops(text);
    lemma_trailing_stops(rest);
    let short = trimmed(text);
    if short.len() > 0 {
        assert(short[0] == rest[0]);
        assert(!white(short[0]));
        assert(short.last() == rest[rest.len() - trailing(rest) - 1]);
        assert(!white(short.last()));
    }
    assert(short.skip(0) =~= short);
    assert(short.take(short.len() as int) =~= short);
}

proof fn lemma_leading_stops(text: Seq<char>)
    ensures
        leading(text) <= text.len(),
        leading(text) == text.len() || !white(text[leading(text) as int]),
    decreases text.len(),
{
    if text.len() > 0 && white(text[0]) {
        lemma_leading_stops(text.skip(1));
    }
}

proof fn lemma_trailing_stops(text: Seq<char>)
    ensures
        trailing(text) <= text.len(),
        trailing(text) == text.len() || !white(text[text.len() - trailing(text) - 1]),
    decreases text.len(),
{
    if text.len() > 0 && white(text.last()) {
        lemma_trailing_stops(text.drop_last());
    }
}

proof fn lemma_leading_is_white(text: Seq<char>)
    ensures
        leading(text) <= text.len(),
        forall|i: int| 0 <= i < leading(text) ==> white(#[trigger] text[i]),
        leading(text) < text.len() ==> !white(text[leading(text) as int]),
    decreases text.len(),
{
    if text.len() > 0 && white(text[0]) {
        let rest = text.skip(1);
        lemma_leading_is_white(rest);
        assert forall|i: int| 0 <= i < leading(text) implies white(#[trigger] text[i]) by {
            if i > 0 {
                assert(rest[i - 1] == text[i]);
            }
        }
        if leading(text) < text.len() {
            assert(rest[leading(rest) as int] == text[leading(text) as int]);
        }
    }
}

proof fn lemma_trailing_is_white(text: Seq<char>)
    ensures
        trailing(text) <= text.len(),
        forall|i: int| text.len() - trailing(text) <= i < text.len() ==> white(#[trigger] text[i]),
        trailing(text) < text.len() ==> !white(text[text.len() - trailing(text) - 1]),
    decreases text.len(),
{
    if text.len() > 0 && white(text.last()) {
        let rest = text.drop_last();
        lemma_trailing_is_white(rest);
        assert forall|i: int| text.len() - trailing(text) <= i < text.len() implies white(
            #[trigger] text[i],
        ) by {
            if i < text.len() - 1 {
                assert(rest[i] == text[i]);
            }
        }
        if trailing(text) < text.len() {
            assert(rest[rest.len() - trailing(rest) - 1] == text[text.len() - trailing(text) - 1]);
        }
    }
}

/// Trimming takes white space off both ends and nothing else: what is left
/// stands in the string as it was, begins and ends with no white space, and all
/// around it is white space.
pub proof fn law_trimming_takes_white_space_alone(text: &str, short: String)
    requires
        call_ensures(trim, (text,), short),
    ensures
        exists|from: int|
            {
                &&& 0 <= from <= from + short@.len() <= text@.len()
                &&& short@ == #[trigger] text@.subrange(from, from + short@.len())
                &&& forall|i: int| 0 <= i < from ==> white(#[trigger] text@[i])
                &&& forall|i: int|
                    from + short@.len() <= i < text@.len() ==> white(#[trigger] text@[i])
            },
        short@.len() > 0 ==> !white(short@[0]) && !white(short@.last()),
{
    let all = text@;
    let from = leading(all) as int;
    lemma_leading_is_white(all);
    let rest = all.skip(from);
    lemma_trailing_is_white(rest);
    let kept = rest.len() - trailing(rest);
    assert(short@ =~= all.subrange(from, from + kept));
    assert forall|i: int| from + short@.len() <= i < all.len() implies white(
        #[trigger] all[i],
    ) by {
        assert(rest[i - from] == all[i]);
    }
    if short@.len() > 0 {
        assert(short@[0] == all[from]);
        assert(short@.last() == rest[kept - 1]);
    }
}

/// White space is what Unicode calls so: the controls from tab to carriage
/// return, the space, the next line, both fixed spaces, the Ogham space mark,
/// the spaces of the general punctuation, its separators and the ideographic
/// space. Letters, digits and printed signs are not.
pub proof fn law_white_space_is_that_of_unicode(c: char)
    ensures
        c == ' ' || c == '\t' || c == '\n' || c == '\r' ==> white(c),
        0x21 <= c as int <= 0x7e ==> !white(c),
        0x30a0 <= c as int ==> !white(c),
        white(c) ==> (c as int) <= 0x20 || c as int == 0x85 || c as int == 0xa0 || c as int == 0x1680
            || 0x2000 <= c as int <= 0x205f || c as int == 0x3000,
        c as int == 0x85 || c as int == 0xa0 || c as int == 0x1680 || c as int == 0x2028
            || c as int == 0x2029 || c as int == 0x202f || c as int == 0x205f || c as int == 0x3000
            ==> white(c),
        0x2000 <= c as int <= 0x200a ==> white(c),
        0x200b <= c as int <= 0x2027 ==> !white(c),
        0x09 <= c as int <= 0x0d ==> white(c),
        (c as int) < 0x09 ==> !white(c),
{
}

/// A caption is the entry of its own language and key.
pub proof fn law_captions_are_entries_of_their_language(
    language: Language,
    key: Text,
    caption: Caption,
)
    requires
        call_ensures(Language::text, (language, key), caption),
    ensures
        caption == (Caption::Entry { language, key }),
{
}

} // verus!
