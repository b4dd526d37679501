//! The memory metric that a connected client publishes periodically.

use vstd::prelude::*;

use crate::bus_client::outgoing_event;
use crate::payload::{Payload, PayloadValue, PayloadValueView};
use crate::protocol::{ServiceBusEventEnvelope, UtcTimestamp};

verus! {

broadcast use vstd::string::group_string_axioms;

/// Topic on which memory metrics are published.
pub const METRICS_TOPIC: &'static str = "basilisk.metrics.distribution";
/// Message type of memory metric events.
pub const METRICS_MESSAGE_TYPE: &'static str = "basilisk.internal";
/// Seconds between two metric publications.
pub const METRICS_INTERVAL_SECS: u64 = 20;
/// Bytes per memory page counted in `/proc/self/statm`.
pub const PAGE_SIZE_BYTES: u64 = 4096;

/// The payload of a memory metric: its name, its value and its unit.
pub open spec fn metrics_payload_view(memory_bytes: u64) -> Map<Seq<char>, PayloadValueView> {
    Map::<Seq<char>, PayloadValueView>::empty().insert(
        "name"@,
        PayloadValueView::Text("memory_usage"@),
    ).insert("value"@, PayloadValueView::UInt(memory_bytes)).insert(
        "unit"@,
        PayloadValueView::Text("bytes"@),
    )
}

/// A memory metric reports the byte count it is given, unchanged, for every
/// `u64`, named `memory_usage` and in the unit `bytes`, and holds nothing else.
pub proof fn metric_reports_the_byte_count(memory_bytes: u64)
    ensures
        metrics_payload_view(memory_bytes).contains_key("value"@),
        metrics_payload_view(memory_bytes)["value"@] == PayloadValueView::UInt(memory_bytes),
        metrics_payload_view(memory_bytes).contains_key("name"@),
        metrics_payload_view(memory_bytes)["name"@] == PayloadValueView::Text("memory_usage"@),
        metrics_payload_view(memory_bytes).contains_key("unit"@),
        metrics_payload_view(memory_bytes)["unit"@] == PayloadValueView::Text("bytes"@),
        metrics_payload_view(memory_bytes).dom() == set!["name"@, "value"@, "unit"@],
{
    reveal_strlit("name");
    reveal_strlit("value");
    reveal_strlit("unit");
    assert("value"@.len() == 5 && "unit"@.len() == 4 && "name"@.len() == 4);
    assert("name"@[0] == 'n' && "unit"@[0] == 'u');
    assert("value"@ != "unit"@);
    assert("name"@ != "unit"@);
    assert("name"@ != "value"@);
    assert(metrics_payload_view(memory_bytes).dom() =~= set!["name"@, "value"@, "unit"@]);
}

/// The payload reporting `memory_bytes` bytes of memory in use.
pub fn metrics_payload(memory_bytes: u64) -> (p: Payload)
    ensures
        p@ == metrics_payload_view(memory_bytes),
        p@.contains_key("value"@),
        p@["value"@] == PayloadValueView::UInt(memory_bytes),
        p@.contains_key("name"@),
        p@["name"@] == PayloadValueView::Text("memory_usage"@),
        p@.contains_key("unit"@),
        p@["unit"@] == PayloadValueView::Text("bytes"@),
        p@.dom() == set!["name"@, "value"@, "unit"@],
{
    proof {
        reveal_strlit("name");
        reveal_strlit("value");
        reveal_strlit("unit");
        assert("value"@.len() == 5 && "unit"@.len() == 4 && "name"@.len() == 4);
        assert("name"@[0] == 'n' && "unit"@[0] == 'u');
    }
    let mut p = Payload::new();
    p.insert(String::from_str("name"), PayloadValue::Text(String::from_str("memory_usage")));
    p.insert(String::from_str("value"), PayloadValue::UInt(memory_bytes));
    p.insert(String::from_str("unit"), PayloadValue::Text(String::from_str("bytes")));
    assert(p@.dom() =~= set!["name"@, "value"@, "unit"@]);
    p
}

/// The event, emitted at `emitted_at`, that publishes a memory metric of
/// `memory_bytes` bytes.
pub fn metrics_event(memory_bytes: u64, emitted_at: UtcTimestamp) -> (e: ServiceBusEventEnvelope)
    ensures
        e.emitted_at_utc == emitted_at,
        e.topic@ == METRICS_TOPIC@,
        e.message_type@ == METRICS_MESSAGE_TYPE@,
        e.payload@ == metrics_payload_view(memory_bytes),
        e.payload@.contains_key("value"@),
        e.payload@["value"@] == PayloadValueView::UInt(memory_bytes),
        e.event_id@ == Seq::<char>::empty(),
        e.service_id@ == Seq::<char>::empty(),
        e.instance_id@ == Seq::<char>::empty(),
        e.correlation_id == 0,
        e.causation_id is None,
{
    outgoing_event(
        String::from_str(METRICS_TOPIC),
        String::from_str(METRICS_MESSAGE_TYPE),
        metrics_payload(memory_bytes),
        emitted_at,
    )
}

/// The characters that `char::is_whitespace` accepts (Unicode `White_Space`).
pub open spec fn is_white(c: char) -> bool {
    ||| '\t' <= c <= '\r'
    ||| c == ' '
    ||| c == '\u{85}'
    ||| c == '\u{A0}'
    ||| c == '\u{1680}'
    ||| '\u{2000}' <= c <= '\u{200A}'
    ||| c == '\u{2028}'
    ||| c == '\u{2029}'
    ||| c == '\u{202F}'
    ||| c == '\u{205F}'
    ||| c == '\u{3000}'
}

fn white(c: char) -> (w: bool)
    ensures
        w == is_white(c),
{
    ('\t' <= c && c <= '\r') || c == ' ' || c == '\u{85}' || c == '\u{A0}' || c == '\u{1680}' || (
    '\u{2000}' <= c && c <= '\u{200A}') || c == '\u{2028}' || c == '\u{2029}' || c == '\u{202F}'
        || c == '\u{205F}' || c == '\u{3000}'
}

/// `s` without its leading whitespace.
pub open spec fn skip_white(s: Seq<char>) -> Seq<char>
    decreases s.len(),
{
    if s.len() > 0 && is_white(s[0]) {
        skip_white(s.drop_first())
    } else {
        s
    }
}

/// The characters of `s` up to its first whitespace.
pub open spec fn leading_word(s: Seq<char>) -> Seq<char>
    decreases s.len(),
{
    if s.len() == 0 || is_white(s[0]) {
        Seq::empty()
    } else {
        seq![s[0]] + leading_word(s.drop_first())
    }
}

/// The first whitespace-separated word of `s` (what `split_whitespace().next()`
/// yields), empty when `s` holds none.
pub open spec fn first_word(s: Seq<char>) -> Seq<char> {
    leading_word(skip_white(s))
}

/// Whether `c` is an ASCII decimal digit.
pub open spec fn is_digit(c: char) -> bool {
    '0' <= c <= '9'
}

/// The value of the decimal digit `c`.
pub open spec fn digit_value(c: char) -> nat {
    (c as int - '0' as int) as nat
}

/// The number that a string of decimal digits spells.
pub open spec fn decimal_value(digits: Seq<char>) -> nat
    decreases digits.len(),
{
    if digits.len() == 0 {
        0
    } else {
        decimal_value(digits.drop_last()) * 10 + digit_value(digits.last())
    }
}

/// The digits of a number word: without a leading `+`.
pub open spec fn unsigned_digits(word: Seq<char>) -> Seq<char> {
    if word.len() > 0 && word[0] == '+' {
        word.drop_first()
    } else {
        word
    }
}

/// What `str::parse::<u64>` gives for `word`: an optional `+` followed by at
/// least one decimal digit, whose value fits in `u64`.
pub open spec fn parsed_u64(word: Seq<char>) -> Option<u64> {
    let digits = unsigned_digits(word);
    if digits.len() > 0 && (forall|i: int| 0 <= i < digits.len() ==> is_digit(#[trigger] digits[i]))
        && decimal_value(digits) <= u64::MAX {
        Some(decimal_value(digits) as u64)
    } else {
        None
    }
}

/// The memory in use according to the text of `/proc/self/statm`: its first
/// field counts pages; the page count times the page size, saturating at
/// `u64::MAX`; zero when the first field is not a number.
pub open spec fn statm_memory_bytes(statm: Seq<char>) -> u64 {
    match parsed_u64(first_word(statm)) {
        Some(pages) => if pages * PAGE_SIZE_BYTES <= u64::MAX {
            (pages * PAGE_SIZE_BYTES) as u64
        } else {
            u64::MAX
        },
        None => 0,
    }
}

proof fn lemma_skip_white_step(s: Seq<char>, i: int)
    requires
        0 <= i < s.len(),
        is_white(s[i]),
    ensures
        skip_white(s.subrange(i, s.len() as int)) == skip_white(s.subrange(i + 1, s.len() as int)),
{
    assert(s.subrange(i, s.len() as int).drop_first() =~= s.subrange(i + 1, s.len() as int));
}

proof fn lemma_leading_word_step(s: Seq<char>, i: int, j: int)
    requires
        0 <= i <= j < s.len(),
        !is_white(s[j]),
        leading_word(s.subrange(i, s.len() as int)) == s.subrange(i, j) + leading_word(
            s.subrange(j, s.len() as int),
        ),
    ensures
        leading_word(s.subrange(i, s.len() as int)) == s.subrange(i, j + 1) + leading_word(
            s.subrange(j + 1, s.len() as int),
        ),
{
    let t = s.subrange(j, s.len() as int);
    assert(t.drop_first() =~= s.subrange(j + 1, s.len() as int));
    assert(leading_word(t) == seq![s[j]] + leading_word(s.subrange(j + 1, s.len() as int)));
    assert(s.subrange(i, j) + (seq![s[j]] + leading_word(s.subrange(j + 1, s.len() as int)))
        =~= s.subrange(i, j + 1) + leading_word(s.subrange(j + 1, s.len() as int)));
}

/// The first whitespace-separated word of `text`, found in one pass over `text`.
fn first_word_of(text: &str) -> (word: &str)
    ensures
        word@ == first_word(text@),
{
    let n = text.unicode_len();
    let mut k: usize = 0;
    let mut start: usize = 0;
    let mut end: usize = 0;
    let mut in_word = false;
    let mut done = false;
    assert(text@.subrange(0, n as int) =~= text@);
    for c in it: text.chars()
        invariant
            n == text@.len(),
            it.seq() == text@,
            k == it.index(),
            k <= n,
            start <= end <= k,
            !in_word && !done ==> start == k && end == k && skip_white(text@) == skip_white(
                text@.subrange(k as int, n as int),
            ),
            in_word ==> {
                &&& !done
                &&& end == k
                &&& start < k
                &&& skip_white(text@) == text@.subrange(start as int, n as int)
                &&& leading_word(text@.subrange(start as int, n as int)) == text@.subrange(
                    start as int,
                    k as int,
                ) + leading_word(text@.subrange(k as int, n as int))
            },
            done ==> !in_word && first_word(text@) == text@.subrange(start as int, end as int),
    {
        assert(c == text@[k as int]);
        assert(text@.subrange(k as int, n as int)[0] == c);
        if done {
        } else if in_word {
            if white(c) {
                assert(leading_word(text@.subrange(k as int, n as int)) =~= Seq::<char>::empty());
                assert(text@.subrange(start as int, k as int) + Seq::<char>::empty()
                    =~= text@.subrange(start as int, end as int));
                in_word = false;
                done = true;
            } else {
                proof {
                    lemma_leading_word_step(text@, start as int, k as int);
                }
                end = k + 1;
            }
        } else {
            if white(c) {
                proof {
                    lemma_skip_white_step(text@, k as int);
                }
                start = k + 1;
                end = k + 1;
            } else {
                assert(skip_white(text@.subrange(k as int, n as int)) == text@.subrange(
                    k as int,
                    n as int,
                ));
                assert(text@.subrange(k as int, k as int) + leading_word(
                    text@.subrange(k as int, n as int),
                ) =~= leading_word(text@.subrange(k as int, n as int)));
                proof {
                    lemma_leading_word_step(text@, k as int, k as int);
                }
                in_word = true;
                end = k + 1;
            }
        }
        k += 1;
    }
    assert(text@.subrange(n as int, n as int) =~= Seq::<char>::empty());
    if in_word {
        assert(text@.subrange(start as int, n as int) + Seq::<char>::empty() =~= text@.subrange(
            start as int,
            end as int,
        ));
    }
    text.substring_char(start, end)
}

proof fn lemma_decimal_prefix(digits: Seq<char>, k: int)
    requires
        0 <= k <= digits.len(),
    ensures
        decimal_value(digits.subrange(0, k)) <= decimal_value(digits),
    decreases digits.len() - k,
{
    if k < digits.len() {
        let longer = digits.subrange(0, k + 1);
        assert(longer.drop_last() =~= digits.subrange(0, k));
        lemma_decimal_prefix(digits, k + 1);
    } else {
        assert(digits.subrange(0, k) =~= digits);
    }
}

/// The number that `word` spells, as `str::parse::<u64>` reads it, found in
/// one pass over `word`.
pub fn parse_u64(word: &str) -> (value: Option<u64>)
    ensures
        value == parsed_u64(word@),
{
    let n = word.unicode_len();
    let start: usize = if n > 0 && word.get_char(0) == '+' {
        1
    } else {
        0
    };
    let ghost digits = unsigned_digits(word@);
    assert(digits =~= word@.subrange(start as int, n as int));
    if start == n {
        return None;
    }
    let mut value: u64 = 0;
    let mut k: usize = 0;
    assert(digits.subrange(0, 0) =~= Seq::<char>::empty());
    for c in it: word.chars()
        invariant
            n == word@.len(),
            it.seq() == word@,
            k == it.index(),
            k <= n,
            start <= 1,
            start < n,
            digits == word@.subrange(start as int, n as int),
            digits == unsigned_digits(word@),
            k <= start ==> value == 0,
            k >= start ==> forall|i: int| 0 <= i < k - start ==> is_digit(#[trigger] digits[i]),
            k >= start ==> value == decimal_value(digits.subrange(0, k - start)),
    {
        assert(c == word@[k as int]);
        if k >= start {
            if !('0' <= c && c <= '9') {
                assert(digits[k - start] == c);
                assert(!is_digit(digits[k - start]));
                return None;
            }
            let d = (c as u32 - '0' as u32) as u64;
            let ghost prefix = digits.subrange(0, k - start + 1);
            assert(prefix.drop_last() =~= digits.subrange(0, k - start));
            assert(prefix.last() == c);
            assert(digit_value(c) == d);
            assert(decimal_value(prefix) == value * 10 + d);
            match value.checked_mul(10) {
                Some(scaled) => match scaled.checked_add(d) {
                    Some(next) => {
                        value = next;
                    },
                    None => {
                        proof {
                            lemma_decimal_prefix(digits, k - start + 1);
                        }
                        return None;
                    },
                },
                None => {
                    proof {
                        lemma_decimal_prefix(digits, k - start + 1);
                    }
                    return None;
                },
            }
        }
        k += 1;
    }
    assert(digits.subrange(0, n - start) =~= digits);
    Some(value)
}

/// The memory in use according to the text of `/proc/self/statm`.
pub fn memory_bytes_from_statm(statm: &str) -> (bytes: u64)
    ensures
        bytes == statm_memory_bytes(statm@),
{
    match parse_u64(first_word_of(statm)) {
        Some(pages) => match pages.checked_mul(PAGE_SIZE_BYTES) {
            Some(bytes) => bytes,
            None => u64::MAX,
        },
        None => 0,
    }
}

} // verus!
