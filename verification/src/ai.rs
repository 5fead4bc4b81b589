use crate::effects::{Effect, EffectView};
use crate::events::{Event, EventView};
use crate::model::{ModelError, Parameter, ParameterView, ProjectState, DEFAULT_VALUE};
use crate::strings::{contains_text, matches_at, occurs_at};
use std::collections::HashMap;
use vstd::prelude::*;
use vstd::string::StrSliceExecFns;

verus! {

/// Whether a character is white space: the characters that Unicode gives
/// the property White_Space.
pub open spec fn white_space(c: char) -> bool {
    let n = c as u32;
    ||| 0x09 <= n <= 0x0D
    ||| n == 0x20
    ||| n == 0x85
    ||| n == 0xA0
    ||| n == 0x1680
    ||| 0x2000 <= n <= 0x200A
    ||| n == 0x2028
    ||| n == 0x2029
    ||| n == 0x202F
    ||| n == 0x205F
    ||| n == 0x3000
}

/// Whether a character is white space.
pub fn is_white_space(c: char) -> (white: bool)
    ensures
        white == white_space(c),
{
    let n: u32 = c as u32;
    (0x09 <= n && n <= 0x0D) || n == 0x20 || n == 0x85 || n == 0xA0 || n == 0x1680 || (0x2000 <= n
        && n <= 0x200A) || n == 0x2028 || n == 0x2029 || n == 0x202F || n == 0x205F || n == 0x3000
}

/// Whether `at` is the first place where `needle` stands in `hay`.
pub open spec fn is_first_occurrence(hay: Seq<char>, needle: Seq<char>, at: int) -> bool {
    occurs_at(hay, needle, at) && forall|k: int| 0 <= k < at ==> !occurs_at(hay, needle, k)
}

/// Whether `at` is the last place where `needle` stands in `hay`.
pub open spec fn is_last_occurrence(hay: Seq<char>, needle: Seq<char>, at: int) -> bool {
    occurs_at(hay, needle, at) && forall|k: int| at < k ==> !occurs_at(hay, needle, k)
}

/// The first place where `needle` stands in `hay`.
pub open spec fn first_occurrence(hay: Seq<char>, needle: Seq<char>) -> Option<int> {
    if contains_text(hay, needle) {
        Some(choose|at: int| is_first_occurrence(hay, needle, at))
    } else {
        None
    }
}

/// The last place where `needle` stands in `hay`.
pub open spec fn last_occurrence(hay: Seq<char>, needle: Seq<char>) -> Option<int> {
    if contains_text(hay, needle) {
        Some(choose|at: int| is_last_occurrence(hay, needle, at))
    } else {
        None
    }
}

/// Whether `at` is the first line break at or after `from`.
pub open spec fn is_next_line_break(text: Seq<char>, from: int, at: int) -> bool {
    from <= at < text.len() && text[at] == '\n' && forall|k: int| from <= k < at ==> text[k] != '\n'
}

/// Whether there is a line break at or after `from`.
pub open spec fn has_line_break(text: Seq<char>, from: int) -> bool {
    exists|at: int| from <= at < text.len() && text[at] == '\n'
}

/// Where the text inside a fence begins: after the line on which the fence
/// opens at `start`, or right behind the `fence_len` characters of the
/// opening where no line ends after it.
pub open spec fn body_start(text: Seq<char>, start: int, fence_len: int) -> int {
    if has_line_break(text, start) {
        (choose|at: int| is_next_line_break(text, start, at)) + 1
    } else {
        start + fence_len
    }
}

/// How many of the flags, from the front, are set.
pub open spec fn leading(flags: Seq<bool>) -> int
    decreases flags.len(),
{
    if flags.len() > 0 && flags[0] {
        1 + leading(flags.drop_first())
    } else {
        0
    }
}

/// How many of the flags, from the back, are set.
pub open spec fn trailing(flags: Seq<bool>) -> int
    decreases flags.len(),
{
    if flags.len() > 0 && flags.last() {
        1 + trailing(flags.drop_last())
    } else {
        0
    }
}

/// The range that is left of a text when the characters flagged at its
/// front and at its back are taken away; an all-flagged text leaves nothing.
pub open spec fn kept_range(flags: Seq<bool>) -> (int, int) {
    if leading(flags) == flags.len() {
        (flags.len() as int, flags.len() as int)
    } else {
        (leading(flags), flags.len() - trailing(flags))
    }
}

/// Whether each character is white space.
pub open spec fn white_flags(text: Seq<char>) -> Seq<bool> {
    text.map_values(|c: char| white_space(c))
}

/// A text without the white space at its front and at its back.
pub open spec fn trimmed(text: Seq<char>) -> Seq<char> {
    text.subrange(kept_range(white_flags(text)).0, kept_range(white_flags(text)).1)
}

/// The text between the fence that `opening` opens and the last fence, if
/// `opening` stands in the text and the last fence comes after the text that
/// the first one opens.
pub open spec fn fenced(text: Seq<char>, opening: Seq<char>) -> Option<Seq<char>> {
    match (first_occurrence(text, opening), last_occurrence(text, "```"@)) {
        (Some(start), Some(end)) => {
            let begin = body_start(text, start, opening.len() as int);
            if begin <= end {
                Some(text.subrange(begin, end))
            } else {
                None
            }
        },
        _ => None,
    }
}

/// The JSON in an answer: what stands in a fence marked as JSON, else what
/// stands in any fence, else the whole answer; without the white space
/// around it.
pub open spec fn extracted(text: Seq<char>) -> Seq<char> {
    match fenced(text, "```json"@) {
        Some(body) => trimmed(body),
        None => match fenced(text, "```"@) {
            Some(body) => trimmed(body),
            None => trimmed(text),
        },
    }
}

/// What was generated, by CC number; where a number comes more than once,
/// its last value holds.
pub open spec fn generated_map(generated: Seq<(u8, u8)>) -> Map<u8, u8>
    decreases generated.len(),
{
    if generated.len() == 0 {
        Map::empty()
    } else {
        generated_map(generated.drop_last()).insert(generated.last().0, generated.last().1)
    }
}

/// The values of a snap, in parameter order: for each parameter the value
/// that the map has for its CC number, or the mid-point.
pub open spec fn values_from(parameters: Seq<ParameterView>, by_cc: Map<u8, u8>) -> Seq<u8> {
    Seq::new(
        parameters.len(),
        |i: int|
            if by_cc.contains_key(parameters[i].cc) {
                by_cc[parameters[i].cc]
            } else {
                DEFAULT_VALUE
            },
    )
}

/// The values of a snap, in parameter order: for each parameter the value
/// that was generated last for its CC number, or the mid-point.
pub open spec fn generated_values(parameters: Seq<ParameterView>, generated: Seq<(u8, u8)>) -> Seq<
    u8,
> {
    values_from(parameters, generated_map(generated))
}

/// The first place of an occurrence is unique.
pub proof fn lemma_first_occurrence_is(hay: Seq<char>, needle: Seq<char>, at: int)
    requires
        is_first_occurrence(hay, needle, at),
    ensures
        first_occurrence(hay, needle) == Some(at),
{
    assert(contains_text(hay, needle));
    let c = choose|c: int| is_first_occurrence(hay, needle, c);
    assert(is_first_occurrence(hay, needle, c));
    if c < at {
        assert(!occurs_at(hay, needle, c));
    } else if at < c {
        assert(!occurs_at(hay, needle, at));
    }
}

/// The last place of an occurrence is unique.
pub proof fn lemma_last_occurrence_is(hay: Seq<char>, needle: Seq<char>, at: int)
    requires
        is_last_occurrence(hay, needle, at),
    ensures
        last_occurrence(hay, needle) == Some(at),
{
    assert(contains_text(hay, needle));
    let c = choose|c: int| is_last_occurrence(hay, needle, c);
    assert(is_last_occurrence(hay, needle, c));
    if c < at {
        assert(!occurs_at(hay, needle, at));
    } else if at < c {
        assert(!occurs_at(hay, needle, c));
    }
}

/// The next line break is unique.
pub proof fn lemma_body_start_is(text: Seq<char>, start: int, fence_len: int, at: int)
    requires
        is_next_line_break(text, start, at),
    ensures
        body_start(text, start, fence_len) == at + 1,
{
    assert(has_line_break(text, start));
    let c = choose|c: int| is_next_line_break(text, start, c);
    assert(is_next_line_break(text, start, c));
    if c < at {
        assert(text[c] != '\n');
    } else if at < c {
        assert(text[at] != '\n');
    }
}

/// Flags that are set up to `n`, and not at `n`, lead by `n`.
pub proof fn lemma_leading_is(flags: Seq<bool>, n: int)
    requires
        0 <= n <= flags.len(),
        forall|k: int| 0 <= k < n ==> flags[k],
        n < flags.len() ==> !flags[n],
    ensures
        leading(flags) == n,
    decreases n,
{
    if n > 0 {
        let rest = flags.drop_first();
        assert forall|k: int| 0 <= k < n - 1 implies rest[k] by {
            assert(rest[k] == flags[k + 1]);
        }
        if n - 1 < rest.len() {
            assert(rest[n - 1] == flags[n]);
        }
        lemma_leading_is(rest, n - 1);
    }
}

/// Flags that are set from `flags.len() - n` on, and not before, trail by
/// `n`.
pub proof fn lemma_trailing_is(flags: Seq<bool>, n: int)
    requires
        0 <= n <= flags.len(),
        forall|k: int| flags.len() - n <= k < flags.len() ==> flags[k],
        n < flags.len() ==> !flags[flags.len() - n - 1],
    ensures
        trailing(flags) == n,
    decreases n,
{
    if n > 0 {
        let rest = flags.drop_last();
        assert forall|k: int| rest.len() - (n - 1) <= k < rest.len() implies rest[k] by {
            assert(rest[k] == flags[k]);
        }
        if n - 1 < rest.len() {
            assert(rest[rest.len() - (n - 1) - 1] == flags[flags.len() - n - 1]);
        }
        lemma_trailing_is(rest, n - 1);
    }
}

/// The range that is left of a text when the characters flagged at its
/// front and at its back are taken away.
pub fn trim_range(flags: &Vec<bool>) -> (range: (usize, usize))
    ensures
        range.0 == kept_range(flags@).0,
        range.1 == kept_range(flags@).1,
        range.0 <= range.1 <= flags@.len(),
{
    let n = flags.len();
    let mut lo: usize = 0;
    while lo < n && flags[lo]
        invariant
            lo <= n,
            n == flags@.len(),
            forall|k: int| 0 <= k < lo ==> flags@[k],
        decreases n - lo,
    {
        lo += 1;
    }
    proof {
        lemma_leading_is(flags@, lo as int);
    }
    if lo == n {
        return (n, n);
    }
    let mut hi: usize = n;
    while hi > lo + 1 && flags[hi - 1]
        invariant
            lo < hi <= n,
            n == flags@.len(),
            !flags@[lo as int],
            forall|k: int| hi <= k < n ==> flags@[k],
        decreases hi,
    {
        hi -= 1;
    }
    proof {
        lemma_trailing_is(flags@, n - hi);
    }
    (lo, hi)
}

/// The first place where `needle` stands in `hay`.
pub fn find_text(hay: &str, needle: &str) -> (found: Option<usize>)
    ensures
        match found {
            Some(at) => first_occurrence(hay@, needle@) == Some(at as int) && is_first_occurrence(
                hay@,
                needle@,
                at as int,
            ),
            None => first_occurrence(hay@, needle@) is None,
        },
{
    let n = hay.unicode_len();
    let m = needle.unicode_len();
    if m > n {
        assert forall|at: int| !occurs_at(hay@, needle@, at) by {}
        return None;
    }
    let last: usize = n - m;
    let mut at: usize = 0;
    while at < last
        invariant
            m <= n,
            n == hay@.len(),
            m == needle@.len(),
            last == n - m,
            at <= last,
            forall|k: int| 0 <= k < at ==> !occurs_at(hay@, needle@, k),
        decreases last - at,
    {
        if matches_at(hay, needle, at) {
            proof {
                lemma_first_occurrence_is(hay@, needle@, at as int);
            }
            return Some(at);
        }
        at += 1;
    }
    if matches_at(hay, needle, last) {
        proof {
            lemma_first_occurrence_is(hay@, needle@, last as int);
        }
        return Some(last);
    }
    assert forall|k: int| !occurs_at(hay@, needle@, k) by {}
    None
}

/// The last place where `needle` stands in `hay`.
pub fn rfind_text(hay: &str, needle: &str) -> (found: Option<usize>)
    ensures
        match found {
            Some(at) => last_occurrence(hay@, needle@) == Some(at as int) && is_last_occurrence(
                hay@,
                needle@,
                at as int,
            ),
            None => last_occurrence(hay@, needle@) is None,
        },
{
    let n = hay.unicode_len();
    let m = needle.unicode_len();
    if m > n {
        assert forall|at: int| !occurs_at(hay@, needle@, at) by {}
        return None;
    }
    let mut at: usize = n - m;
    while at > 0
        invariant
            m <= n,
            n == hay@.len(),
            m == needle@.len(),
            at <= n - m,
            forall|k: int| at < k ==> !occurs_at(hay@, needle@, k),
        decreases at,
    {
        if matches_at(hay, needle, at) {
            proof {
                lemma_last_occurrence_is(hay@, needle@, at as int);
            }
            return Some(at);
        }
        at -= 1;
    }
    if matches_at(hay, needle, 0) {
        proof {
            lemma_last_occurrence_is(hay@, needle@, 0);
        }
        return Some(0);
    }
    assert forall|k: int| !occurs_at(hay@, needle@, k) by {}
    None
}

/// Where the text inside a fence begins.
fn find_body_start(text: &str, start: usize, fence_len: usize) -> (begin: usize)
    requires
        start + fence_len <= text@.len() <= usize::MAX,
    ensures
        begin == body_start(text@, start as int, fence_len as int),
        start <= begin <= text@.len(),
{
    let n = text.unicode_len();
    let mut at: usize = start;
    while at < n
        invariant
            start <= at <= n,
            n == text@.len(),
            forall|k: int| start <= k < at ==> text@[k] != '\n',
        decreases n - at,
    {
        if text.get_char(at) == '\n' {
            proof {
                lemma_body_start_is(text@, start as int, fence_len as int, at as int);
            }
            return at + 1;
        }
        at += 1;
    }
    assert(!has_line_break(text@, start as int));
    start + fence_len
}

/// The text between the fence that `opening` opens and the last fence.
fn find_fenced<'a>(text: &'a str, opening: &str) -> (body: Option<&'a str>)
    ensures
        match body {
            Some(b) => fenced(text@, opening@) == Some(b@),
            None => fenced(text@, opening@) is None,
        },
{
    let start = match find_text(text, opening) {
        Some(start) => start,
        None => {
            return None;
        },
    };
    let end = match rfind_text(text, "```") {
        Some(end) => end,
        None => {
            return None;
        },
    };
    let n = text.unicode_len();
    let m = opening.unicode_len();
    let begin = find_body_start(text, start, m);
    if begin <= end {
        Some(text.substring_char(begin, end))
    } else {
        None
    }
}

/// A text without the white space at its front and at its back.
pub fn trim_text(text: &str) -> (kept: String)
    ensures
        kept@ == trimmed(text@),
{
    let n = text.unicode_len();
    let mut flags: Vec<bool> = Vec::new();
    let mut i: usize = 0;
    while i < n
        invariant
            i <= n,
            n == text@.len(),
            flags@.len() == i,
            forall|k: int| 0 <= k < i ==> flags@[k] == white_space(text@[k]),
        decreases n - i,
    {
        flags.push(is_white_space(text.get_char(i)));
        i += 1;
    }
    assert(flags@ =~= white_flags(text@));
    let (lo, hi) = trim_range(&flags);
    text.substring_char(lo, hi).to_owned()
}

/// The JSON in an answer that may wrap it in a fence: what stands in a fence
/// marked as JSON, else what stands in any fence, else the whole answer;
/// without the white space around it. A fence that is never closed counts as
/// none.
pub fn extract_json_from_response(content: &str) -> (json: String)
    ensures
        json@ == extracted(content@),
{
    match find_fenced(content, "```json") {
        Some(body) => trim_text(body),
        None => match find_fenced(content, "```") {
            Some(body) => trim_text(body),
            None => trim_text(content),
        },
    }
}

/// What was generated, by CC number.
pub fn collect_generated(generated: &Vec<(u8, u8)>) -> (by_cc: HashMap<u8, u8>)
    ensures
        by_cc@ == generated_map(generated@),
{
    broadcast use vstd::std_specs::hash::group_hash_axioms;

    let mut by_cc: HashMap<u8, u8> = HashMap::new();
    let mut i: usize = 0;
    while i < generated.len()
        invariant
            i <= generated.len(),
            by_cc@ == generated_map(generated@.subrange(0, i as int)),
        decreases generated.len() - i,
    {
        let (cc, value) = generated[i];
        by_cc.insert(cc, value);
        proof {
            let prefix = generated@.subrange(0, i + 1);
            assert(prefix.drop_last() =~= generated@.subrange(0, i as int));
            assert(prefix.last() == generated@[i as int]);
        }
        i += 1;
    }
    assert(generated@.subrange(0, i as int) =~= generated@);
    by_cc
}

/// The values of a snap from a map of CC numbers to values: for each
/// parameter, in order, the value of its CC number, or the mid-point where
/// the map has none.
pub fn values_by_cc(parameters: &Vec<Parameter>, by_cc: &HashMap<u8, u8>) -> (values: Vec<u8>)
    ensures
        values@ == values_from(parameters@.map_values(|p: Parameter| p@), by_cc@),
{
    broadcast use vstd::std_specs::hash::group_hash_axioms;

    let mut values: Vec<u8> = Vec::new();
    let mut i: usize = 0;
    while i < parameters.len()
        invariant
            i <= parameters.len(),
            values@.len() == i,
            forall|k: int|
                0 <= k < i ==> values@[k] == if by_cc@.contains_key(parameters@[k].cc) {
                    by_cc@[parameters@[k].cc]
                } else {
                    DEFAULT_VALUE
                },
        decreases parameters.len() - i,
    {
        let value = match by_cc.get(&parameters[i].cc) {
            Some(value) => *value,
            None => DEFAULT_VALUE,
        };
        values.push(value);
        i += 1;
    }
    assert(values@ =~= values_from(parameters@.map_values(|p: Parameter| p@), by_cc@));
    values
}

/// The values of a snap from what was generated: for each parameter, in
/// order, the value generated last for its CC number, or the mid-point where
/// none was.
pub fn values_for_parameters(parameters: &Vec<Parameter>, generated: &Vec<(u8, u8)>) -> (values:
    Vec<u8>)
    ensures
        values@ == generated_values(parameters@.map_values(|p: Parameter| p@), generated@),
{
    let by_cc = collect_generated(generated);
    values_by_cc(parameters, &by_cc)
}

/// The key to use for the generating service: the one from the environment,
/// or else the one stored in the project.
pub fn choose_api_key(from_environment: Option<String>, stored: Option<String>) -> (key: Option<
    String,
>)
    ensures
        key == if from_environment is Some {
            from_environment
        } else {
            stored
        },
{
    match from_environment {
        Some(key) => Some(key),
        None => stored,
    }
}

/// Takes generated values into snap `snap_id` of bank `bank_id` and hands
/// back the notice to publish.
pub fn generation_completed(
    state: &mut ProjectState,
    bank_id: usize,
    snap_id: usize,
    values: Vec<u8>,
) -> (result: Result<Effect, ModelError>)
    ensures
        match result {
            Ok(effect) => {
                &&& old(state)@.snap_error(bank_id as int, snap_id as int) is None
                &&& final(state)@ == old(state)@.apply_values(
                    bank_id as int,
                    snap_id as int,
                    values@,
                )
                &&& effect@ == EffectView::Publish(
                    EventView::AIGenerationCompleted { bank_id, snap_id, values: values@ },
                )
            },
            Err(e) => {
                &&& old(state)@.snap_error(bank_id as int, snap_id as int) == Some(e)
                &&& final(state)@ == old(state)@
            },
        },
{
    match state.apply_generated_values(bank_id, snap_id, &values) {
        Ok(()) => Ok(Effect::Publish(Event::AIGenerationCompleted { bank_id, snap_id, values })),
        Err(e) => Err(e),
    }
}

/// The notice that no values could be generated, to publish.
pub fn generation_failed(bank_id: usize, snap_id: usize, error: String) -> (effect: Effect)
    ensures
        effect@ == EffectView::Publish(
            EventView::AIGenerationFailed { bank_id, snap_id, error: error@ },
        ),
{
    Effect::Publish(Event::AIGenerationFailed { bank_id, snap_id, error })
}

} // verus!
