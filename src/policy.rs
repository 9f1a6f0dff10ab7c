//! Top-level request routing and task decomposition: which execution policy
//! a request gets, how a compound goal becomes a list of step instructions,
//! and how a calculator step's input is prepared.
use vstd::prelude::*;
use crate::text::{
    has_sub, starts, has_digit, has_operator, lower_of, trim_of, word_count, is_digit, replaced,
    decimal, strip_leading, strip_trailing, contains, starts_with, lowercase, trim, count_words,
    any_digit, any_operator, replace, byte_len, utf8_len, usize_text, string_of, trim_start_matches, trim_end_matches,
};
use crate::parsers::{
    regex_hit, regex_group, parses_as_expression, json_string_list, matches_pattern,
    regex_first_group, is_expression, parse_string_list, MAX_EXPRESSION_CHARS,
};
use crate::types::ExecutionPolicy;
use crate::voting::views;

verus! {

/// A request that reads as pure arithmetic.
pub const MATH_PATTERN: &'static str = r"^[\d\s\+\-\*\/\(\)\.]+$";

/// A request for the current time or date.
pub const TIME_PATTERN: &'static str = r"\b(current|exact|system|what is the)\s+(time|date)\b";

/// A four-digit year of the twentieth or twenty-first century.
pub const YEAR_PATTERN: &'static str = r"\b(20\d{2}|19\d{2})\b";

/// Redundancy budget of a race: attempts launched.
pub const RACE_ATTEMPTS: usize = 5;

/// Redundancy budget of a race: lead that decides it.
pub const RACE_MARGIN: usize = 2;

/// The lower-cased request reads as several tasks at once: it holds a
/// sequencing connective, is long or comma-dense, or is one of the known
/// multi-clause phrasings that have a template plan.
pub open spec fn compound(l: Seq<char>) -> bool {
    has_sub(l, " then "@) || has_sub(l, "finally"@) || has_sub(l, ", also"@) || has_sub(
        l,
        " after that"@,
    ) || (has_sub(l, ", "@) && word_count(l) > 10) || word_count(l) > 15 || mixed_plan_request(l)
        || year_plan_request(l)
}

pub fn looks_compound(input: &str) -> (r: bool)
    ensures
        r == compound(input@),
{
    let wc = count_words(input);
    contains(input, " then ") || contains(input, "finally") || contains(input, ", also")
        || contains(input, " after that") || (contains(input, ", ") && wc > 10) || wc > 15
        || (contains(input, "calculate") && contains(input, "time") && contains(input, "pros")
        && contains(input, "cons")) || (contains(input, "extract the year") && contains(
        input,
        "2023",
    ) && contains(input, "multiply") && contains(input, "50"))
}

/// A character that survives arithmetic sanitizing.
pub open spec fn math_char(c: char) -> bool {
    is_digit(c) || c == '+' || c == '-' || c == '*' || c == '/' || c == '(' || c == ')' || c
        == '.' || c == ' '
}

/// Words separated by single spaces, scanning `t` left to right: the text so
/// far and whether a gap is pending before the next word.
pub open spec fn squeeze_scan(t: Seq<char>) -> (Seq<char>, bool)
    decreases t.len(),
{
    if t.len() == 0 {
        (Seq::empty(), false)
    } else {
        let (o, gap) = squeeze_scan(t.drop_last());
        let c = t.last();
        if c == ' ' {
            (o, o.len() > 0)
        } else if gap {
            (o.push(' ').push(c), false)
        } else {
            (o.push(c), false)
        }
    }
}

/// `t` with every non-arithmetic character blanked and the words joined by
/// single spaces.
pub open spec fn sanitized_math(t: Seq<char>) -> Seq<char> {
    squeeze_scan(t.map_values(|c: char| if math_char(c) { c } else { ' ' })).0
}

pub fn sanitize_math(text: &str) -> (r: String)
    ensures
        r@ == sanitized_math(text@),
{
    let ghost blanked = text@.map_values(|c: char| if math_char(c) { c } else { ' ' });
    let n = text.unicode_len();
    let mut out: Vec<char> = Vec::new();
    let mut gap = false;
    let mut i: usize = 0;
    while i < n
        invariant
            n == text@.len(),
            blanked == text@.map_values(|c: char| if math_char(c) { c } else { ' ' }),
            i <= n,
            (out@, gap) == squeeze_scan(blanked.take(i as int)),
        decreases n - i,
    {
        let raw = text.get_char(i);
        let c = if ('0' <= raw && raw <= '9') || raw == '+' || raw == '-' || raw == '*' || raw
            == '/' || raw == '(' || raw == ')' || raw == '.' || raw == ' ' {
            raw
        } else {
            ' '
        };
        assert(blanked.take(i as int + 1).drop_last() == blanked.take(i as int));
        assert(blanked.take(i as int + 1).last() == c);
        if c == ' ' {
            gap = out.len() > 0;
        } else {
            if gap {
                out.push(' ');
            }
            out.push(c);
            gap = false;
        }
        i += 1;
    }
    assert(blanked.take(n as int) == blanked);
    string_of(&out)
}

/// The sanitized arithmetic of `t`, when it is not empty, not longer than
/// the expression parser takes, and parses.
pub open spec fn math_expr(t: Seq<char>) -> Option<Seq<char>> {
    let c = sanitized_math(t);
    if c.len() > 0 && c.len() <= MAX_EXPRESSION_CHARS && parses_as_expression(c) {
        Some(c)
    } else {
        None
    }
}

pub fn extract_math_expr(input: &str) -> (r: Option<String>)
    ensures
        match r {
            Some(e) => math_expr(input@) == Some(e@),
            None => math_expr(input@) is None,
        },
{
    let candidate = sanitize_math(input);
    let n = candidate.as_str().unicode_len();
    if n == 0 || n > MAX_EXPRESSION_CHARS {
        return None;
    }
    if is_expression(candidate.as_str()) {
        Some(candidate)
    } else {
        None
    }
}

/// The request asks for arithmetic (tested on the trimmed text `p` and its lower case `l`).
pub open spec fn arithmetic(p: Seq<char>, l: Seq<char>) -> bool {
    regex_hit(MATH_PATTERN@, p) || ((starts(l, "calculate "@) || starts(l, "compute "@))
        && !has_sub(l, " and "@) && has_digit(p) && has_operator(p)) || math_expr(p) is Some
}

/// The lower-cased request asks for the time.
pub open spec fn time_request(l: Seq<char>) -> bool {
    regex_hit(TIME_PATTERN@, l) || has_sub(l, "current time"@) || has_sub(l, "system time"@) || (
    has_sub(l, "time"@) && (has_sub(l, "exact"@) || has_sub(l, "now"@)))
}

/// The lower-cased request asks for a list or a short enumeration.
pub open spec fn list_request(l: Seq<char>) -> bool {
    has_sub(l, "list"@) || has_sub(l, "pros"@) || has_sub(l, "cons"@) || has_sub(l, "concise"@)
        || has_sub(l, "under "@)
}

/// The shape of a policy: its variant, its text fields and its race budget.
pub type PolicyShape = (nat, Seq<char>, Seq<char>, nat, nat);

pub open spec fn shape(p: ExecutionPolicy) -> PolicyShape {
    match p {
        ExecutionPolicy::DecomposeAndExecute => (0, Seq::empty(), Seq::empty(), 0, 0),
        ExecutionPolicy::InternalStub { tool_name, args } => (1, tool_name@, args@, 0, 0),
        ExecutionPolicy::SingleProbe { prompt } => (2, prompt@, Seq::empty(), 0, 0),
        ExecutionPolicy::MakerRace { prompt, n, k } => (3, prompt@, Seq::empty(), n as nat, k as nat),
    }
}

/// The policy for a request, checking compounding (when allowed), then
/// arithmetic, then time, then lists, with a single probe as the default.
pub open spec fn intent(prompt: Seq<char>, allow_compound: bool) -> PolicyShape {
    let p = trim_of(prompt);
    let l = lower_of(p);
    if allow_compound && compound(l) {
        (0, Seq::empty(), Seq::empty(), 0, 0)
    } else if arithmetic(p, l) {
        (1, "calculator"@, p, 0, 0)
    } else if time_request(l) {
        (1, "system_time"@, Seq::empty(), 0, 0)
    } else if list_request(l) {
        (3, p, Seq::empty(), RACE_ATTEMPTS as nat, RACE_MARGIN as nat)
    } else {
        (2, p, Seq::empty(), 0, 0)
    }
}

pub fn classify_intent(prompt: &str, allow_compound: bool) -> (r: ExecutionPolicy)
    ensures
        shape(r) == intent(prompt@, allow_compound),
{
    let p = trim(prompt);
    let lower = lowercase(p);
    let l = lower.as_str();
    if allow_compound && looks_compound(l) {
        return ExecutionPolicy::DecomposeAndExecute;
    }
    let has_inline_math = any_digit(p) && any_operator(p);
    if matches_pattern(MATH_PATTERN, p) || ((starts_with(l, "calculate ") || starts_with(
        l,
        "compute ",
    )) && !contains(l, " and ") && has_inline_math) || extract_math_expr(p).is_some() {
        return ExecutionPolicy::InternalStub {
            tool_name: String::from_str("calculator"),
            args: p.to_owned(),
        };
    }
    let loose_time = contains(l, "current time") || contains(l, "system time") || (contains(
        l,
        "time",
    ) && (contains(l, "exact") || contains(l, "now")));
    if matches_pattern(TIME_PATTERN, l) || loose_time {
        let r = ExecutionPolicy::InternalStub {
            tool_name: String::from_str("system_time"),
            args: String::new(),
        };
        return r;
    }
    if contains(l, "list") || contains(l, "pros") || contains(l, "cons") || contains(l, "concise")
        || contains(l, "under ") {
        return ExecutionPolicy::MakerRace { prompt: p.to_owned(), n: RACE_ATTEMPTS, k: RACE_MARGIN };
    }
    ExecutionPolicy::SingleProbe { prompt: p.to_owned() }
}

/// The policy for the latest user text of a conversation, compounding allowed.
pub fn select_policy(latest_user_text: &str) -> (r: ExecutionPolicy)
    ensures
        shape(r) == intent(latest_user_text@, true),
{
    classify_intent(latest_user_text, true)
}

/// A decomposed instruction reads like an answer rather than an action.
pub open spec fn answer_like(l: Seq<char>) -> bool {
    has_sub(l, "pros:"@) || has_sub(l, "cons:"@) || has_sub(l, "http://"@) || has_sub(
        l,
        "https://"@,
    ) || has_sub(l, "202"@) || has_sub(l, "result:"@) || has_sub(l, "answer:"@)
}

/// Longest usable instruction, in UTF-8 bytes and in words.
pub const MAX_INSTRUCTION_BYTES: usize = 200;
pub const MAX_INSTRUCTION_WORDS: usize = 40;

/// A decomposed instruction is usable as a step: short and not answer-shaped.
pub open spec fn instruction_like(s: Seq<char>) -> bool {
    !(byte_len(s) > MAX_INSTRUCTION_BYTES || word_count(s) > MAX_INSTRUCTION_WORDS || answer_like(
        lower_of(s),
    ))
}

pub fn is_instruction_like(s: &str) -> (r: bool)
    ensures
        r == instruction_like(s@),
{
    let lower = lowercase(s);
    let l = lower.as_str();
    let is_too_long = utf8_len(s) > MAX_INSTRUCTION_BYTES || count_words(s)
        > MAX_INSTRUCTION_WORDS;
    let looks_like_answer = contains(l, "pros:") || contains(l, "cons:") || contains(l, "http://")
        || contains(l, "https://") || contains(l, "202") || contains(l, "result:") || contains(
        l,
        "answer:",
    );
    !(is_too_long || looks_like_answer)
}

pub const PLAN_CALCULATE: &'static str = "Calculate 15 * 23 + 7";
pub const PLAN_TIME: &'static str = "Get current system time";
pub const PLAN_LIST: &'static str = "List three concise pros and three concise cons of using Rust for backend APIs under 12 words each";
pub const PLAN_YEAR_DELTA: &'static str = "Compute ({prev} - 2023) * 50";
pub const PLAN_THRESHOLD: &'static str = "Is the result greater than 100? Give yes/no and value.";

/// The known multi-clause phrasing that mixes arithmetic, time and a pros/cons list.
pub open spec fn mixed_plan_request(l: Seq<char>) -> bool {
    has_sub(l, "calculate"@) && has_sub(l, "time"@) && has_sub(l, "pros"@) && has_sub(l, "cons"@)
}

/// The known phrasing that asks for arithmetic on the year of the current time.
pub open spec fn year_plan_request(l: Seq<char>) -> bool {
    has_sub(l, "extract the year"@) && has_sub(l, "2023"@) && has_sub(l, "multiply"@) && has_sub(
        l,
        "50"@,
    )
}

/// The template plan for a recognized phrasing.
pub open spec fn template_plan(prompt: Seq<char>) -> Option<Seq<Seq<char>>> {
    let l = lower_of(prompt);
    if mixed_plan_request(l) {
        Some(seq![PLAN_CALCULATE@, PLAN_TIME@, PLAN_LIST@])
    } else if year_plan_request(l) {
        Some(seq![PLAN_TIME@, PLAN_YEAR_DELTA@, PLAN_THRESHOLD@])
    } else {
        None
    }
}

/// The views of an optional list of strings.
pub open spec fn opt_views(o: Option<Vec<String>>) -> Option<Seq<Seq<char>>> {
    match o {
        Some(v) => Some(views(v@)),
        None => None,
    }
}

pub fn pattern_plan(prompt: &str) -> (r: Option<Vec<String>>)
    ensures
        opt_views(r) == template_plan(prompt@),
{
    let lower = lowercase(prompt);
    let l = lower.as_str();
    if contains(l, "calculate") && contains(l, "time") && contains(l, "pros") && contains(l, "cons") {
        let v = vec![
            String::from_str(PLAN_CALCULATE),
            String::from_str(PLAN_TIME),
            String::from_str(PLAN_LIST),
        ];
        assert(views(v@) =~= seq![PLAN_CALCULATE@, PLAN_TIME@, PLAN_LIST@]);
        return Some(v);
    }
    if contains(l, "extract the year") && contains(l, "2023") && contains(l, "multiply")
        && contains(l, "50") {
        let v = vec![
            String::from_str(PLAN_TIME),
            String::from_str(PLAN_YEAR_DELTA),
            String::from_str(PLAN_THRESHOLD),
        ];
        assert(views(v@) =~= seq![PLAN_TIME@, PLAN_YEAR_DELTA@, PLAN_THRESHOLD@]);
        return Some(v);
    }
    None
}

/// The decomposer's reply without surrounding whitespace and code fences.
pub open spec fn unfenced(raw: Seq<char>) -> Seq<char> {
    trim_of(
        strip_trailing(
            strip_leading(strip_leading(trim_of(raw), "```json"@), "```"@),
            "```"@,
        ),
    )
}

/// The entries of `list` that are usable instructions.
pub open spec fn usable(list: Seq<Seq<char>>) -> Seq<Seq<char>>
    decreases list.len(),
{
    if list.len() == 0 {
        list
    } else if instruction_like(list.last()) {
        usable(list.drop_last()).push(list.last())
    } else {
        usable(list.drop_last())
    }
}

/// The step instructions for `prompt` given the decomposer's `reply`: the
/// usable entries of the JSON array it holds; failing that, the template
/// plan; failing that, the whole prompt as a single step.
pub open spec fn plan_from(prompt: Seq<char>, reply: Seq<char>) -> Seq<Seq<char>> {
    let parsed = json_string_list(unfenced(reply));
    let steps = match parsed {
        Some(list) => usable(list),
        None => Seq::empty(),
    };
    if steps.len() > 0 {
        steps
    } else if template_plan(prompt) is Some {
        template_plan(prompt)->0
    } else {
        seq![prompt]
    }
}

fn strip_fences(raw: &str) -> (r: &str)
    ensures
        r@ == unfenced(raw@),
{
    let t = trim(raw);
    let a = trim_start_matches(t, "```json");
    let b = trim_start_matches(a, "```");
    let c = trim_end_matches(b, "```");
    trim(c)
}

fn keep_usable(list: Vec<String>) -> (r: Vec<String>)
    ensures
        views(r@) == usable(views(list@)),
{
    let ghost ls = views(list@);
    let n = list.len();
    let mut out: Vec<String> = Vec::new();
    let mut i: usize = 0;
    while i < n
        invariant
            n == list.len(),
            ls == views(list@),
            i <= n,
            views(out@) == usable(ls.take(i as int)),
        decreases n - i,
    {
        assert(ls.take(i as int + 1).drop_last() == ls.take(i as int));
        assert(ls.take(i as int + 1).last() == list[i as int]@);
        if is_instruction_like(list[i].as_str()) {
            out.push(list[i].clone());
            assert(views(out@) =~= usable(ls.take(i as int)).push(list[i as int]@));
        }
        i += 1;
    }
    assert(ls.take(n as int) == ls);
    out
}

/// Turns the decomposer's reply into step instructions, falling back to the
/// template plan and then to the whole prompt.
pub fn plan_from_reply(prompt: &str, reply: &str) -> (r: Vec<String>)
    ensures
        views(r@) == plan_from(prompt@, reply@),
        r.len() > 0,
{
    let clean = strip_fences(reply);
    let steps = match parse_string_list(clean) {
        Some(list) => keep_usable(list),
        None => {
            let v: Vec<String> = Vec::new();
            assert(views(v@) =~= Seq::<Seq<char>>::empty());
            v
        },
    };
    if steps.len() > 0 {
        return steps;
    }
    match pattern_plan(prompt) {
        Some(template) => {
            assert(views(template@).len() == template@.len());
            template
        },
        None => {
            let v = vec![prompt.to_owned()];
            assert(views(v@) =~= seq![prompt@]);
            v
        },
    }
}

/// The value of a decimal digit character.
pub open spec fn digit_value(c: char) -> nat {
    (c as nat - '0' as nat) as nat
}

/// The value of a run of decimal digits.
pub open spec fn digits_value(g: Seq<char>) -> nat
    decreases g.len(),
{
    if g.len() == 0 {
        0
    } else {
        digits_value(g.drop_last()) * 10 + digit_value(g.last())
    }
}

/// All characters of `g` are decimal digits.
pub open spec fn all_digits(g: Seq<char>) -> bool {
    forall|i: int| 0 <= i < g.len() ==> is_digit(#[trigger] g[i])
}

/// The year written in `t`, if a year pattern occurs there.
pub open spec fn year_in(t: Seq<char>) -> Option<nat> {
    match regex_group(YEAR_PATTERN@, t) {
        Some(g) => if 0 < g.len() <= 9 && all_digits(g) {
            Some(digits_value(g))
        } else {
            None
        },
        None => None,
    }
}

proof fn lemma_digits_bound(g: Seq<char>)
    requires
        all_digits(g),
    ensures
        digits_value(g) < pow10(g.len()),
    decreases g.len(),
{
    if g.len() > 0 {
        assert(all_digits(g.drop_last())) by {
            assert forall|i: int| 0 <= i < g.drop_last().len() implies is_digit(
                #[trigger] g.drop_last()[i],
            ) by {
                assert(g.drop_last()[i] == g[i]);
            }
        }
        lemma_digits_bound(g.drop_last());
        assert(is_digit(g[g.len() - 1]));
    }
}

/// Ten to the power `n`.
pub open spec fn pow10(n: nat) -> nat
    decreases n,
{
    if n == 0 {
        1
    } else {
        10 * pow10((n - 1) as nat)
    }
}

/// The value of a run of at most nine decimal digits; `None` for anything else.
pub fn parse_digits(g: &str) -> (r: Option<u32>)
    ensures
        match r {
            Some(v) => 0 < g@.len() <= 9 && all_digits(g@) && v == digits_value(g@),
            None => !(0 < g@.len() <= 9 && all_digits(g@)),
        },
{
    let n = g.unicode_len();
    if n == 0 || n > 9 {
        return None;
    }
    let mut v: u32 = 0;
    let mut i: usize = 0;
    while i < n
        invariant
            n == g@.len(),
            0 < n <= 9,
            i <= n,
            all_digits(g@.take(i as int)),
            v == digits_value(g@.take(i as int)),
            v < pow10(i as nat),
        decreases n - i,
    {
        let c = g.get_char(i);
        if !('0' <= c && c <= '9') {
            assert(!all_digits(g@)) by {
                assert(!is_digit(g@[i as int]));
            }
            return None;
        }
        assert(g@.take(i as int + 1).drop_last() == g@.take(i as int));
        assert(pow10(i as nat + 1) == 10 * pow10(i as nat));
        assert(pow10(i as nat) <= 100000000) by {
            lemma_pow10_le(i as nat, 8);
            assert(pow10(0) == 1);
            assert(pow10(1) == 10);
            assert(pow10(2) == 100);
            assert(pow10(3) == 1000);
            assert(pow10(4) == 10000);
            assert(pow10(5) == 100000);
            assert(pow10(6) == 1000000);
            assert(pow10(7) == 10000000);
            assert(pow10(8) == 100000000);
        }
        let d = (c as u32) - ('0' as u32);
        v = v * 10 + d;
        assert(all_digits(g@.take(i as int + 1))) by {
            assert forall|j: int| 0 <= j < i + 1 implies is_digit(
                #[trigger] g@.take(i as int + 1)[j],
            ) by {
                if j < i {
                    assert(g@.take(i as int + 1)[j] == g@.take(i as int)[j]);
                }
            }
        }
        i += 1;
    }
    assert(g@.take(n as int) == g@);
    Some(v)
}

proof fn lemma_pow10_le(i: nat, m: nat)
    requires
        i <= m,
    ensures
        pow10(i) <= pow10(m),
    decreases m,
{
    if i < m {
        lemma_pow10_le(i, (m - 1) as nat);
    }
}

pub fn extract_year(text: &str) -> (r: Option<u32>)
    ensures
        match r {
            Some(y) => year_in(text@) == Some(y as nat),
            None => year_in(text@) is None,
        },
{
    match regex_first_group(YEAR_PATTERN, text) {
        Some(g) => parse_digits(g.as_str()),
        None => None,
    }
}

/// A calculator step's text once a year-bearing previous result is
/// replaced by the year alone.
pub open spec fn with_year(rendered: Seq<char>, prev: Seq<char>) -> Seq<char> {
    match year_in(prev) {
        Some(y) => replaced(rendered, prev, decimal(y)),
        None => rendered,
    }
}

pub fn substitute_year(rendered: &str, prev: &str) -> (r: String)
    ensures
        r@ == with_year(rendered@, prev@),
{
    match extract_year(prev) {
        Some(year) => {
            let y = usize_text(year as usize);
            replace(rendered, prev, y.as_str())
        },
        None => rendered.to_owned(),
    }
}

} // verus!
