//! Steps of a decomposed task: what kind each step is, which deterministic
//! tool it names, how it is executed, and how earlier results are stitched
//! into its text.
use vstd::prelude::*;
use crate::text::{has_sub, has_digit, has_operator, lower_of, decimal, replaced, contains, lowercase, any_digit, any_operator, replace, usize_text};
use crate::parsers::{regex_hit, matches_pattern};

verus! {

#[derive(Debug, Clone, Copy, PartialEq, Eq, Structural)]
pub enum StepKind {
    Tool,
    Math,
    Reasoning,
}

/// A deterministic capability that free text can name.
#[derive(Debug, Clone, Copy, PartialEq, Eq, Structural)]
pub enum ToolKind {
    SystemTime,
    Calculator,
}

/// One atomic unit of a decomposed task.
#[derive(Debug, Clone)]
pub struct Step {
    pub id: usize,
    pub text: String,
    pub kind: StepKind,
    pub tool: Option<ToolKind>,
}

/// How one step is carried out.
#[derive(Debug, Clone, Copy, PartialEq, Eq, Structural)]
pub enum ExecStrategy {
    ToolCall(ToolKind),
    SingleProbe,
    MakerRace { n: usize, k: usize },
}

/// Patterns that name the system clock.
pub const TIME_PATTERN_CURRENT: &'static str = r"\bcurrent (system )?time\b";
pub const TIME_PATTERN_EXACT: &'static str = r"\bexact current time\b";
pub const TIME_PATTERN_QUESTION: &'static str = r"\bwhat time is it\b";
pub const TIME_PATTERN_NOW: &'static str = r"\bnow time\b";
pub const TIME_PATTERN_SYSTEM: &'static str = r"\bsystem time\b";

/// Patterns that name an arithmetic task.
pub const CALC_PATTERN_EXPRESSION: &'static str = r"[0-9][0-9\+\-\*/\s\(\)\.]*[0-9]";
pub const CALC_PATTERN_VERB: &'static str = r"\b(add|sum|plus|subtract|minus|times|multiply|divide)\b";
pub const CALC_PATTERN_CALCULATE: &'static str = r"\bcalculate\b";
pub const CALC_PATTERN_COMPUTE: &'static str = r"\bcompute\b";

/// Some clock pattern matches `t`.
pub open spec fn time_hit(t: Seq<char>) -> bool {
    regex_hit(TIME_PATTERN_CURRENT@, t) || regex_hit(TIME_PATTERN_EXACT@, t) || regex_hit(
        TIME_PATTERN_QUESTION@,
        t,
    ) || regex_hit(TIME_PATTERN_NOW@, t) || regex_hit(TIME_PATTERN_SYSTEM@, t)
}

/// Some arithmetic pattern matches `t`.
pub open spec fn calc_hit(t: Seq<char>) -> bool {
    regex_hit(CALC_PATTERN_EXPRESSION@, t) || regex_hit(CALC_PATTERN_VERB@, t) || regex_hit(
        CALC_PATTERN_CALCULATE@,
        t,
    ) || regex_hit(CALC_PATTERN_COMPUTE@, t)
}

/// `t` holds one of the verbs that the calculator matcher accepts.
pub open spec fn calc_word(t: Seq<char>) -> bool {
    has_sub(t, "add"@) || has_sub(t, "sum"@) || has_sub(t, "plus"@) || has_sub(t, "subtract"@)
        || has_sub(t, "minus"@) || has_sub(t, "multiply"@) || has_sub(t, "divide"@) || has_sub(
        t,
        "calculate"@,
    ) || has_sub(t, "compute"@) || has_sub(t, "times"@)
}

/// Whether the matcher of tool `kind` accepts the (lower-cased) text `t`.
pub open spec fn tool_accepts(kind: ToolKind, t: Seq<char>) -> bool {
    match kind {
        ToolKind::SystemTime => time_hit(t),
        ToolKind::Calculator => calc_hit(t) && has_digit(t) && (has_operator(t) || calc_word(t)),
    }
}

/// Detects whether free text names one tool.
pub trait ToolMatcher {
    spec fn accepts(&self, text: Seq<char>) -> bool;

    fn kind(&self) -> (r: ToolKind);

    fn matches(&self, text: &str) -> (r: bool)
        ensures
            r == self.accepts(text@),
    ;
}

/// Recognizes requests for the system clock.
pub struct SystemTimeMatcher;

/// Recognizes arithmetic requests.
pub struct CalculatorMatcher;

fn any_time_pattern(text: &str) -> (r: bool)
    ensures
        r == time_hit(text@),
{
    matches_pattern(TIME_PATTERN_CURRENT, text) || matches_pattern(TIME_PATTERN_EXACT, text)
        || matches_pattern(TIME_PATTERN_QUESTION, text) || matches_pattern(TIME_PATTERN_NOW, text)
        || matches_pattern(TIME_PATTERN_SYSTEM, text)
}

fn any_calc_pattern(text: &str) -> (r: bool)
    ensures
        r == calc_hit(text@),
{
    matches_pattern(CALC_PATTERN_EXPRESSION, text) || matches_pattern(CALC_PATTERN_VERB, text)
        || matches_pattern(CALC_PATTERN_CALCULATE, text) || matches_pattern(
        CALC_PATTERN_COMPUTE,
        text,
    )
}

fn any_calc_word(t: &str) -> (r: bool)
    ensures
        r == calc_word(t@),
{
    contains(t, "add") || contains(t, "sum") || contains(t, "plus") || contains(t, "subtract")
        || contains(t, "minus") || contains(t, "multiply") || contains(t, "divide") || contains(
        t,
        "calculate",
    ) || contains(t, "compute") || contains(t, "times")
}

impl ToolMatcher for SystemTimeMatcher {
    open spec fn accepts(&self, text: Seq<char>) -> bool {
        tool_accepts(ToolKind::SystemTime, text)
    }

    fn kind(&self) -> (r: ToolKind)
        ensures
            r == ToolKind::SystemTime,
    {
        ToolKind::SystemTime
    }

    fn matches(&self, text: &str) -> (r: bool) {
        any_time_pattern(text)
    }
}

impl ToolMatcher for CalculatorMatcher {
    open spec fn accepts(&self, text: Seq<char>) -> bool {
        tool_accepts(ToolKind::Calculator, text)
    }

    fn kind(&self) -> (r: ToolKind)
        ensures
            r == ToolKind::Calculator,
    {
        ToolKind::Calculator
    }

    fn matches(&self, text: &str) -> (r: bool) {
        let has_digit = any_digit(text);
        let has_operator = any_operator(text);
        let has_math_word = any_calc_word(text);
        any_calc_pattern(text) && has_digit && (has_operator || has_math_word)
    }
}

/// The first tool of `kinds` whose matcher accepts `t`.
pub open spec fn first_match(kinds: Seq<ToolKind>, t: Seq<char>) -> Option<ToolKind>
    decreases kinds.len(),
{
    if kinds.len() == 0 {
        None
    } else if tool_accepts(kinds[0], t) {
        Some(kinds[0])
    } else {
        first_match(kinds.drop_first(), t)
    }
}

/// An ordered table of tool matchers; the first that accepts a text wins.
#[derive(Debug, Clone)]
pub struct ToolRegistry {
    pub matchers: Vec<ToolKind>,
}

impl Default for ToolRegistry {
    fn default() -> (r: ToolRegistry)
        ensures
            r.matchers@ == seq![ToolKind::SystemTime, ToolKind::Calculator],
    {
        ToolRegistry::new()
    }
}

impl ToolRegistry {
    /// The clock matcher, then the calculator matcher.
    pub fn new() -> (r: ToolRegistry)
        ensures
            r.matchers@ == seq![ToolKind::SystemTime, ToolKind::Calculator],
    {
        let r = ToolRegistry { matchers: vec![ToolKind::SystemTime, ToolKind::Calculator] };
        assert(r.matchers@ =~= seq![ToolKind::SystemTime, ToolKind::Calculator]);
        r
    }

    /// The first tool whose matcher accepts the lower-cased `text`.
    pub fn match_tool(&self, text: &str) -> (r: Option<ToolKind>)
        ensures
            r == first_match(self.matchers@, lower_of(text@)),
    {
        let p = lowercase(text);
        let n = self.matchers.len();
        let mut i: usize = 0;
        assert(self.matchers@.subrange(0, n as int) =~= self.matchers@);
        while i < n
            invariant
                n == self.matchers.len(),
                i <= n,
                p@ == lower_of(text@),
                first_match(self.matchers@, p@) == first_match(
                    self.matchers@.subrange(i as int, n as int),
                    p@,
                ),
            decreases n - i,
        {
            let kind = self.matchers[i];
            let hit = match kind {
                ToolKind::SystemTime => SystemTimeMatcher.matches(p.as_str()),
                ToolKind::Calculator => CalculatorMatcher.matches(p.as_str()),
            };
            assert(self.matchers@.subrange(i as int, n as int).drop_first()
                =~= self.matchers@.subrange(i + 1, n as int));
            if hit {
                return Some(kind);
            }
            i += 1;
        }
        None
    }
}

/// Words that mark open-ended reasoning.
pub open spec fn reasoning_like(l: Seq<char>) -> bool {
    has_sub(l, "pros"@) || has_sub(l, "cons"@) || has_sub(l, "list"@) || has_sub(l, "concise"@)
        || has_sub(l, "compare"@) || has_sub(l, "contrast"@) || has_sub(l, "explain"@) || has_sub(
        l,
        "summary"@,
    ) || has_sub(l, "summarize"@) || has_sub(l, "advantages"@) || has_sub(l, "disadvantages"@)
        || has_sub(l, "greater than"@)
}

/// Verbs that mark an arithmetic instruction.
pub open spec fn math_word(l: Seq<char>) -> bool {
    has_sub(l, "sum"@) || has_sub(l, "add"@) || has_sub(l, "subtract"@) || has_sub(l, "multiply"@)
        || has_sub(l, "divide"@) || has_sub(l, "calculate"@) || has_sub(l, "compute"@) || has_sub(
        l,
        "plus"@,
    ) || has_sub(l, "minus"@) || has_sub(l, "times"@) || has_sub(l, "power"@) || has_sub(
        l,
        "sqrt"@,
    )
}

/// The lower-cased text reads as arithmetic: a digit, and a math verb or operator.
pub open spec fn math_instruction(l: Seq<char>) -> bool {
    has_digit(l) && (math_word(l) || has_operator(l))
}

pub fn is_reasoning_like(text: &str) -> (r: bool)
    ensures
        r == reasoning_like(lower_of(text@)),
{
    let lower = lowercase(text);
    let l = lower.as_str();
    contains(l, "pros") || contains(l, "cons") || contains(l, "list") || contains(l, "concise")
        || contains(l, "compare") || contains(l, "contrast") || contains(l, "explain") || contains(
        l,
        "summary",
    ) || contains(l, "summarize") || contains(l, "advantages") || contains(l, "disadvantages")
        || contains(l, "greater than")
}

pub fn looks_like_math_instruction(text: &str) -> (r: bool)
    ensures
        r == math_instruction(lower_of(text@)),
{
    let lower = lowercase(text);
    let l = lower.as_str();
    let has_math_word = contains(l, "sum") || contains(l, "add") || contains(l, "subtract")
        || contains(l, "multiply") || contains(l, "divide") || contains(l, "calculate") || contains(
        l,
        "compute",
    ) || contains(l, "plus") || contains(l, "minus") || contains(l, "times") || contains(
        l,
        "power",
    ) || contains(l, "sqrt");
    let has_operator = any_operator(l);
    let has_digit = any_digit(l);
    has_digit && (has_math_word || has_operator)
}

/// The kind and tool of a step with text `t`, given the tools of the registry.
pub open spec fn classification(t: Seq<char>, kinds: Seq<ToolKind>) -> (StepKind, Option<ToolKind>) {
    if reasoning_like(lower_of(t)) {
        (StepKind::Reasoning, None)
    } else if first_match(kinds, lower_of(t)) is Some {
        (StepKind::Tool, first_match(kinds, lower_of(t)))
    } else if math_instruction(lower_of(t)) {
        (StepKind::Math, Some(ToolKind::Calculator))
    } else {
        (StepKind::Reasoning, None)
    }
}

/// A step for `text`: reasoning keywords first, then a tool signature,
/// then arithmetic, and reasoning otherwise. Its id is left at zero.
pub fn classify_step(text: &str, registry: &ToolRegistry) -> (r: Step)
    ensures
        r.id == 0,
        r.text@ == text@,
        (r.kind, r.tool) == classification(text@, registry.matchers@),
{
    if is_reasoning_like(text) {
        return Step { id: 0, text: text.to_owned(), kind: StepKind::Reasoning, tool: None };
    }
    match registry.match_tool(text) {
        Some(tool) => {
            return Step { id: 0, text: text.to_owned(), kind: StepKind::Tool, tool: Some(tool) };
        },
        None => {},
    }
    if looks_like_math_instruction(text) {
        return Step {
            id: 0,
            text: text.to_owned(),
            kind: StepKind::Math,
            tool: Some(ToolKind::Calculator),
        };
    }
    Step { id: 0, text: text.to_owned(), kind: StepKind::Reasoning, tool: None }
}

/// How a step of this kind and tool is executed.
pub open spec fn strategy_of(kind: StepKind, tool: Option<ToolKind>) -> ExecStrategy {
    match tool {
        Some(t) => ExecStrategy::ToolCall(t),
        None => match kind {
            StepKind::Tool => ExecStrategy::SingleProbe,
            StepKind::Math => ExecStrategy::ToolCall(ToolKind::Calculator),
            StepKind::Reasoning => ExecStrategy::MakerRace { n: 5, k: 2 },
        },
    }
}

pub fn decide_strategy(step: &Step) -> (r: ExecStrategy)
    ensures
        r == strategy_of(step.kind, step.tool),
{
    match step.tool {
        Some(tool) => ExecStrategy::ToolCall(tool),
        None => match step.kind {
            StepKind::Tool => ExecStrategy::SingleProbe,
            StepKind::Math => ExecStrategy::ToolCall(ToolKind::Calculator),
            StepKind::Reasoning => ExecStrategy::MakerRace { n: 5, k: 2 },
        },
    }
}

/// The results of the steps run so far, oldest first, one per step id.
#[derive(Debug, Clone)]
pub struct ExecutionContext {
    pub step_results: Vec<(usize, String)>,
}

/// The ids and result texts of a list of step results.
pub open spec fn result_views(es: Seq<(usize, String)>) -> Seq<(usize, Seq<char>)> {
    es.map_values(|e: (usize, String)| (e.0, e.1@))
}

/// `es` without the entries for step `id`.
pub open spec fn without_id(es: Seq<(usize, Seq<char>)>, id: usize) -> Seq<(usize, Seq<char>)>
    decreases es.len(),
{
    if es.len() == 0 {
        es
    } else if es.last().0 == id {
        without_id(es.drop_last(), id)
    } else {
        without_id(es.drop_last(), id).push(es.last())
    }
}

impl ExecutionContext {
    pub open spec fn results(&self) -> Seq<(usize, Seq<char>)> {
        result_views(self.step_results@)
    }

    pub fn new() -> (r: ExecutionContext)
        ensures
            r.results() == Seq::<(usize, Seq<char>)>::empty(),
    {
        let r = ExecutionContext { step_results: Vec::new() };
        assert(r.results() =~= Seq::<(usize, Seq<char>)>::empty());
        r
    }

    /// Stores the result of step `id`, as the most recent one.
    pub fn insert(&mut self, id: usize, result: String)
        ensures
            final(self).results() == without_id(old(self).results(), id).push((id, result@)),
    {
        let ghost old_es = self.results();
        let n = self.step_results.len();
        let mut kept: Vec<(usize, String)> = Vec::new();
        let mut i: usize = 0;
        while i < n
            invariant
                n == self.step_results.len(),
                old_es == result_views(self.step_results@),
                i <= n,
                result_views(kept@) == without_id(old_es.take(i as int), id),
            decreases n - i,
        {
            let e = &self.step_results[i];
            assert(old_es.take(i as int + 1).drop_last() == old_es.take(i as int));
            if e.0 != id {
                kept.push((e.0, e.1.clone()));
                assert(result_views(kept@) =~= without_id(old_es.take(i as int), id).push(
                    old_es[i as int],
                ));
            }
            i += 1;
        }
        assert(old_es.take(n as int) == old_es);
        kept.push((id, result));
        assert(result_views(kept@) =~= without_id(old_es, id).push((id, result@)));
        self.step_results = kept;
    }

    /// The result stored last, if any.
    pub fn last(&self) -> (r: Option<&String>)
        ensures
            self.results().len() == 0 ==> r is None,
            self.results().len() > 0 ==> r is Some && r->0@ == self.results().last().1,
    {
        let n = self.step_results.len();
        if n == 0 {
            None
        } else {
            Some(&self.step_results[n - 1].1)
        }
    }
}

/// The placeholder that stands for the result of step `id`.
pub open spec fn step_placeholder(id: usize) -> Seq<char> {
    "{step"@ + decimal(id as nat) + "}"@
}

/// `t` with the placeholders of the results `es` filled in, oldest first.
pub open spec fn fill_steps(t: Seq<char>, es: Seq<(usize, Seq<char>)>) -> Seq<char>
    decreases es.len(),
{
    if es.len() == 0 {
        t
    } else {
        let prior = fill_steps(t, es.drop_last());
        let ph = step_placeholder(es.last().0);
        if has_sub(prior, ph) {
            replaced(prior, ph, es.last().1)
        } else {
            prior
        }
    }
}

/// The text of a step once earlier results are stitched in: every step
/// placeholder, then the placeholder for the latest result.
pub open spec fn rendered(t: Seq<char>, es: Seq<(usize, Seq<char>)>) -> Seq<char> {
    let filled = fill_steps(t, es);
    if has_sub(filled, "{prev}"@) && es.len() > 0 {
        replaced(filled, "{prev}"@, es.last().1)
    } else {
        filled
    }
}

fn step_placeholder_text(id: usize) -> (r: String)
    ensures
        r@ == step_placeholder(id),
{
    let digits = usize_text(id);
    let head = String::from_str("{step").concat(digits.as_str());
    head.concat("}")
}

pub fn render_step_text(step: &Step, ctx: &ExecutionContext) -> (r: String)
    ensures
        r@ == rendered(step.text@, ctx.results()),
{
    let ghost es = ctx.results();
    let mut out = step.text.clone();
    let n = ctx.step_results.len();
    let mut i: usize = 0;
    while i < n
        invariant
            n == ctx.step_results.len(),
            es == ctx.results(),
            i <= n,
            out@ == fill_steps(step.text@, es.take(i as int)),
        decreases n - i,
    {
        let e = &ctx.step_results[i];
        let ph = step_placeholder_text(e.0);
        assert(es.take(i as int + 1).drop_last() == es.take(i as int));
        if contains(out.as_str(), ph.as_str()) {
            out = replace(out.as_str(), ph.as_str(), e.1.as_str());
        }
        i += 1;
    }
    assert(es.take(n as int) == es);
    if contains(out.as_str(), "{prev}") {
        match ctx.last() {
            Some(last) => {
                out = replace(out.as_str(), "{prev}", last.as_str());
            },
            None => {},
        }
    }
    out
}

} // verus!
