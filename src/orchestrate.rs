//! The decisions of the orchestration loop that do not wait on a model:
//! the text a policy is chosen from, how each step is prepared, and the
//! prompts and transcripts built around step results.
use vstd::prelude::*;
use crate::text::{lower_of, trim_of, decimal, lowercase, trim, usize_text};
use crate::types::Message;
use crate::step::{
    ExecStrategy, ExecutionContext, Step, ToolRegistry, classification, strategy_of, rendered,
    classify_step, decide_strategy, render_step_text,
};
use crate::policy::{with_year, substitute_year};

verus! {

/// The text of the latest message, lower-cased; empty without messages.
pub fn latest_user_text(messages: &Vec<Message>) -> (r: String)
    ensures
        messages.len() == 0 ==> r@ == Seq::<char>::empty(),
        messages.len() > 0 ==> r@ == lower_of(messages[messages.len() - 1].content@),
{
    let n = messages.len();
    if n == 0 {
        String::new()
    } else {
        lowercase(messages[n - 1].content.as_str())
    }
}

/// A step ready to run: classified, numbered, with its text rendered
/// against earlier results and its strategy chosen.
pub struct PreparedStep {
    pub step: Step,
    pub rendered: String,
    pub strategy: ExecStrategy,
}

pub fn prepare_step(
    instruction: &str,
    index: usize,
    ctx: &ExecutionContext,
    registry: &ToolRegistry,
) -> (r: PreparedStep)
    ensures
        r.step.id == index,
        r.step.text@ == instruction@,
        (r.step.kind, r.step.tool) == classification(instruction@, registry.matchers@),
        r.rendered@ == rendered(instruction@, ctx.results()),
        r.strategy == strategy_of(r.step.kind, r.step.tool),
{
    let mut step = classify_step(instruction, registry);
    step.id = index;
    let text = render_step_text(&step, ctx);
    let strategy = decide_strategy(&step);
    PreparedStep { step, rendered: text, strategy }
}

/// The calculator's input for a rendered step: a year-bearing latest result
/// is replaced by its year.
pub fn calculator_input(rendered_text: &str, ctx: &ExecutionContext) -> (r: String)
    ensures
        ctx.results().len() == 0 ==> r@ == rendered_text@,
        ctx.results().len() > 0 ==> r@ == with_year(rendered_text@, ctx.results().last().1),
{
    match ctx.last() {
        Some(prev) => substitute_year(rendered_text, prev.as_str()),
        None => rendered_text.to_owned(),
    }
}

/// The prompt for a probe or race step: the transcript so far, then the task.
pub fn task_prompt(history: &str, rendered_text: &str) -> (r: String)
    ensures
        r@ == "Context:\n"@ + trim_of(history@) + "\nTask: "@ + trim_of(rendered_text@),
{
    String::from_str("Context:\n").concat(trim(history)).concat("\nTask: ").concat(
        trim(rendered_text),
    )
}

/// One transcript entry for a finished step.
pub fn history_entry(id: usize, instruction: &str, result: &str) -> (r: String)
    ensures
        r@ == "Step "@ + decimal(id as nat) + ": "@ + instruction@ + "\nResult: "@ + result@ + "\n"@,
{
    let id_text = usize_text(id);
    String::from_str("Step ").concat(id_text.as_str()).concat(": ").concat(instruction).concat(
        "\nResult: ",
    ).concat(result).concat("\n")
}

/// One line of the final answer of a compound task.
pub fn step_line(instruction: &str, result: &str) -> (r: String)
    ensures
        r@ == instruction@ + " => "@ + result@,
{
    String::from_str(instruction).concat(" => ").concat(result)
}

/// `lines` joined by newlines.
pub open spec fn joined(lines: Seq<Seq<char>>) -> Seq<char>
    decreases lines.len(),
{
    if lines.len() == 0 {
        Seq::empty()
    } else if lines.len() == 1 {
        lines[0]
    } else {
        joined(lines.drop_last()) + "\n"@ + lines.last()
    }
}

pub fn join_lines(lines: &Vec<String>) -> (r: String)
    ensures
        r@ == joined(lines@.map_values(|s: String| s@)),
{
    let ghost ls = lines@.map_values(|s: String| s@);
    let n = lines.len();
    let mut out = String::new();
    let mut i: usize = 0;
    while i < n
        invariant
            n == lines.len(),
            ls == lines@.map_values(|s: String| s@),
            i <= n,
            out@ == joined(ls.take(i as int)),
        decreases n - i,
    {
        assert(ls.take(i as int + 1).drop_last() == ls.take(i as int));
        if i == 0 {
            out = lines[0].clone();
        } else {
            out = out.concat("\n").concat(lines[i].as_str());
        }
        i += 1;
    }
    assert(ls.take(n as int) == ls);
    out
}

/// The answer given when an internal stub produced nothing.
pub fn stub_failure(tool_name: &str) -> (r: String)
    ensures
        r@ == "stub "@ + tool_name@ + " failed"@,
{
    String::from_str("stub ").concat(tool_name).concat(" failed")
}

} // verus!
