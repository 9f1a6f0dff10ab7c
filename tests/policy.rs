use boomai::policy::{
    classify_intent, extract_math_expr, extract_year, is_instruction_like, looks_compound,
    parse_digits, pattern_plan, plan_from_reply, sanitize_math, select_policy, substitute_year,
};
use boomai::step::{
    classify_step, decide_strategy, is_reasoning_like, looks_like_math_instruction,
    render_step_text, ExecStrategy, ExecutionContext, Step, StepKind, ToolKind, ToolRegistry,
};
use boomai::types::ExecutionPolicy;

#[test]
fn arithmetic_question_goes_to_calculator() {
    match select_policy("what is 15 * 23 + 7") {
        ExecutionPolicy::InternalStub { tool_name, args } => {
            assert_eq!(tool_name, "calculator");
            assert_eq!(args, "what is 15 * 23 + 7");
        }
        other => panic!("unexpected policy {:?}", other),
    }
}

#[test]
fn time_question_goes_to_clock() {
    match select_policy("what is the current system time") {
        ExecutionPolicy::InternalStub { tool_name, args } => {
            assert_eq!(tool_name, "system_time");
            assert_eq!(args, "");
        }
        other => panic!("unexpected policy {:?}", other),
    }
}

#[test]
fn list_request_races() {
    match select_policy("list three pros and three cons of rust for backend apis") {
        ExecutionPolicy::MakerRace { prompt, n, k } => {
            assert_eq!(n, 5);
            assert_eq!(k, 2);
            assert_eq!(prompt, "list three pros and three cons of rust for backend apis");
        }
        other => panic!("unexpected policy {:?}", other),
    }
    assert!(matches!(
        classify_intent("list three pros and three cons of rust for backend apis", false),
        ExecutionPolicy::MakerRace { n: 5, k: 2, .. }
    ));
}

#[test]
fn compounding_is_checked_first() {
    assert!(matches!(
        select_policy("calculate 2 + 2 and then tell me the time"),
        ExecutionPolicy::DecomposeAndExecute
    ));
    assert!(matches!(
        select_policy("Calculate 15*23+7, get the time, and list pros and cons"),
        ExecutionPolicy::DecomposeAndExecute
    ));
    assert!(matches!(
        select_policy("extract the year from 2023 and multiply by 50"),
        ExecutionPolicy::DecomposeAndExecute
    ));
    assert!(matches!(
        classify_intent("calculate 2 + 2 and then tell me the time", false),
        ExecutionPolicy::InternalStub { .. }
    ));
}

#[test]
fn long_operator_runs_are_not_parsed() {
    let text = format!("{}1", "-".repeat(3000));
    assert_eq!(extract_math_expr(&text), None);
    assert!(matches!(select_policy(&text), ExecutionPolicy::InternalStub { .. }));
}

#[test]
fn plain_question_is_a_single_probe() {
    match select_policy("  Who wrote Hamlet?  ") {
        ExecutionPolicy::SingleProbe { prompt } => assert_eq!(prompt, "Who wrote Hamlet?"),
        other => panic!("unexpected policy {:?}", other),
    }
}

#[test]
fn pure_arithmetic_and_calculate_verb_go_to_calculator() {
    assert!(matches!(select_policy("(1 + 2) * 3"), ExecutionPolicy::InternalStub { .. }));
    assert!(matches!(select_policy("Calculate 6/3"), ExecutionPolicy::InternalStub { .. }));
}

#[test]
fn calculate_step_names_the_calculator() {
    let registry = ToolRegistry::new();
    let step = classify_step("Calculate 15 * 23", &registry);
    assert_eq!(step.tool, Some(ToolKind::Calculator));
    assert_eq!(step.kind, StepKind::Tool);
    assert_eq!(step.id, 0);
    assert_eq!(step.text, "Calculate 15 * 23");
    assert_eq!(decide_strategy(&step), ExecStrategy::ToolCall(ToolKind::Calculator));
}

#[test]
fn step_kinds_follow_the_check_order() {
    let registry = ToolRegistry::new();
    let time = classify_step("Get current system time", &registry);
    assert_eq!((time.kind, time.tool), (StepKind::Tool, Some(ToolKind::SystemTime)));
    assert_eq!(decide_strategy(&time), ExecStrategy::ToolCall(ToolKind::SystemTime));

    let pros = classify_step("List the pros of Rust", &registry);
    assert_eq!((pros.kind, pros.tool), (StepKind::Reasoning, None));
    assert_eq!(decide_strategy(&pros), ExecStrategy::MakerRace { n: 5, k: 2 });

    let math = classify_step("take the square root power 2 of 9", &registry);
    assert_eq!((math.kind, math.tool), (StepKind::Math, Some(ToolKind::Calculator)));

    let plain = classify_step("Say hello", &registry);
    assert_eq!((plain.kind, plain.tool), (StepKind::Reasoning, None));
}

#[test]
fn tool_kind_without_tool_is_a_single_probe() {
    let step = Step { id: 3, text: "x".to_string(), kind: StepKind::Tool, tool: None };
    assert_eq!(decide_strategy(&step), ExecStrategy::SingleProbe);
    let step = Step { id: 3, text: "x".to_string(), kind: StepKind::Math, tool: None };
    assert_eq!(decide_strategy(&step), ExecStrategy::ToolCall(ToolKind::Calculator));
}

#[test]
fn registry_matches_lower_cased_text() {
    let registry = ToolRegistry::new();
    assert_eq!(registry.match_tool("WHAT TIME IS IT"), Some(ToolKind::SystemTime));
    assert_eq!(registry.match_tool("ADD 2 AND 3"), Some(ToolKind::Calculator));
    assert_eq!(registry.match_tool("hello"), None);
}

#[test]
fn heuristic_word_lists() {
    assert!(is_reasoning_like("Please SUMMARIZE this"));
    assert!(!is_reasoning_like("Calculate 1 + 1"));
    assert!(looks_like_math_instruction("Multiply 3 by 4"));
    assert!(looks_like_math_instruction("3-4"));
    assert!(!looks_like_math_instruction("multiply these"));
}

#[test]
fn placeholders_are_filled_from_context() {
    let mut ctx = ExecutionContext::new();
    ctx.insert(0, "2024-05-01 10:00:00".to_string());
    ctx.insert(1, "42".to_string());
    let step = Step {
        id: 2,
        text: "Use {step0} and {step1}, then {prev}".to_string(),
        kind: StepKind::Reasoning,
        tool: None,
    };
    assert_eq!(render_step_text(&step, &ctx), "Use 2024-05-01 10:00:00 and 42, then 42");
    ctx.insert(0, "again".to_string());
    assert_eq!(render_step_text(&step, &ctx), "Use again and 42, then again");
}

#[test]
fn prev_without_results_stays() {
    let ctx = ExecutionContext::new();
    let step = Step { id: 0, text: "x {prev} {step7}".to_string(), kind: StepKind::Math, tool: None };
    assert_eq!(render_step_text(&step, &ctx), "x {prev} {step7}");
}

#[test]
fn compound_detection() {
    assert!(looks_compound("do this then that"));
    assert!(looks_compound("one two three four five six seven eight nine ten eleven twelve thirteen fourteen fifteen sixteen"));
    assert!(looks_compound("a, b c d e f g h i j k"));
    assert!(!looks_compound("a, b c d e f g h i j"));
    assert!(!looks_compound("what is 2 + 2"));
    assert!(!looks_compound("list three pros and three cons of rust for backend apis"));
    assert!(looks_compound("first do this, after that do the next thing"));
}

#[test]
fn math_sanitizing_and_extraction() {
    assert_eq!(sanitize_math("calculate  42 / 7 +\t3 please"), "42 / 7 + 3");
    assert_eq!(sanitize_math("no math here"), "");
    assert_eq!(extract_math_expr("what is 15 * 23 + 7"), Some("15 * 23 + 7".to_string()));
    assert_eq!(extract_math_expr("hello"), None);
    assert_eq!(extract_math_expr("1 ) ("), None);
}

#[test]
fn instruction_filter() {
    assert!(is_instruction_like("Calculate 15 * 3"));
    assert!(!is_instruction_like("Result: 45"));
    assert!(!is_instruction_like("see https://example.com"));
    assert!(!is_instruction_like(&"word ".repeat(41)));
    assert!(!is_instruction_like(&"x".repeat(201)));
    assert!(is_instruction_like(&"x".repeat(200)));
    assert!(!is_instruction_like(&"é".repeat(101)));
}

#[test]
fn template_plans() {
    let plan = pattern_plan("Calculate 15*23+7, get the time, and list pros and cons").unwrap();
    assert_eq!(plan.len(), 3);
    assert_eq!(plan[0], "Calculate 15 * 23 + 7");
    let plan = pattern_plan("extract the year from 2023 and multiply by 50").unwrap();
    assert_eq!(plan[1], "Compute ({prev} - 2023) * 50");
    assert!(pattern_plan("hello").is_none());
}

#[test]
fn plans_from_decomposer_replies() {
    let plan = plan_from_reply("goal", "```json\n[\"Calculate 15 * 3\", \"Result: 45\", \"Get current system time\"]\n```");
    assert_eq!(plan, vec!["Calculate 15 * 3".to_string(), "Get current system time".to_string()]);
    assert_eq!(plan_from_reply("do a thing", "not json"), vec!["do a thing".to_string()]);
    assert_eq!(plan_from_reply("do a thing", "[\"Answer: 3\"]"), vec!["do a thing".to_string()]);
    let fallback = plan_from_reply("calculate, time, pros and cons", "[]");
    assert_eq!(fallback.len(), 3);
}

#[test]
fn years_are_found_and_substituted() {
    assert_eq!(extract_year("2024-05-01 10:00:00"), Some(2024));
    assert_eq!(extract_year("in 1999."), Some(1999));
    assert_eq!(extract_year("12024"), None);
    assert_eq!(extract_year("no year"), None);
    assert_eq!(parse_digits("0042"), Some(42));
    assert_eq!(parse_digits("4a"), None);
    assert_eq!(parse_digits(""), None);
    assert_eq!(
        substitute_year("Compute (2024-05-01 10:00:00 - 2023) * 50", "2024-05-01 10:00:00"),
        "Compute (2024 - 2023) * 50"
    );
    assert_eq!(substitute_year("Compute 1 + 1", "no year"), "Compute 1 + 1");
}
