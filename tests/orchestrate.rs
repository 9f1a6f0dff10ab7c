use boomai::local::LocalModelManager;
use boomai::orchestrate::{
    calculator_input, history_entry, join_lines, latest_user_text, prepare_step, step_line,
    stub_failure, task_prompt,
};
use boomai::step::{ExecStrategy, ExecutionContext, StepKind, ToolKind, ToolRegistry};
use boomai::types::{InstalledLocalModel, Message, ModelId, Role};

#[test]
fn latest_text_is_lower_cased_last_message() {
    let msgs = vec![
        Message { role: Role::User, content: "First".to_string() },
        Message { role: Role::User, content: "What Is The TIME".to_string() },
    ];
    assert_eq!(latest_user_text(&msgs), "what is the time");
    assert_eq!(latest_user_text(&Vec::new()), "");
}

#[test]
fn steps_are_prepared_with_rendered_text() {
    let tools = ToolRegistry::default();
    let mut ctx = ExecutionContext::new();
    ctx.insert(0, "2024-01-02 03:04:05".to_string());
    let p = prepare_step("Compute ({prev} - 2023) * 50", 1, &ctx, &tools);
    assert_eq!(p.step.id, 1);
    assert_eq!(p.rendered, "Compute (2024-01-02 03:04:05 - 2023) * 50");
    assert_eq!(p.step.tool, Some(ToolKind::Calculator));
    assert_eq!(p.strategy, ExecStrategy::ToolCall(ToolKind::Calculator));
    assert_eq!(calculator_input(&p.rendered, &ctx), "Compute (2024 - 2023) * 50");

    let q = prepare_step("Explain the result", 2, &ctx, &tools);
    assert_eq!(q.step.kind, StepKind::Reasoning);
    assert_eq!(q.strategy, ExecStrategy::MakerRace { n: 5, k: 2 });
}

#[test]
fn calculator_input_without_results_is_unchanged() {
    assert_eq!(calculator_input("1 + 2", &ExecutionContext::new()), "1 + 2");
}

#[test]
fn transcripts_and_answers() {
    assert_eq!(task_prompt("  Step 0: a\n ", " do b "), "Context:\nStep 0: a\nTask: do b");
    assert_eq!(history_entry(12, "Add", "3"), "Step 12: Add\nResult: 3\n");
    assert_eq!(step_line("Add", "3"), "Add => 3");
    let lines = vec!["a => 1".to_string(), "b => 2".to_string(), "c => 3".to_string()];
    assert_eq!(join_lines(&lines), "a => 1\nb => 2\nc => 3");
    assert_eq!(join_lines(&Vec::new()), "");
    assert_eq!(stub_failure("calculator"), "stub calculator failed");
}

fn model(id: &str, port: u16) -> InstalledLocalModel {
    InstalledLocalModel {
        model_id: ModelId(id.to_string()),
        install_path: format!("ollama:{}", id),
        is_running: false,
        port,
        runtime_type: "ollama".to_string(),
    }
}

#[test]
fn installed_models_are_kept_once_per_id() {
    let mut m = LocalModelManager::new();
    assert!(m.get_installed_models().is_empty());
    m.record_installed(model("tinyllama", 1));
    m.record_installed(model("qwen2:0.5b", 2));
    m.record_installed(model("tinyllama", 3));
    let list = m.get_installed_models();
    assert_eq!(list.len(), 2);
    assert_eq!(list[0].model_id.0, "qwen2:0.5b");
    assert_eq!(list[1].port, 3);
    m.remove(&ModelId("qwen2:0.5b".to_string()));
    let list = m.get_installed_models();
    assert_eq!(list.len(), 1);
    assert_eq!(list[0].model_id.0, "tinyllama");
}
