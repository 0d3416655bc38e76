use brainstorm::answers::{AnswerMap, AnswerValue};
use brainstorm::catalog::get_question_flow;
use brainstorm::design_doc::{
    answers_table, design_doc_dir, join_strings, prepare_design_doc, render_design_doc,
    generation_time_now, value_text_of, GenerationTime,
};
use brainstorm::flow::{
    check_flow, is_visible, visible_questions, FlowError, QuestionCondition, QuestionTemplate,
    QuestionType,
};
use brainstorm::prompt::{describe_task_type, describe_test_requirement, generate_prompt};

fn text(s: &str) -> AnswerValue {
    AnswerValue::Text(s.to_string())
}

fn answers(pairs: &[(&str, &str)]) -> AnswerMap {
    let mut m = AnswerMap::new();
    for (k, v) in pairs {
        m.insert(k.to_string(), text(v));
    }
    m
}

fn question(id: &str, condition: Option<(&str, &[&str])>) -> QuestionTemplate {
    QuestionTemplate {
        id: id.to_string(),
        phase: "requirements".to_string(),
        question: "?".to_string(),
        description: None,
        question_type: QuestionType::Text,
        options: vec![],
        allow_other: false,
        required: false,
        condition: condition.map(|(q, vs)| QuestionCondition {
            question_id: q.to_string(),
            values: vs.iter().map(|v| v.to_string()).collect(),
        }),
    }
}

fn fixed_time() -> GenerationTime {
    GenerationTime {
        date: "2024-03-05".to_string(),
        date_time: "2024-03-05 10:20:30 UTC".to_string(),
    }
}

const CLOSING: &str = "\n## 完成标准\n\n当你完成所有上述要求后，请输出以下内容表示任务完成：\n\n<done>COMPLETE</done>\n\n## 工作方式\n\n1. 先分析当前代码状态（如果有）\n2. 制定实施计划\n3. 逐步实现，每完成一步就运行测试（如果有）\n4. 遇到错误时，分析原因并修复\n5. 全部完成后，输出完成信号\n\n开始工作吧！\n";

#[test]
fn catalog_has_six_questions_in_order() {
    let flow = get_question_flow();
    let ids: Vec<&str> = flow.iter().map(|q| q.id.as_str()).collect();
    assert_eq!(
        ids,
        vec![
            "task_type",
            "project_description",
            "tech_stack",
            "existing_code_info",
            "test_requirement",
            "additional_requirements"
        ]
    );
    assert_eq!(flow[0].options.len(), 4);
    assert_eq!(flow[0].options[3].value, "bugfix");
    assert_eq!(flow[0].options[3].label, "修复 Bug / 让测试通过");
    assert_eq!(flow[1].question_type, QuestionType::Text);
    assert_eq!(flow[2].options.len(), 6);
    assert_eq!(flow[2].options[4].value, "react");
    let c = flow[2].condition.as_ref().unwrap();
    assert_eq!(c.question_id, "task_type");
    assert_eq!(c.values, vec!["greenfield".to_string()]);
    let c = flow[3].condition.as_ref().unwrap();
    assert_eq!(c.values, vec!["feature".to_string(), "refactor".to_string(), "bugfix".to_string()]);
    assert!(!flow[3].required);
    assert_eq!(flow[4].options[0].description.as_deref(), Some("单元测试 + 集成测试，覆盖率 > 80%"));
    assert!(flow[5].condition.is_none());
}

#[test]
fn catalog_is_well_formed() {
    assert_eq!(check_flow(&get_question_flow()), Ok(()));
}

#[test]
fn unknown_dependency_is_reported() {
    let flow = vec![question("a", None), question("b", Some(("missing", &["x"])))];
    assert_eq!(check_flow(&flow), Err(FlowError::UnknownDependency(1)));
}

#[test]
fn forward_dependency_is_reported() {
    let flow = vec![question("a", Some(("b", &["x"]))), question("b", None)];
    assert_eq!(check_flow(&flow), Err(FlowError::UnknownDependency(0)));
}

#[test]
fn duplicate_id_is_reported() {
    let flow = vec![question("a", None), question("b", None), question("a", None)];
    assert_eq!(check_flow(&flow), Err(FlowError::DuplicateId(2)));
}

#[test]
fn tech_stack_visible_for_greenfield() {
    let flow = get_question_flow();
    let m = answers(&[("task_type", "greenfield"), ("tech_stack", "react")]);
    assert!(is_visible(&flow[2], &m));
    assert!(!is_visible(&flow[3], &m));
    let p = generate_prompt(&m);
    assert!(p.contains("\n## 技术栈\n\nreact\n"));
}

#[test]
fn tech_stack_hidden_without_task_type() {
    let flow = get_question_flow();
    let m = answers(&[("tech_stack", "react")]);
    assert!(!is_visible(&flow[2], &m));
    assert!(!is_visible(&flow[3], &m));
}

#[test]
fn unconditional_questions_always_visible() {
    let flow = get_question_flow();
    for m in [AnswerMap::new(), answers(&[("task_type", "bugfix")])] {
        assert!(is_visible(&flow[0], &m));
        assert!(is_visible(&flow[1], &m));
        assert!(is_visible(&flow[4], &m));
        assert!(is_visible(&flow[5], &m));
    }
}

#[test]
fn rejected_value_hides_question() {
    let flow = get_question_flow();
    let m = answers(&[("task_type", "feature")]);
    assert!(!is_visible(&flow[2], &m));
    assert!(is_visible(&flow[3], &m));
}

#[test]
fn multi_select_prerequisite_needs_one_accepted_choice() {
    let q = question("details", Some(("langs", &["rust", "go"])));
    let mut m = AnswerMap::new();
    m.insert(
        "langs".to_string(),
        AnswerValue::Choices(vec!["python".to_string(), "go".to_string()]),
    );
    assert!(is_visible(&q, &m));
    m.insert("langs".to_string(), AnswerValue::Choices(vec!["python".to_string()]));
    assert!(!is_visible(&q, &m));
    m.insert("langs".to_string(), AnswerValue::Choices(vec![]));
    assert!(!is_visible(&q, &m));
    m.insert("langs".to_string(), AnswerValue::Other("3".to_string()));
    assert!(!is_visible(&q, &m));
}

#[test]
fn visible_questions_follow_answers() {
    let flow = get_question_flow();
    assert_eq!(visible_questions(&flow, &AnswerMap::new()), vec![0, 1, 4, 5]);
    let m = answers(&[("task_type", "greenfield")]);
    assert_eq!(visible_questions(&flow, &m), vec![0, 1, 2, 4, 5]);
    let m = answers(&[("task_type", "refactor")]);
    assert_eq!(visible_questions(&flow, &m), vec![0, 1, 3, 4, 5]);
}

#[test]
fn task_type_labels() {
    assert_eq!(describe_task_type("greenfield"), "从零构建一个新项目");
    assert_eq!(describe_task_type("feature"), "给现有项目添加新功能");
    assert_eq!(describe_task_type("refactor"), "重构和优化现有代码");
    assert_eq!(describe_task_type("bugfix"), "修复 Bug 或让测试通过");
    assert_eq!(describe_task_type("migration"), "migration");
    assert_eq!(describe_task_type(""), "");
}

#[test]
fn test_requirement_labels() {
    assert_eq!(describe_test_requirement("full"), "完整测试覆盖（单元测试 + 集成测试，覆盖率 > 80%）");
    assert_eq!(describe_test_requirement("basic"), "基础测试（核心功能有测试即可）");
    assert_eq!(describe_test_requirement("none"), "不需要测试");
    assert_eq!(describe_test_requirement("fuzzing"), "fuzzing");
}

#[test]
fn prompt_for_empty_answers() {
    let p = generate_prompt(&AnswerMap::new());
    let expected = format!(
        "你正在进行一个 Ralph Loop 任务。请仔细阅读以下要求，然后开始工作。\n\n## 任务描述\n\n\n\n## 任务类型\n\nunknown\n\n## 测试要求\n\n基础测试（核心功能有测试即可）\n{}",
        CLOSING
    );
    assert_eq!(p, expected);
}

#[test]
fn prompt_with_every_section() {
    let m = answers(&[
        ("task_type", "feature"),
        ("project_description", "add login"),
        ("tech_stack", "rust"),
        ("existing_code_info", "uses axum"),
        ("test_requirement", "full"),
        ("additional_requirements", "document it"),
    ]);
    let expected = format!(
        "你正在进行一个 Ralph Loop 任务。请仔细阅读以下要求，然后开始工作。\n\n## 任务描述\n\nadd login\n\n## 任务类型\n\n给现有项目添加新功能\n\n## 技术栈\n\nrust\n\n## 现有代码信息\n\nuses axum\n\n## 测试要求\n\n完整测试覆盖（单元测试 + 集成测试，覆盖率 > 80%）\n\n## 其他要求\n\ndocument it\n{}",
        CLOSING
    );
    assert_eq!(generate_prompt(&m), expected);
}

#[test]
fn prompt_is_deterministic() {
    let a = answers(&[("task_type", "bugfix"), ("project_description", "fix X")]);
    let b = answers(&[("project_description", "fix X"), ("task_type", "bugfix")]);
    assert_eq!(generate_prompt(&a), generate_prompt(&a));
    assert_eq!(generate_prompt(&a), generate_prompt(&b));
}

#[test]
fn empty_optional_answers_leave_no_section() {
    let with = answers(&[
        ("task_type", "feature"),
        ("tech_stack", ""),
        ("existing_code_info", ""),
        ("additional_requirements", ""),
    ]);
    let without = answers(&[("task_type", "feature")]);
    let p = generate_prompt(&with);
    assert_eq!(p, generate_prompt(&without));
    assert!(!p.contains("## 技术栈"));
    assert!(!p.contains("## 现有代码信息"));
    assert!(!p.contains("## 其他要求"));
}

#[test]
fn omitting_one_answer_removes_its_section_only() {
    let full = answers(&[("tech_stack", "go"), ("existing_code_info", "old"), ("additional_requirements", "fast")]);
    let less = answers(&[("tech_stack", "go"), ("additional_requirements", "fast")]);
    let p = generate_prompt(&full);
    let q = generate_prompt(&less);
    assert_eq!(p.replace("\n## 现有代码信息\n\nold\n", ""), q);
    assert!(q.contains("\n## 技术栈\n\ngo\n"));
    assert!(q.contains("\n## 其他要求\n\nfast\n"));
}

#[test]
fn non_text_answers_fall_back() {
    let mut m = AnswerMap::new();
    m.insert("task_type".to_string(), AnswerValue::Choices(vec!["feature".to_string()]));
    m.insert("test_requirement".to_string(), AnswerValue::Other("null".to_string()));
    let p = generate_prompt(&m);
    assert!(p.contains("## 任务类型\n\nunknown\n"));
    assert!(p.contains("## 测试要求\n\n基础测试（核心功能有测试即可）\n"));
    assert!(p.contains("<done>COMPLETE</done>"));
}

#[test]
fn answer_map_replaces_in_place() {
    let mut m = AnswerMap::new();
    m.insert("a".to_string(), text("1"));
    m.insert("b".to_string(), text("2"));
    m.insert("a".to_string(), text("3"));
    assert_eq!(m.len(), 2);
    assert!(matches!(m.get("a"), Some(AnswerValue::Text(s)) if s == "3"));
    assert!(m.get("c").is_none());
    assert_eq!(answers_table(&m), "| a | 3 |\n| b | 2 |\n");
}

#[test]
fn choices_join_in_order() {
    let parts = vec!["node".to_string(), "go".to_string(), "rust".to_string()];
    assert_eq!(join_strings(&parts, ", "), "node, go, rust");
    assert_eq!(join_strings(&vec![], ", "), "");
    assert_eq!(join_strings(&vec!["x".to_string()], ", "), "x");
    assert_eq!(value_text_of(&AnswerValue::Choices(parts)), "node, go, rust");
    assert_eq!(value_text_of(&AnswerValue::Other("42".to_string())), "42");
}

#[test]
fn answers_table_has_one_row_per_key() {
    let mut m = AnswerMap::new();
    m.insert("task_type".to_string(), text("greenfield"));
    m.insert(
        "stack".to_string(),
        AnswerValue::Choices(vec!["react".to_string(), "svelte".to_string()]),
    );
    m.insert("count".to_string(), AnswerValue::Other("3".to_string()));
    m.insert("task_type".to_string(), text("feature"));
    let t = answers_table(&m);
    assert_eq!(t, "| task_type | feature |\n| stack | react, svelte |\n| count | 3 |\n");
    assert_eq!(t.matches("| task_type |").count(), 1);
}

#[test]
fn design_doc_for_bugfix() {
    let m = answers(&[("task_type", "bugfix"), ("project_description", "fix X")]);
    let doc = render_design_doc("demo", &m, "<prompt>", fixed_time());
    assert_eq!(doc.file_name, "2024-03-05-bugfix-design.md");
    assert!(doc.content.starts_with("# demo 设计文档\n\n> 生成时间: 2024-03-05 10:20:30 UTC\n"));
    assert!(doc.content.contains("## 概述\n\nfix X\n"));
    assert!(doc.content.contains("- [ ] 输出完成信号 `<done>COMPLETE</done>`"));
    assert!(doc.content.contains("- 技术栈: 未指定\n"));
    assert!(doc.content.contains("- 测试要求: basic\n"));
    assert!(!doc.content.contains("其他要求"));
    assert!(doc.content.contains("```\n<prompt>\n```"));
    assert_eq!(design_doc_dir(), vec!["docs".to_string(), "plans".to_string()]);
}

#[test]
fn design_doc_exact_text() {
    let m = answers(&[("tech_stack", "go"), ("additional_requirements", "be quick")]);
    let doc = render_design_doc("p", &m, "P", fixed_time());
    let expected = "# p 设计文档\n\n> 生成时间: 2024-03-05 10:20:30 UTC\n> 由 Ralph Desktop Brainstorm 生成\n\n## 概述\n\n\n\n## 需求分析\n\n### 用户回答摘要\n\n| 问题 | 回答 |\n|------|------|\n| tech_stack | go |\n| additional_requirements | be quick |\n\n\n### 功能需求\n\n- 任务类型: task\n- 技术栈: go\n- 测试要求: basic\n- 其他要求: be quick\n\n## 完成标准\n\n任务完成的标准：\n- [ ] 实现所有描述的功能\n- [ ] 代码能够正常运行\n- [ ] 满足测试要求\n- [ ] 输出完成信号 `<done>COMPLETE</done>`\n\n## 生成的 Prompt\n\n```\nP\n```\n\n---\n\n*此文档由 Ralph Desktop 自动生成，可手动编辑。*\n";
    assert_eq!(doc.content, expected);
    assert_eq!(doc.file_name, "2024-03-05-task-design.md");
}

#[test]
fn design_doc_as_of_now() {
    let m = answers(&[("task_type", "bugfix"), ("project_description", "fix X")]);
    let doc = prepare_design_doc("demo", &m, "<prompt>").expect("the clock reads after 1970");
    let date = doc.generated_at.date.clone();
    assert_eq!(date.len(), 10);
    assert_eq!(&date[4..5], "-");
    assert_eq!(&date[7..8], "-");
    assert!(date.chars().filter(|c| *c != '-').all(|c| c.is_ascii_digit()));
    assert_eq!(doc.file_name, format!("{}-bugfix-design.md", date));
    assert!(doc.generated_at.date_time.starts_with(&format!("{} ", date)));
    assert!(doc.generated_at.date_time.ends_with(" UTC"));
    assert_eq!(doc.generated_at.date_time.len(), 23);
    assert!(doc.content.contains("fix X"));
    assert!(doc.content.contains(&format!("> 生成时间: {}\n", doc.generated_at.date_time)));
}

#[test]
fn generation_time_has_date_then_time() {
    let t = generation_time_now().expect("the clock reads after 1970");
    assert_eq!(t.date_time.len(), t.date.len() + 13);
    assert!(t.date_time.starts_with(&format!("{} ", t.date)));
    assert!(t.date_time.ends_with(" UTC"));
    let time = &t.date_time[t.date.len() + 1..t.date.len() + 9];
    assert_eq!(&time[2..3], ":");
    assert_eq!(&time[5..6], ":");
}
