//! The built-in question catalog.

use vstd::prelude::*;
use crate::answers::strings_view;
use crate::flow::{
    ConditionView, OptionView, QuestionCondition, QuestionOption, QuestionTemplate, QuestionType,
    QuestionView, flow_view, flow_wf, opt_string_view, question_sound,
};

verus! {

pub open spec fn opt_str_view(o: Option<&str>) -> Option<Seq<char>> {
    match o {
        Some(s) => Some(s@),
        None => None,
    }
}

fn text(s: &str) -> (r: String)
    ensures
        r@ == s@,
{
    String::from_str(s)
}

fn opt_text(o: Option<&str>) -> (r: Option<String>)
    ensures
        opt_string_view(r) == opt_str_view(o),
{
    match o {
        Some(s) => Some(String::from_str(s)),
        None => None,
    }
}

fn option(value: &str, label: &str, description: Option<&str>) -> (r: QuestionOption)
    ensures
        r@ == (OptionView { value: value@, label: label@, description: opt_str_view(description) }),
{
    QuestionOption { value: text(value), label: text(label), description: opt_text(description) }
}

pub open spec fn task_type_view() -> QuestionView {
    QuestionView {
        id: "task_type"@,
        phase: "assessment"@,
        question: "你想做什么类型的任务？"@,
        description: None,
        question_type: QuestionType::Single,
        options: seq![
            OptionView { value: "greenfield"@, label: "从零构建新项目"@, description: Some("项目目录是空的，从头开始"@) },
            OptionView { value: "feature"@, label: "给现有项目加功能"@, description: Some("已有代码，添加新功能"@) },
            OptionView { value: "refactor"@, label: "重构/优化代码"@, description: Some("改进现有代码的质量或性能"@) },
            OptionView { value: "bugfix"@, label: "修复 Bug / 让测试通过"@, description: Some("有失败的测试或已知 Bug"@) },
        ],
        allow_other: true,
        required: true,
        condition: None,
    }
}

fn task_type_question() -> (r: QuestionTemplate)
    ensures
        r@ == task_type_view(),
{
    let options = vec![
        option("greenfield", "从零构建新项目", Some("项目目录是空的，从头开始")),
        option("feature", "给现有项目加功能", Some("已有代码，添加新功能")),
        option("refactor", "重构/优化代码", Some("改进现有代码的质量或性能")),
        option("bugfix", "修复 Bug / 让测试通过", Some("有失败的测试或已知 Bug")),
    ];
    let r = QuestionTemplate {
        id: text("task_type"),
        phase: text("assessment"),
        question: text("你想做什么类型的任务？"),
        description: None,
        question_type: QuestionType::Single,
        options,
        allow_other: true,
        required: true,
        condition: None,
    };
    assert(r@.options =~= task_type_view().options);
    r
}

pub open spec fn project_description_view() -> QuestionView {
    QuestionView {
        id: "project_description"@,
        phase: "requirements"@,
        question: "用一句话描述你想做的事情"@,
        description: Some("不需要太详细，先说个大概"@),
        question_type: QuestionType::Text,
        options: seq![],
        allow_other: false,
        required: true,
        condition: None,
    }
}

fn project_description_question() -> (r: QuestionTemplate)
    ensures
        r@ == project_description_view(),
{
    let r = QuestionTemplate {
        id: text("project_description"),
        phase: text("requirements"),
        question: text("用一句话描述你想做的事情"),
        description: Some(text("不需要太详细，先说个大概")),
        question_type: QuestionType::Text,
        options: Vec::new(),
        allow_other: false,
        required: true,
        condition: None,
    };
    assert(r@.options =~= project_description_view().options);
    r
}

pub open spec fn tech_stack_view() -> QuestionView {
    QuestionView {
        id: "tech_stack"@,
        phase: "technical"@,
        question: "你想用什么技术栈？"@,
        description: None,
        question_type: QuestionType::Single,
        options: seq![
            OptionView { value: "node"@, label: "Node.js + Express/Fastify"@, description: None },
            OptionView { value: "python"@, label: "Python + FastAPI/Flask"@, description: None },
            OptionView { value: "go"@, label: "Go + Gin/Echo"@, description: None },
            OptionView { value: "rust"@, label: "Rust + Axum/Actix"@, description: None },
            OptionView { value: "react"@, label: "React + TypeScript"@, description: None },
            OptionView { value: "svelte"@, label: "Svelte + TypeScript"@, description: None },
        ],
        allow_other: true,
        required: true,
        condition: Some(ConditionView { question_id: "task_type"@, values: seq!["greenfield"@] }),
    }
}

fn tech_stack_question() -> (r: QuestionTemplate)
    ensures
        r@ == tech_stack_view(),
{
    let options = vec![
        option("node", "Node.js + Express/Fastify", None),
        option("python", "Python + FastAPI/Flask", None),
        option("go", "Go + Gin/Echo", None),
        option("rust", "Rust + Axum/Actix", None),
        option("react", "React + TypeScript", None),
        option("svelte", "Svelte + TypeScript", None),
    ];
    let values = vec![text("greenfield")];
    assert(strings_view(values@) =~= seq!["greenfield"@]);
    let r = QuestionTemplate {
        id: text("tech_stack"),
        phase: text("technical"),
        question: text("你想用什么技术栈？"),
        description: None,
        question_type: QuestionType::Single,
        options,
        allow_other: true,
        required: true,
        condition: Some(QuestionCondition { question_id: text("task_type"), values }),
    };
    assert(r@.options =~= tech_stack_view().options);
    r
}

pub open spec fn existing_code_info_view() -> QuestionView {
    QuestionView {
        id: "existing_code_info"@,
        phase: "requirements"@,
        question: "项目里有什么需要我了解的？"@,
        description: Some("比如使用了什么框架、有什么特殊约定"@),
        question_type: QuestionType::Text,
        options: seq![],
        allow_other: false,
        required: false,
        condition: Some(
            ConditionView {
                question_id: "task_type"@,
                values: seq!["feature"@, "refactor"@, "bugfix"@],
            },
        ),
    }
}

fn existing_code_info_question() -> (r: QuestionTemplate)
    ensures
        r@ == existing_code_info_view(),
{
    let values = vec![text("feature"), text("refactor"), text("bugfix")];
    assert(strings_view(values@) =~= seq!["feature"@, "refactor"@, "bugfix"@]);
    let r = QuestionTemplate {
        id: text("existing_code_info"),
        phase: text("requirements"),
        question: text("项目里有什么需要我了解的？"),
        description: Some(text("比如使用了什么框架、有什么特殊约定")),
        question_type: QuestionType::Text,
        options: Vec::new(),
        allow_other: false,
        required: false,
        condition: Some(QuestionCondition { question_id: text("task_type"), values }),
    };
    assert(r@.options =~= existing_code_info_view().options);
    r
}

pub open spec fn test_requirement_view() -> QuestionView {
    QuestionView {
        id: "test_requirement"@,
        phase: "criteria"@,
        question: "需要写测试吗？"@,
        description: None,
        question_type: QuestionType::Single,
        options: seq![
            OptionView { value: "full"@, label: "完整测试"@, description: Some("单元测试 + 集成测试，覆盖率 > 80%"@) },
            OptionView { value: "basic"@, label: "基础测试"@, description: Some("核心功能有测试即可"@) },
            OptionView { value: "none"@, label: "不需要测试"@, description: Some("只要代码能跑就行"@) },
        ],
        allow_other: false,
        required: true,
        condition: None,
    }
}

fn test_requirement_question() -> (r: QuestionTemplate)
    ensures
        r@ == test_requirement_view(),
{
    let options = vec![
        option("full", "完整测试", Some("单元测试 + 集成测试，覆盖率 > 80%")),
        option("basic", "基础测试", Some("核心功能有测试即可")),
        option("none", "不需要测试", Some("只要代码能跑就行")),
    ];
    let r = QuestionTemplate {
        id: text("test_requirement"),
        phase: text("criteria"),
        question: text("需要写测试吗？"),
        description: None,
        question_type: QuestionType::Single,
        options,
        allow_other: false,
        required: true,
        condition: None,
    };
    assert(r@.options =~= test_requirement_view().options);
    r
}

pub open spec fn additional_requirements_view() -> QuestionView {
    QuestionView {
        id: "additional_requirements"@,
        phase: "criteria"@,
        question: "还有其他要求吗？"@,
        description: Some("比如代码风格、文档、特定的库等"@),
        question_type: QuestionType::Text,
        options: seq![],
        allow_other: false,
        required: false,
        condition: None,
    }
}

fn additional_requirements_question() -> (r: QuestionTemplate)
    ensures
        r@ == additional_requirements_view(),
{
    let r = QuestionTemplate {
        id: text("additional_requirements"),
        phase: text("criteria"),
        question: text("还有其他要求吗？"),
        description: Some(text("比如代码风格、文档、特定的库等")),
        question_type: QuestionType::Text,
        options: Vec::new(),
        allow_other: false,
        required: false,
        condition: None,
    };
    assert(r@.options =~= additional_requirements_view().options);
    r
}

/// The built-in catalog, in display order.
pub open spec fn question_catalog() -> Seq<QuestionView> {
    seq![
        task_type_view(),
        project_description_view(),
        tech_stack_view(),
        existing_code_info_view(),
        test_requirement_view(),
        additional_requirements_view(),
    ]
}

/// The built-in question flow: what kind of task, a one-line description, the tech stack
/// (for a new project), what to know of existing code (for other tasks), how much
/// testing, and any further requirements.
pub fn get_question_flow() -> (r: Vec<QuestionTemplate>)
    ensures
        flow_view(r@) == question_catalog(),
        flow_wf(flow_view(r@)),
{
    proof {
        lemma_catalog_well_formed();
    }
    let r = vec![
        task_type_question(),
        project_description_question(),
        tech_stack_question(),
        existing_code_info_question(),
        test_requirement_question(),
        additional_requirements_question(),
    ];
    assert(flow_view(r@) =~= question_catalog());
    r
}

/// The built-in catalog is well formed: its ids are unique, and each condition refers to an
/// earlier question.
pub proof fn lemma_catalog_well_formed()
    ensures
        flow_wf(question_catalog()),
{
    reveal_strlit("task_type");
    reveal_strlit("project_description");
    reveal_strlit("tech_stack");
    reveal_strlit("existing_code_info");
    reveal_strlit("test_requirement");
    reveal_strlit("additional_requirements");
    let f = question_catalog();
    assert(f[0].id.len() == 9 && f[1].id.len() == 19 && f[2].id.len() == 10);
    assert(f[3].id.len() == 18 && f[4].id.len() == 16 && f[5].id.len() == 23);
    assert(question_sound(f, 0));
    assert(question_sound(f, 1));
    assert(question_sound(f, 2));
    assert(question_sound(f, 3));
    assert(question_sound(f, 4));
    assert(question_sound(f, 5));
}

} // verus!
