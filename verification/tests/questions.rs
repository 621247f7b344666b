use db_manager::questions::{PartialQuestion, Question, QuestionBuilder, QuestionSet};

fn form(title: &str, answer: &str) -> PartialQuestion {
    PartialQuestion {
        title: Some(title.to_string()),
        markup: Some(format!("<p>{title}</p>")),
        calculator_allowed: Some(title.len() % 2 == 0),
        answer: Some(answer.to_string()),
    }
}

fn question(title: &str, answer: &str) -> Question {
    form(title, answer).build().unwrap()
}

#[test]
fn blank_form_has_no_field() {
    let blank = PartialQuestion::new();
    assert_eq!(blank.title, None);
    assert_eq!(blank.markup, None);
    assert_eq!(blank.calculator_allowed, None);
    assert_eq!(blank.answer, None);
}

#[test]
fn complete_form_builds_its_question() {
    let built = PartialQuestion {
        title: Some("Sum".to_string()),
        markup: Some("1 + 1".to_string()),
        calculator_allowed: Some(false),
        answer: Some("2".to_string()),
    }
    .build()
    .unwrap();
    assert_eq!(built.title(), "Sum");
    assert_eq!(built.markup(), "1 + 1");
    assert!(!built.calculator_allowed());
    assert_eq!(built.answer(), "2");
}

#[test]
fn form_with_any_field_missing_builds_nothing() {
    assert!(PartialQuestion::new().build().is_none());
    assert!(PartialQuestion { title: None, ..form("t", "a") }.build().is_none());
    assert!(PartialQuestion { markup: None, ..form("t", "a") }.build().is_none());
    assert!(PartialQuestion { calculator_allowed: None, ..form("t", "a") }.build().is_none());
    assert!(PartialQuestion { answer: None, ..form("t", "a") }.build().is_none());
}

#[test]
fn form_with_empty_texts_is_still_complete() {
    let built = PartialQuestion {
        title: Some(String::new()),
        markup: Some(String::new()),
        calculator_allowed: Some(true),
        answer: Some(String::new()),
    }
    .build()
    .unwrap();
    assert_eq!(built.title(), "");
    assert!(built.calculator_allowed());
}

#[test]
fn clone_of_a_form_is_equal() {
    let filled = form("Sum", "2");
    assert_eq!(filled.clone(), filled);
    let partial = PartialQuestion { answer: None, ..form("Sum", "2") };
    assert_eq!(partial.clone(), partial);
}

#[test]
fn clone_of_a_question_is_equal() {
    let sum = question("Sum", "2");
    assert_eq!(sum.clone(), sum);
}

#[test]
fn new_builder_builds_no_questions() {
    let builder = QuestionBuilder::new();
    assert_eq!(builder.len(), 0);
    assert_eq!(builder.build(), Some(vec![]));
}

#[test]
fn get_behind_the_last_form_appends_a_blank_one() {
    let mut builder = QuestionBuilder::new();
    assert_eq!(builder.get(0), PartialQuestion::new());
    assert_eq!(builder.len(), 1);
    assert_eq!(builder.get(0), PartialQuestion::new());
    assert_eq!(builder.len(), 1);
    assert_eq!(builder.get(1), PartialQuestion::new());
    assert_eq!(builder.len(), 2);
}

#[test]
fn set_replaces_one_form() {
    let mut builder = QuestionBuilder::new();
    builder.get(0);
    builder.get(1);
    builder.set(1, form("second", "b"));
    builder.set(0, form("first", "a"));
    assert_eq!(builder.get(0), form("first", "a"));
    assert_eq!(builder.get(1), form("second", "b"));
    builder.set(0, form("changed", "c"));
    assert_eq!(builder.get(0), form("changed", "c"));
    assert_eq!(builder.get(1), form("second", "b"));
    assert_eq!(builder.len(), 2);
}

#[test]
fn builder_builds_the_questions_in_order() {
    let mut builder = QuestionBuilder::new();
    for (i, (title, answer)) in [("one", "1"), ("two", "2"), ("three", "3")].iter().enumerate() {
        builder.get(i);
        builder.set(i, form(title, answer));
    }
    assert_eq!(
        builder.build(),
        Some(vec![question("one", "1"), question("two", "2"), question("three", "3")])
    );
}

#[test]
fn builder_with_an_incomplete_form_builds_nothing() {
    for gap in 0..3usize {
        let mut builder = QuestionBuilder::new();
        for i in 0..3usize {
            builder.get(i);
            if i != gap {
                builder.set(i, form("filled", "x"));
            }
        }
        assert_eq!(builder.build(), None);
    }
}

#[test]
fn clone_of_a_builder_is_equal_and_independent() {
    let mut builder = QuestionBuilder::new();
    builder.get(0);
    builder.set(0, form("one", "1"));
    let mut copy = builder.clone();
    assert_eq!(copy, builder);
    copy.set(0, form("other", "2"));
    assert_eq!(builder.get(0), form("one", "1"));
    assert_eq!(copy.get(0), form("other", "2"));
}

#[test]
fn question_set_hands_back_what_it_was_given() {
    let set = QuestionSet::new(
        "Algebra".to_string(),
        "mrs-smith".to_string(),
        vec![question("one", "1"), question("two", "2")],
    );
    assert_eq!(set.name(), "Algebra");
    assert_eq!(set.author(), "mrs-smith");
    assert_eq!(*set.questions(), vec![question("one", "1"), question("two", "2")]);
}

#[test]
fn clone_of_a_question_set_is_equal() {
    let set = QuestionSet::new(
        "Algebra".to_string(),
        "mrs-smith".to_string(),
        vec![question("one", "1"), question("two", "2")],
    );
    assert_eq!(set.clone(), set);
}

#[test]
fn question_set_may_be_empty() {
    let set = QuestionSet::new(String::new(), String::new(), vec![]);
    assert_eq!(set.name(), "");
    assert!(set.questions().is_empty());
}
