use commit_composer::prompts::{fields, notice, type_prompt, Field};

#[test]
fn fields_are_asked_in_order() {
    assert_eq!(
        fields(),
        vec![Field::Scope, Field::Subject, Field::Body, Field::Breaking, Field::Issues]
    );
}

#[test]
fn only_the_subject_is_required() {
    assert!(Field::Scope.allows_empty());
    assert!(!Field::Subject.allows_empty());
    assert!(Field::Body.allows_empty());
    assert!(Field::Breaking.allows_empty());
    assert!(Field::Issues.allows_empty());
}

#[test]
fn prompt_texts() {
    assert_eq!(
        Field::Scope.prompt(),
        "What is the scope of this change (e.g. component or file name)? (press enter to skip) "
    );
    assert_eq!(
        Field::Subject.prompt(),
        "Write a short, imperative tense description of the change:\n"
    );
    assert_eq!(
        Field::Body.prompt(),
        "Provide a longer description of the change: (press enter to skip)\n"
    );
    assert_eq!(
        Field::Breaking.prompt(),
        "Describe any breaking changes: (press enter to skip) "
    );
    assert_eq!(Field::Issues.prompt(), "Related issues: (press enter to skip) ");
}

#[test]
fn type_prompt_text() {
    assert_eq!(type_prompt(), "Select the type of change that you're committing");
}

#[test]
fn notice_names_the_width() {
    assert_eq!(
        notice(),
        "\nAll commit message lines will be cropped at 100 characters.\n"
    );
    assert!(notice().contains(&commit_composer::message::LINE_WIDTH.to_string()));
}
