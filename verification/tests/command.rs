use commit_composer::command::commit_arguments;

fn strings(items: &[&str]) -> Vec<String> {
    items.iter().map(|s| s.to_string()).collect()
}

#[test]
fn arguments_without_anything_to_forward() {
    let received = strings(&["composer"]);
    assert_eq!(
        commit_arguments("feat: 🎸 add retry", &received),
        strings(&["commit", "-m", "feat: 🎸 add retry"])
    );
}

#[test]
fn arguments_forward_all_but_the_program_name() {
    let received = strings(&["composer", "--amend", "-a", "--author=A B <a@b.c>"]);
    assert_eq!(
        commit_arguments("fix: 🐛 typo", &received),
        strings(&["commit", "-m", "fix: 🐛 typo", "--amend", "-a", "--author=A B <a@b.c>"])
    );
}

#[test]
fn arguments_with_nothing_received() {
    let received: Vec<String> = Vec::new();
    assert_eq!(
        commit_arguments("docs: ✏️ readme", &received),
        strings(&["commit", "-m", "docs: ✏️ readme"])
    );
}

#[test]
fn message_stays_one_argument() {
    let message = "feat: 🎸 a b\n\nbody with spaces\n\nRelated issues: #1 #2";
    let received = strings(&["composer", "-v"]);
    let out = commit_arguments(message, &received);
    assert_eq!(out.len(), 4);
    assert_eq!(out[2], message);
    assert_eq!(out[3], "-v");
}

#[test]
fn forwarded_arguments_keep_duplicates_and_order() {
    let received = strings(&["composer", "-v", "-v", "", "x"]);
    assert_eq!(
        commit_arguments("m", &received),
        strings(&["commit", "-m", "m", "-v", "-v", "", "x"])
    );
}
