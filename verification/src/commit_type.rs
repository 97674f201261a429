//! The closed set of commit types and what is known about each of them.

use vstd::prelude::*;

verus! {

/// The category of a change, written in front of the summary line.
#[derive(Copy, Clone, PartialEq, Eq, Structural, Debug)]
pub enum CommitType {
    Test,
    Feature,
    Fix,
    Chore,
    Docs,
    Refactor,
    Release,
    Style,
    CI,
    Perf,
}

/// What is shown and written for one commit type.
pub struct CommitTypeDetails {
    /// One line that says which changes the type stands for.
    pub description: String,
    /// The glyph written between the type and the subject.
    pub emoji: String,
}

impl CommitType {
    /// The tag of this type as it appears in a summary line.
    pub open spec fn name_text(self) -> Seq<char> {
        match self {
            CommitType::Test => "test"@,
            CommitType::Feature => "feat"@,
            CommitType::Fix => "fix"@,
            CommitType::Chore => "chore"@,
            CommitType::Docs => "docs"@,
            CommitType::Refactor => "refactor"@,
            CommitType::Release => "release"@,
            CommitType::Style => "style"@,
            CommitType::CI => "ci"@,
            CommitType::Perf => "perf"@,
        }
    }

    /// The glyph of this type. Two of them carry a variation selector and
    /// so are two characters long.
    pub open spec fn emoji_text(self) -> Seq<char> {
        match self {
            CommitType::Test => "\u{1F48D}"@,
            CommitType::Feature => "\u{1F3B8}"@,
            CommitType::Fix => "\u{1F41B}"@,
            CommitType::Chore => "\u{1F916}"@,
            CommitType::Docs => "\u{270F}\u{FE0F}"@,
            CommitType::Refactor => "\u{1F4A1}"@,
            CommitType::Release => "\u{1F3F9}"@,
            CommitType::Style => "\u{1F484}"@,
            CommitType::CI => "\u{1F3A1}"@,
            CommitType::Perf => "\u{26A1}\u{FE0F}"@,
        }
    }

    /// The one-line description of this type.
    pub open spec fn description_text(self) -> Seq<char> {
        match self {
            CommitType::Test => "Adding missing tests"@,
            CommitType::Feature => "A new feature"@,
            CommitType::Fix => "A bug fix"@,
            CommitType::Chore => "Build process or auxiliary tool changes"@,
            CommitType::Docs => "Documentation only changes"@,
            CommitType::Refactor => "A code change that neither fixes a bug or adds a feature"@,
            CommitType::Release => "Create a release commit"@,
            CommitType::Style => "Markup, white-space, formatting, missing semi-colons..."@,
            CommitType::CI => "CI related changes"@,
            CommitType::Perf => "A code change that improves performance"@,
        }
    }

    /// Returns the tag of this type as an owned string.
    pub fn name(self) -> (out: String)
        ensures
            out@ == self.name_text(),
    {
        match self {
            CommitType::Test => String::from_str("test"),
            CommitType::Feature => String::from_str("feat"),
            CommitType::Fix => String::from_str("fix"),
            CommitType::Chore => String::from_str("chore"),
            CommitType::Docs => String::from_str("docs"),
            CommitType::Refactor => String::from_str("refactor"),
            CommitType::Release => String::from_str("release"),
            CommitType::Style => String::from_str("style"),
            CommitType::CI => String::from_str("ci"),
            CommitType::Perf => String::from_str("perf"),
        }
    }
}

/// Looks up the description and the glyph of a commit type.
pub fn get_attrs(ty: CommitType) -> (details: CommitTypeDetails)
    ensures
        details.description@ == ty.description_text(),
        details.emoji@ == ty.emoji_text(),
{
    match ty {
        CommitType::Chore => CommitTypeDetails {
            description: String::from_str("Build process or auxiliary tool changes"),
            emoji: String::from_str("\u{1F916}"),
        },
        CommitType::CI => CommitTypeDetails {
            description: String::from_str("CI related changes"),
            emoji: String::from_str("\u{1F3A1}"),
        },
        CommitType::Docs => CommitTypeDetails {
            description: String::from_str("Documentation only changes"),
            emoji: String::from_str("\u{270F}\u{FE0F}"),
        },
        CommitType::Feature => CommitTypeDetails {
            description: String::from_str("A new feature"),
            emoji: String::from_str("\u{1F3B8}"),
        },
        CommitType::Fix => CommitTypeDetails {
            description: String::from_str("A bug fix"),
            emoji: String::from_str("\u{1F41B}"),
        },
        CommitType::Perf => CommitTypeDetails {
            description: String::from_str("A code change that improves performance"),
            emoji: String::from_str("\u{26A1}\u{FE0F}"),
        },
        CommitType::Refactor => CommitTypeDetails {
            description: String::from_str(
                "A code change that neither fixes a bug or adds a feature",
            ),
            emoji: String::from_str("\u{1F4A1}"),
        },
        CommitType::Release => CommitTypeDetails {
            description: String::from_str("Create a release commit"),
            emoji: String::from_str("\u{1F3F9}"),
        },
        CommitType::Style => CommitTypeDetails {
            description: String::from_str(
                "Markup, white-space, formatting, missing semi-colons...",
            ),
            emoji: String::from_str("\u{1F484}"),
        },
        CommitType::Test => CommitTypeDetails {
            description: String::from_str("Adding missing tests"),
            emoji: String::from_str("\u{1F48D}"),
        },
    }
}

/// The commit types in the order in which the menu offers them.
pub open spec fn type_list() -> Seq<CommitType> {
    seq![
        CommitType::Feature,
        CommitType::Fix,
        CommitType::Docs,
        CommitType::Style,
        CommitType::Refactor,
        CommitType::Perf,
        CommitType::Test,
        CommitType::Chore,
        CommitType::CI,
        CommitType::Release,
    ]
}

/// The position in the menu that is selected before the user moves.
pub const DEFAULT_SELECTION: usize = 0;

/// The menu entry of a type: its tag, a colon and its description.
pub open spec fn menu_label_text(ty: CommitType) -> Seq<char> {
    ty.name_text() + ": "@ + ty.description_text()
}

/// Returns the commit types in menu order.
pub fn commit_types() -> (out: Vec<CommitType>)
    ensures
        out@ == type_list(),
{
    vec![
        CommitType::Feature,
        CommitType::Fix,
        CommitType::Docs,
        CommitType::Style,
        CommitType::Refactor,
        CommitType::Perf,
        CommitType::Test,
        CommitType::Chore,
        CommitType::CI,
        CommitType::Release,
    ]
}

/// Builds the menu entry of one type.
pub fn menu_label(ty: CommitType) -> (out: String)
    ensures
        out@ == menu_label_text(ty),
{
    let attrs = get_attrs(ty);
    let mut out = ty.name();
    out.append(": ");
    out.append(attrs.description.as_str());
    out
}

/// Builds the entries of the whole menu, one for each type, in menu order.
pub fn menu_labels() -> (out: Vec<String>)
    ensures
        out@.len() == type_list().len(),
        forall|i: int| 0 <= i < out@.len() ==> #[trigger] out@[i]@ == menu_label_text(type_list()[i]),
{
    let types = commit_types();
    let mut out: Vec<String> = Vec::new();
    let mut i: usize = 0;
    while i < types.len()
        invariant
            types@ == type_list(),
            i <= types@.len(),
            out@.len() == i,
            forall|k: int| 0 <= k < i ==> #[trigger] out@[k]@ == menu_label_text(type_list()[k]),
        decreases types@.len() - i,
    {
        out.push(menu_label(types[i]));
        i += 1;
    }
    out
}

/// The type that stands at position `index` of the menu, if there is one.
pub fn selected_type(index: usize) -> (out: Option<CommitType>)
    ensures
        index < type_list().len() ==> out == Some(type_list()[index as int]),
        index >= type_list().len() ==> out is None,
{
    let types = commit_types();
    if index < types.len() {
        Some(types[index])
    } else {
        None
    }
}

/// The menu leaves no type out and offers none twice.
pub proof fn lemma_menu_offers_each_type_once(ty: CommitType)
    ensures
        exists|i: int| 0 <= i < type_list().len() && type_list()[i] == ty,
        forall|i: int, j: int|
            0 <= i < j < type_list().len() ==> type_list()[i] != type_list()[j],
{
    let list = type_list();
    match ty {
        CommitType::Feature => assert(list[0] == ty),
        CommitType::Fix => assert(list[1] == ty),
        CommitType::Docs => assert(list[2] == ty),
        CommitType::Style => assert(list[3] == ty),
        CommitType::Refactor => assert(list[4] == ty),
        CommitType::Perf => assert(list[5] == ty),
        CommitType::Test => assert(list[6] == ty),
        CommitType::Chore => assert(list[7] == ty),
        CommitType::CI => assert(list[8] == ty),
        CommitType::Release => assert(list[9] == ty),
    }
}

} // verus!
