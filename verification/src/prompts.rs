//! What the user is asked, and which answers may be left empty.

use vstd::prelude::*;

verus! {

/// The free-text answers, in the order in which they are asked for.
#[derive(Copy, Clone, PartialEq, Eq, Structural, Debug)]
pub enum Field {
    Scope,
    Subject,
    Body,
    Breaking,
    Issues,
}

/// The question above the menu of commit types.
pub open spec fn type_prompt_text() -> Seq<char> {
    "Select the type of change that you're committing"@
}

/// The notice shown before the first question.
pub open spec fn notice_text() -> Seq<char> {
    "\nAll commit message lines will be cropped at 100 characters.\n"@
}

/// The free-text fields in asking order.
pub open spec fn field_list() -> Seq<Field> {
    seq![Field::Scope, Field::Subject, Field::Body, Field::Breaking, Field::Issues]
}

impl Field {
    /// The question that asks for this field.
    pub open spec fn prompt_text(self) -> Seq<char> {
        match self {
            Field::Scope => "What is the scope of this change (e.g. component or file name)? (press enter to skip) "@,
            Field::Subject => "Write a short, imperative tense description of the change:\n"@,
            Field::Body => "Provide a longer description of the change: (press enter to skip)\n"@,
            Field::Breaking => "Describe any breaking changes: (press enter to skip) "@,
            Field::Issues => "Related issues: (press enter to skip) "@,
        }
    }

    /// Whether the user may skip this field. Only the subject is required.
    pub open spec fn optional(self) -> bool {
        self != Field::Subject
    }

    /// Returns the question that asks for this field.
    pub fn prompt(self) -> (out: String)
        ensures
            out@ == self.prompt_text(),
    {
        match self {
            Field::Scope => String::from_str(
                "What is the scope of this change (e.g. component or file name)? (press enter to skip) ",
            ),
            Field::Subject => String::from_str(
                "Write a short, imperative tense description of the change:\n",
            ),
            Field::Body => String::from_str(
                "Provide a longer description of the change: (press enter to skip)\n",
            ),
            Field::Breaking => String::from_str(
                "Describe any breaking changes: (press enter to skip) ",
            ),
            Field::Issues => String::from_str("Related issues: (press enter to skip) "),
        }
    }

    /// Says whether an empty answer is accepted for this field.
    pub fn allows_empty(self) -> (out: bool)
        ensures
            out == self.optional(),
    {
        match self {
            Field::Subject => false,
            _ => true,
        }
    }
}

/// Returns the free-text fields in asking order.
pub fn fields() -> (out: Vec<Field>)
    ensures
        out@ == field_list(),
{
    vec![Field::Scope, Field::Subject, Field::Body, Field::Breaking, Field::Issues]
}

/// Returns the question above the menu of commit types.
pub fn type_prompt() -> (out: String)
    ensures
        out@ == type_prompt_text(),
{
    String::from_str("Select the type of change that you're committing")
}

/// Returns the notice shown before the first question.
pub fn notice() -> (out: String)
    ensures
        out@ == notice_text(),
{
    String::from_str("\nAll commit message lines will be cropped at 100 characters.\n")
}

} // verus!
