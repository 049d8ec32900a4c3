//! Failure messages: a label for the stage that failed, then the system's
//! own words.

use vstd::prelude::*;

verus! {

/// The point of a file command at which the system can refuse.
#[derive(Clone, Copy, Debug, PartialEq, Eq, Structural)]
pub enum Stage {
    Create,
    Write,
    Open,
    Read,
}

impl Stage {
    /// The words that open every message of a failure at this stage.
    pub open spec fn label(self) -> Seq<char> {
        match self {
            Stage::Create => "Failed to create file"@,
            Stage::Write => "Failed to write to file"@,
            Stage::Open => "Failed to open file"@,
            Stage::Read => "Failed to read file"@,
        }
    }

    /// The label as text.
    pub fn label_str(self) -> (text: &'static str)
        ensures
            text@ == self.label(),
    {
        match self {
            Stage::Create => "Failed to create file",
            Stage::Write => "Failed to write to file",
            Stage::Open => "Failed to open file",
            Stage::Read => "Failed to read file",
        }
    }
}

/// The message of a failure at `stage` for which the system gave `detail`:
/// the label, a colon and a space, then the detail unchanged.
pub open spec fn failure_text(stage: Stage, detail: Seq<char>) -> Seq<char> {
    stage.label() + ": "@ + detail
}

/// The one kind of error of the file commands: an I/O failure, known by its
/// message.
#[derive(Clone, Debug, PartialEq, Eq)]
pub struct IoFailure {
    pub message: String,
}

impl View for IoFailure {
    type V = Seq<char>;

    open spec fn view(&self) -> Seq<char> {
        self.message@
    }
}

impl IoFailure {
    /// The failure at `stage` for which the system gave `detail`.
    pub fn at(stage: Stage, detail: &str) -> (failure: IoFailure)
        ensures
            failure@ == failure_text(stage, detail@),
    {
        let mut message = stage.label_str().to_owned();
        message.append(": ");
        message.append(detail);
        IoFailure { message }
    }

    /// The message, by value.
    pub fn into_message(self) -> (message: String)
        ensures
            message@ == self@,
    {
        self.message
    }
}

/// Every message begins with the label of its stage, and what follows the
/// label, the colon and the space is the detail, unchanged.
pub proof fn lemma_message_starts_with_label(stage: Stage, detail: Seq<char>)
    ensures
        stage.label().is_prefix_of(failure_text(stage, detail)),
        failure_text(stage, detail).len() == stage.label().len() + 2 + detail.len(),
        failure_text(stage, detail).skip(stage.label().len() + 2 as int) == detail,
{
    reveal_strlit(": ");
    let text = failure_text(stage, detail);
    assert(text.subrange(0, stage.label().len() as int) =~= stage.label());
    assert(text.skip(stage.label().len() + 2 as int) =~= detail);
}

/// A message tells which stage failed and what the system said: two
/// messages are equal only if stage and detail both are.
pub proof fn lemma_message_names_stage(a: Stage, da: Seq<char>, b: Stage, db: Seq<char>)
    requires
        failure_text(a, da) == failure_text(b, db),
    ensures
        a == b,
        da == db,
{
    reveal_strlit("Failed to create file");
    reveal_strlit("Failed to write to file");
    reveal_strlit("Failed to open file");
    reveal_strlit("Failed to read file");
    reveal_strlit(": ");
    let ta = failure_text(a, da);
    let tb = failure_text(b, db);
    assert(ta[10] == a.label()[10]);
    assert(tb[10] == b.label()[10]);
    assert(a == b);
    lemma_message_starts_with_label(a, da);
    lemma_message_starts_with_label(b, db);
}

} // verus!
