//! The save command: create the file at a path, then write the whole
//! content to it.

use vstd::prelude::*;
use crate::failure::{failure_text, IoFailure, Stage};

verus! {

/// Where a save stands. A state that is not `Done` names the request that the
/// host carries out next; its answer goes to `step`.
#[derive(Debug, PartialEq, Eq)]
pub enum SaveState {
    /// Create the file at `file_path`, emptying it if it exists.
    Create { file_path: String, content: String },
    /// Write all of `content` to the file that was created.
    Write { content: String },
    /// Nothing is left to do: the command's result.
    Done(Result<(), IoFailure>),
}

/// A save as plain text values.
pub enum SaveModel {
    Create { file_path: Seq<char>, content: Seq<char> },
    Write { content: Seq<char> },
    Done(Result<(), Seq<char>>),
}

impl View for SaveState {
    type V = SaveModel;

    open spec fn view(&self) -> SaveModel {
        match *self {
            SaveState::Create { file_path, content } => SaveModel::Create {
                file_path: file_path@,
                content: content@,
            },
            SaveState::Write { content } => SaveModel::Write { content: content@ },
            SaveState::Done(Ok(_)) => SaveModel::Done(Ok(())),
            SaveState::Done(Err(failure)) => SaveModel::Done(Err(failure@)),
        }
    }
}

/// What the system answered to a request that hands nothing back: done, or
/// its error text.
pub open spec fn save_answer_model(answer: Result<(), String>) -> Result<(), Seq<char>> {
    match answer {
        Ok(_) => Ok(()),
        Err(detail) => Err(detail@),
    }
}

/// The state in which a save of `content` to `file_path` begins.
pub open spec fn save_begin(content: Seq<char>, file_path: Seq<char>) -> SaveModel {
    SaveModel::Create { file_path, content }
}

/// The state that follows `state` once the system has answered its request.
/// A refusal ends the save with the message of the stage that was refused;
/// a finished save stays as it is.
pub open spec fn save_next(state: SaveModel, answer: Result<(), Seq<char>>) -> SaveModel {
    match (state, answer) {
        (SaveModel::Create { content, .. }, Ok(_)) => SaveModel::Write { content },
        (SaveModel::Create { .. }, Err(detail)) => SaveModel::Done(
            Err(failure_text(Stage::Create, detail)),
        ),
        (SaveModel::Write { .. }, Ok(_)) => SaveModel::Done(Ok(())),
        (SaveModel::Write { .. }, Err(detail)) => SaveModel::Done(
            Err(failure_text(Stage::Write, detail)),
        ),
        (SaveModel::Done(result), _) => SaveModel::Done(result),
    }
}

/// The result of a whole save, from what the system answers to the create
/// and, if it comes to that, to the write.
pub open spec fn save_result(
    created: Result<(), Seq<char>>,
    written: Result<(), Seq<char>>,
) -> Result<(), Seq<char>> {
    match (created, written) {
        (Err(detail), _) => Err(failure_text(Stage::Create, detail)),
        (Ok(_), Err(detail)) => Err(failure_text(Stage::Write, detail)),
        (Ok(_), Ok(_)) => Ok(()),
    }
}

/// The text that the file at the save's path holds once the system has
/// carried out the request of `state`, where it held `held` before: a create
/// leaves it empty, a write adds the content behind what is there.
pub open spec fn file_text_after(state: SaveModel, held: Seq<char>) -> Seq<char> {
    match state {
        SaveModel::Create { .. } => Seq::empty(),
        SaveModel::Write { content } => held + content,
        SaveModel::Done(_) => held,
    }
}

impl SaveState {
    /// Begins a save of `content` to `file_path`.
    pub fn begin(content: String, file_path: String) -> (state: SaveState)
        ensures
            state@ == save_begin(content@, file_path@),
    {
        SaveState::Create { file_path, content }
    }

    /// Takes the system's answer to the request that this state names and
    /// gives the state that follows.
    pub fn step(self, answer: Result<(), String>) -> (next: SaveState)
        ensures
            next@ == save_next(self@, save_answer_model(answer)),
    {
        match self {
            SaveState::Create { file_path: _, content } => match answer {
                Ok(_) => SaveState::Write { content },
                Err(detail) => SaveState::Done(Err(IoFailure::at(Stage::Create, detail.as_str()))),
            },
            SaveState::Write { content: _ } => match answer {
                Ok(_) => SaveState::Done(Ok(())),
                Err(detail) => SaveState::Done(Err(IoFailure::at(Stage::Write, detail.as_str()))),
            },
            SaveState::Done(result) => SaveState::Done(result),
        }
    }
}

/// A save asks for the file at the given path to be created, then, if that
/// was done, for exactly the given content to be written, and ends with
/// `save_result` of the two answers; a refused create ends it at once.
pub proof fn lemma_save_run(
    content: Seq<char>,
    file_path: Seq<char>,
    created: Result<(), Seq<char>>,
    written: Result<(), Seq<char>>,
)
    ensures
        save_begin(content, file_path) == (SaveModel::Create { file_path, content }),
        created is Ok ==> save_next(save_begin(content, file_path), created) == (SaveModel::Write {
            content,
        }),
        created is Err ==> save_next(save_begin(content, file_path), created) == SaveModel::Done(
            save_result(created, written),
        ),
        save_next(save_next(save_begin(content, file_path), created), written) == SaveModel::Done(
            save_result(created, written),
        ),
{
}

/// A refused create ends the save at once, with a message that begins with
/// the words for a create failure and ends with the system's own.
pub proof fn lemma_refused_create(content: Seq<char>, file_path: Seq<char>, detail: Seq<char>)
    ensures
        save_next(save_begin(content, file_path), Err(detail)) == SaveModel::Done(
            Err("Failed to create file: "@ + detail),
        ),
        "Failed to create file"@.is_prefix_of("Failed to create file: "@ + detail),
{
    reveal_strlit("Failed to create file");
    reveal_strlit("Failed to create file: ");
    reveal_strlit(": ");
    assert(failure_text(Stage::Create, detail) =~= "Failed to create file: "@ + detail);
}

/// Whatever the file held before, once the system has carried out both
/// requests of a save it holds exactly the content, and the save has
/// succeeded.
pub proof fn lemma_saved_file_holds_content(
    content: Seq<char>,
    file_path: Seq<char>,
    held: Seq<char>,
)
    ensures
        ({
            let create = save_begin(content, file_path);
            let write = save_next(create, Ok(()));
            &&& file_text_after(write, file_text_after(create, held)) == content
            &&& save_next(write, Ok(())) == SaveModel::Done(Ok(()))
        }),
{
    assert(Seq::<char>::empty() + content =~= content);
}

} // verus!
