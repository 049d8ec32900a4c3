//! The read command: open the file at a path, then read all of it as text.

use vstd::prelude::*;
use crate::failure::{failure_text, IoFailure, Stage};
use crate::save::{file_text_after, save_begin, save_next, SaveModel};

verus! {

/// Where a read stands. A state that is not `Done` names the request that the
/// host carries out next; its answer goes to `step`.
#[derive(Debug, PartialEq, Eq)]
pub enum ReadState {
    /// Open the file at `file_path`.
    Open { file_path: String },
    /// Read the opened file to its end, as text.
    Read,
    /// Nothing is left to do: the command's result.
    Done(Result<String, IoFailure>),
}

/// A read as plain text values.
pub enum ReadModel {
    Open { file_path: Seq<char> },
    Read,
    Done(Result<Seq<char>, Seq<char>>),
}

impl View for ReadState {
    type V = ReadModel;

    open spec fn view(&self) -> ReadModel {
        match *self {
            ReadState::Open { file_path } => ReadModel::Open { file_path: file_path@ },
            ReadState::Read => ReadModel::Read,
            ReadState::Done(Ok(text)) => ReadModel::Done(Ok(text@)),
            ReadState::Done(Err(failure)) => ReadModel::Done(Err(failure@)),
        }
    }
}

/// What the system answered to a request of a read.
#[derive(Clone, Debug, PartialEq, Eq)]
pub enum ReadAnswer {
    /// The file is open.
    Opened,
    /// The file was read to its end and held this text.
    Contents(String),
    /// The request was refused, with the system's error text.
    Failed(String),
}

/// An answer as plain text values.
pub enum AnswerModel {
    Opened,
    Contents(Seq<char>),
    Failed(Seq<char>),
}

impl View for ReadAnswer {
    type V = AnswerModel;

    open spec fn view(&self) -> AnswerModel {
        match *self {
            ReadAnswer::Opened => AnswerModel::Opened,
            ReadAnswer::Contents(text) => AnswerModel::Contents(text@),
            ReadAnswer::Failed(detail) => AnswerModel::Failed(detail@),
        }
    }
}

/// The state in which a read of `file_path` begins.
pub open spec fn read_begin(file_path: Seq<char>) -> ReadModel {
    ReadModel::Open { file_path }
}

/// The state that follows `state` once the system has answered its request.
/// A refusal ends the read with the message of the stage that was refused.
/// An answer to a request that `state` did not make changes nothing, and a
/// finished read stays as it is.
pub open spec fn read_next(state: ReadModel, answer: AnswerModel) -> ReadModel {
    match (state, answer) {
        (ReadModel::Open { .. }, AnswerModel::Opened) => ReadModel::Read,
        (ReadModel::Open { .. }, AnswerModel::Failed(detail)) => ReadModel::Done(
            Err(failure_text(Stage::Open, detail)),
        ),
        (ReadModel::Read, AnswerModel::Contents(text)) => ReadModel::Done(Ok(text)),
        (ReadModel::Read, AnswerModel::Failed(detail)) => ReadModel::Done(
            Err(failure_text(Stage::Read, detail)),
        ),
        (state, _) => state,
    }
}

/// The result of a whole read, from what the system answers to the open
/// (done, or its error text) and, if it comes to that, to the read (the text,
/// or its error text).
pub open spec fn read_result(
    opened: Result<(), Seq<char>>,
    contents: Result<Seq<char>, Seq<char>>,
) -> Result<Seq<char>, Seq<char>> {
    match (opened, contents) {
        (Err(detail), _) => Err(failure_text(Stage::Open, detail)),
        (Ok(_), Err(detail)) => Err(failure_text(Stage::Read, detail)),
        (Ok(_), Ok(text)) => Ok(text),
    }
}

/// The answer that stands for the outcome of an open.
pub open spec fn open_answer(opened: Result<(), Seq<char>>) -> AnswerModel {
    match opened {
        Ok(_) => AnswerModel::Opened,
        Err(detail) => AnswerModel::Failed(detail),
    }
}

/// The answer that stands for the outcome of reading to the end.
pub open spec fn contents_answer(contents: Result<Seq<char>, Seq<char>>) -> AnswerModel {
    match contents {
        Ok(text) => AnswerModel::Contents(text),
        Err(detail) => AnswerModel::Failed(detail),
    }
}

impl ReadState {
    /// Begins a read of `file_path`.
    pub fn begin(file_path: String) -> (state: ReadState)
        ensures
            state@ == read_begin(file_path@),
    {
        ReadState::Open { file_path }
    }

    /// Takes the system's answer to the request that this state names and
    /// gives the state that follows.
    pub fn step(self, answer: ReadAnswer) -> (next: ReadState)
        ensures
            next@ == read_next(self@, answer@),
    {
        match self {
            ReadState::Open { file_path } => match answer {
                ReadAnswer::Opened => ReadState::Read,
                ReadAnswer::Failed(detail) => ReadState::Done(
                    Err(IoFailure::at(Stage::Open, detail.as_str())),
                ),
                ReadAnswer::Contents(_) => ReadState::Open { file_path },
            },
            ReadState::Read => match answer {
                ReadAnswer::Contents(text) => ReadState::Done(Ok(text)),
                ReadAnswer::Failed(detail) => ReadState::Done(
                    Err(IoFailure::at(Stage::Read, detail.as_str())),
                ),
                ReadAnswer::Opened => ReadState::Read,
            },
            ReadState::Done(result) => ReadState::Done(result),
        }
    }
}

/// A read asks for the file at the given path to be opened, then, if that
/// was done, for its text, and ends with `read_result` of the two answers; a
/// refused open ends it at once.
pub proof fn lemma_read_run(
    file_path: Seq<char>,
    opened: Result<(), Seq<char>>,
    contents: Result<Seq<char>, Seq<char>>,
)
    ensures
        read_begin(file_path) == (ReadModel::Open { file_path }),
        opened is Ok ==> read_next(read_begin(file_path), open_answer(opened)) == ReadModel::Read,
        opened is Err ==> read_next(read_begin(file_path), open_answer(opened)) == ReadModel::Done(
            read_result(opened, contents),
        ),
        read_next(
            read_next(read_begin(file_path), open_answer(opened)),
            contents_answer(contents),
        ) == ReadModel::Done(read_result(opened, contents)),
{
}

/// A refused open ends the read at once, with a message that begins with
/// the words for an open failure and ends with the system's own.
pub proof fn lemma_refused_open(file_path: Seq<char>, detail: Seq<char>)
    ensures
        read_next(read_begin(file_path), AnswerModel::Failed(detail)) == ReadModel::Done(
            Err("Failed to open file: "@ + detail),
        ),
        "Failed to open file"@.is_prefix_of("Failed to open file: "@ + detail),
{
    reveal_strlit("Failed to open file");
    reveal_strlit("Failed to open file: ");
    reveal_strlit(": ");
    assert(failure_text(Stage::Open, detail) =~= "Failed to open file: "@ + detail);
}

/// Saving and reading back gives the content unchanged: where the system
/// carries out every request, a read of the path to which `content` was
/// saved asks for that same path and returns exactly `content`, whatever the
/// file held before the save.
pub proof fn lemma_read_returns_saved_content(
    content: Seq<char>,
    file_path: Seq<char>,
    held: Seq<char>,
)
    ensures
        ({
            let create = save_begin(content, file_path);
            let write = save_next(create, Ok(()));
            let saved = file_text_after(write, file_text_after(create, held));
            let open = read_begin(file_path);
            let read = read_next(open, AnswerModel::Opened);
            &&& create == (SaveModel::Create { file_path, content })
            &&& open == (ReadModel::Open { file_path })
            &&& read_next(read, AnswerModel::Contents(saved)) == ReadModel::Done(Ok(content))
        }),
{
    assert(Seq::<char>::empty() + content =~= content);
}

} // verus!
