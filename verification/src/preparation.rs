use vstd::prelude::*;
use crate::errors::PreparationError;
use crate::file_import::{mbox_messages, mbox_to_emls, FileImport};
use crate::paths::{
    classify_source, eml_file_name, import_directory, join_path, joined, kind_of_extension,
    path_extension, EmlFileNamer, SourceFileKind,
};

verus! {

// Preparing a file import fills the import directory of a mailbox with the
// eml files to import: it deletes what an earlier import left, creates the
// directory, then copies every eml file and writes every message of every
// mbox file into it, numbered from `0.eml` in the order of the sources;
// other files are skipped. The file system work is the caller's: `step`
// decides, from what came of the last piece of work, what to do next.

/// Where a preparation stands.
#[derive(Debug, Clone, Copy, PartialEq, Eq, Structural)]
pub enum PreparationPhase {
    DeletingDirectory,
    CreatingDirectory,
    ReadingMbox,
    CopyingEml,
    WritingEml,
    Done,
}

/// The work that a preparation asks for next.
#[derive(Debug, PartialEq)]
pub enum PreparationCommand {
    /// delete the directory and its contents, if it exists
    DeleteImportDirectory(String),
    /// create the directory and its parents
    CreateImportDirectory(String),
    /// read the whole mbox file at this path
    ReadMbox(String),
    /// copy the eml file at `from` to `to`
    CopyEml { from: String, to: String },
    /// write these bytes to the file at `to`
    WriteEml { to: String, contents: Vec<u8> },
    /// the preparation is over: the import directory, or the error
    Return(Result<String, PreparationError>),
}

/// What came of the work that a preparation asked for last.
#[derive(Debug, PartialEq)]
pub enum PreparationEvent {
    /// whether the directory could be deleted
    ImportDirectoryDeleted(bool),
    /// whether the directory could be created
    ImportDirectoryCreated(bool),
    /// what came of reading the mbox file
    MboxRead(MboxReading),
    /// whether the eml file could be copied
    EmlCopied(bool),
    /// whether the eml file could be written
    EmlWritten(bool),
}

/// What came of reading an mbox file.
#[derive(Debug, PartialEq)]
pub enum MboxReading {
    /// the file could not be opened
    CouldNotOpen,
    /// the whole file
    Complete(Vec<u8>),
    /// the bytes read before reading failed
    Interrupted(Vec<u8>),
}

/// A preparation, as values.
pub struct PreparationView {
    pub phase: PreparationPhase,
    pub import_directory: Seq<char>,
    pub sources: Seq<Seq<char>>,
    /// index of the next source to look at
    pub next_source: nat,
    /// the messages of the current mbox file still to be written, in order
    pub pending_messages: Seq<Seq<u8>>,
    /// index of the next eml file
    pub next_index: nat,
    /// reading the current mbox file failed: once its messages read before
    /// the failure are written, the preparation fails
    pub interrupted: bool,
}

/// A command, as values.
pub enum CommandView {
    DeleteImportDirectory(Seq<char>),
    CreateImportDirectory(Seq<char>),
    ReadMbox(Seq<char>),
    CopyEml { from: Seq<char>, to: Seq<char> },
    WriteEml { to: Seq<char>, contents: Seq<u8> },
    Return(Result<Seq<char>, PreparationError>),
}

/// The values of a command.
pub open spec fn command_view(c: PreparationCommand) -> CommandView {
    match c {
        PreparationCommand::DeleteImportDirectory(d) => CommandView::DeleteImportDirectory(d@),
        PreparationCommand::CreateImportDirectory(d) => CommandView::CreateImportDirectory(d@),
        PreparationCommand::ReadMbox(p) => CommandView::ReadMbox(p@),
        PreparationCommand::CopyEml { from, to } => CommandView::CopyEml { from: from@, to: to@ },
        PreparationCommand::WriteEml { to, contents } => CommandView::WriteEml { to: to@, contents: contents@ },
        PreparationCommand::Return(Ok(d)) => CommandView::Return(Ok(d@)),
        PreparationCommand::Return(Err(e)) => CommandView::Return(Err(e)),
    }
}

/// The path of the `index`-th eml file in the import directory.
pub open spec fn eml_target(directory: Seq<char>, index: nat) -> Seq<char> {
    joined(directory, eml_file_name(index))
}

/// The preparation has ended, with this result.
pub open spec fn finished(v: PreparationView, result: Result<Seq<char>, PreparationError>) -> (PreparationView, CommandView) {
    (PreparationView { phase: PreparationPhase::Done, ..v }, CommandView::Return(result))
}

/// Goes on with the next source that is an eml or an mbox file, skipping any
/// other; the directory is returned when no source is left.
pub open spec fn advance(v: PreparationView) -> (PreparationView, CommandView)
    decreases v.sources.len() - v.next_source,
{
    if v.next_source >= v.sources.len() {
        finished(v, Ok(v.import_directory))
    } else {
        let path = v.sources[v.next_source as int];
        let w = PreparationView { next_source: v.next_source + 1, ..v };
        match kind_of_extension(path_extension(path)) {
            SourceFileKind::Mbox => (
                PreparationView { phase: PreparationPhase::ReadingMbox, ..w },
                CommandView::ReadMbox(path),
            ),
            SourceFileKind::Eml => (
                PreparationView { phase: PreparationPhase::CopyingEml, next_index: v.next_index + 1, ..w },
                CommandView::CopyEml { from: path, to: eml_target(v.import_directory, v.next_index) },
            ),
            SourceFileKind::Other => advance(w),
        }
    }
}

/// Writes the next message of the current mbox file, or, once all are
/// written, goes on with the next source (or fails, if reading the mbox file
/// was interrupted).
pub open spec fn write_next(v: PreparationView) -> (PreparationView, CommandView) {
    if v.pending_messages.len() == 0 {
        if v.interrupted {
            finished(v, Err(PreparationError::NotAValidEmailFile))
        } else {
            advance(v)
        }
    } else {
        (
            PreparationView {
                phase: PreparationPhase::WritingEml,
                pending_messages: v.pending_messages.drop_first(),
                next_index: v.next_index + 1,
                ..v
            },
            CommandView::WriteEml {
                to: eml_target(v.import_directory, v.next_index),
                contents: v.pending_messages[0],
            },
        )
    }
}

/// The messages of an mbox file whose reading was interrupted that were
/// complete before the failure: all but the last, which was still being read.
pub open spec fn complete_messages(messages: Seq<Seq<u8>>) -> Seq<Seq<u8>> {
    if messages.len() == 0 { messages } else { messages.drop_last() }
}

/// The event answers the work that the phase asked for.
pub open spec fn spec_accepts(phase: PreparationPhase, event: PreparationEvent) -> bool {
    match phase {
        PreparationPhase::DeletingDirectory => event is ImportDirectoryDeleted,
        PreparationPhase::CreatingDirectory => event is ImportDirectoryCreated,
        PreparationPhase::ReadingMbox => event is MboxRead,
        PreparationPhase::CopyingEml => event is EmlCopied,
        PreparationPhase::WritingEml => event is EmlWritten,
        PreparationPhase::Done => false,
    }
}

/// The next preparation and the next piece of work.
pub open spec fn spec_step(v: PreparationView, event: PreparationEvent) -> (PreparationView, CommandView) {
    match event {
        PreparationEvent::ImportDirectoryDeleted(ok) => if ok {
            (
                PreparationView { phase: PreparationPhase::CreatingDirectory, ..v },
                CommandView::CreateImportDirectory(v.import_directory),
            )
        } else {
            finished(v, Err(PreparationError::CanNotDeleteImportDir))
        },
        PreparationEvent::ImportDirectoryCreated(ok) => if ok {
            advance(v)
        } else {
            finished(v, Err(PreparationError::CanNotCreateImportDir))
        },
        PreparationEvent::MboxRead(reading) => match reading {
            MboxReading::Complete(bytes) => match mbox_messages(bytes@) {
                Some(messages) => write_next(PreparationView { pending_messages: messages, ..v }),
                None => finished(v, Err(PreparationError::NotAValidEmailFile)),
            },
            MboxReading::Interrupted(bytes) => match mbox_messages(bytes@) {
                Some(messages) => write_next(
                    PreparationView { pending_messages: complete_messages(messages), interrupted: true, ..v },
                ),
                None => finished(v, Err(PreparationError::NotAValidEmailFile)),
            },
            MboxReading::CouldNotOpen => finished(v, Err(PreparationError::FileReadError)),
        },
        PreparationEvent::EmlCopied(ok) => if ok {
            advance(v)
        } else {
            finished(v, Err(PreparationError::EmlFileWriteFailure))
        },
        PreparationEvent::EmlWritten(ok) => if ok {
            write_next(v)
        } else {
            finished(v, Err(PreparationError::EmlFileWriteFailure))
        },
    }
}

/// The source at `i` is neither an eml nor an mbox file.
pub open spec fn skipped(v: PreparationView, i: int) -> bool {
    kind_of_extension(path_extension(v.sources[i])) == SourceFileKind::Other
}

/// What going on with the next source does: it looks at the sources in
/// order from `next_source`, passes over those that are neither eml nor mbox
/// files, and asks to read the first mbox file or to copy the first eml file
/// to the eml file with the next index; with no such source left, it returns
/// the import directory.
pub proof fn lemma_advance(v: PreparationView)
    ensures
        advance(v).0.import_directory == v.import_directory,
        advance(v).0.sources == v.sources,
        advance(v).0.pending_messages == v.pending_messages,
        advance(v).0.interrupted == v.interrupted,
        v.next_source <= advance(v).0.next_source,
        advance(v).1 matches CommandView::ReadMbox(path) ==> {
            let w = advance(v).0;
            &&& w.next_source <= v.sources.len()
            &&& path == v.sources[w.next_source - 1]
            &&& kind_of_extension(path_extension(path)) == SourceFileKind::Mbox
            &&& w.next_index == v.next_index
            &&& w.phase == PreparationPhase::ReadingMbox
            &&& forall|i: int| v.next_source <= i < w.next_source - 1 ==> skipped(v, i)
        },
        advance(v).1 matches CommandView::CopyEml { from, to } ==> {
            let w = advance(v).0;
            &&& w.next_source <= v.sources.len()
            &&& from == v.sources[w.next_source - 1]
            &&& kind_of_extension(path_extension(from)) == SourceFileKind::Eml
            &&& to == eml_target(v.import_directory, v.next_index)
            &&& w.next_index == v.next_index + 1
            &&& w.phase == PreparationPhase::CopyingEml
            &&& forall|i: int| v.next_source <= i < w.next_source - 1 ==> skipped(v, i)
        },
        advance(v).1 matches CommandView::Return(result) ==> {
            &&& result == Ok::<Seq<char>, PreparationError>(v.import_directory)
            &&& advance(v).0.next_index == v.next_index
            &&& advance(v).0.next_source >= v.sources.len()
            &&& advance(v).0.phase == PreparationPhase::Done
            &&& forall|i: int| v.next_source <= i < v.sources.len() ==> skipped(v, i)
        },
        advance(v).1 is ReadMbox || advance(v).1 is CopyEml || advance(v).1 is Return,
    decreases v.sources.len() - v.next_source,
{
    if v.next_source < v.sources.len() {
        let path = v.sources[v.next_source as int];
        let w = PreparationView { next_source: v.next_source + 1, ..v };
        if kind_of_extension(path_extension(path)) == SourceFileKind::Other {
            lemma_advance(w);
            assert(advance(v) == advance(w));
            assert(skipped(v, v.next_source as int));
            assert forall|i: int| #![auto] v.next_source <= i < v.sources.len() && skipped(w, i) implies skipped(v, i) by {}
            let u = advance(w).0;
            match advance(w).1 {
                CommandView::ReadMbox(_) => {
                    assert forall|i: int| v.next_source <= i < u.next_source - 1 implies skipped(v, i) by {
                        if i > v.next_source {
                            assert(skipped(w, i));
                        }
                    }
                },
                CommandView::CopyEml { .. } => {
                    assert forall|i: int| v.next_source <= i < u.next_source - 1 implies skipped(v, i) by {
                        if i > v.next_source {
                            assert(skipped(w, i));
                        }
                    }
                },
                CommandView::Return(_) => {
                    assert forall|i: int| v.next_source <= i < v.sources.len() implies skipped(v, i) by {
                        if i > v.next_source {
                            assert(skipped(w, i));
                        }
                    }
                },
                _ => {},
            }
        }
    }
}

/// The law of the numbering: every step that asks to copy or write an eml
/// file names it after the next index and moves the index on by one; every
/// other step keeps the index. Since a preparation starts at index 0, the
/// `k`-th eml file copied or written is `k.eml` in the import directory.
/// Sources are looked at in order, each once, and only those that are
/// neither eml nor mbox files are passed over; the messages of an mbox file
/// are written in the order of the file. The import directory and the
/// sources never change.
pub proof fn lemma_preparation_step(v: PreparationView, event: PreparationEvent)
    requires
        spec_accepts(v.phase, event),
    ensures
        spec_step(v, event).0.import_directory == v.import_directory,
        spec_step(v, event).0.sources == v.sources,
        v.next_source <= spec_step(v, event).0.next_source,
        spec_step(v, event).1 matches CommandView::CopyEml { from, to } ==> {
            let w = spec_step(v, event).0;
            &&& to == eml_target(v.import_directory, v.next_index)
            &&& w.next_index == v.next_index + 1
            &&& from == v.sources[w.next_source - 1]
            &&& forall|i: int| v.next_source <= i < w.next_source - 1 ==> skipped(v, i)
        },
        spec_step(v, event).1 matches CommandView::WriteEml { to, contents } ==> {
            let w = spec_step(v, event).0;
            &&& to == eml_target(v.import_directory, v.next_index)
            &&& w.next_index == v.next_index + 1
            &&& w.next_source == v.next_source
            &&& (event is EmlWritten ==> contents == v.pending_messages[0]
                && w.pending_messages == v.pending_messages.drop_first())
            &&& (event matches PreparationEvent::MboxRead(MboxReading::Complete(bytes)) ==> {
                &&& mbox_messages(bytes@) matches Some(messages)
                &&& contents == messages[0]
                &&& w.pending_messages == messages.drop_first()
            })
            &&& (event matches PreparationEvent::MboxRead(MboxReading::Interrupted(bytes)) ==> {
                &&& mbox_messages(bytes@) matches Some(messages)
                &&& contents == complete_messages(messages)[0]
                &&& w.pending_messages == complete_messages(messages).drop_first()
            })
        },
        !(spec_step(v, event).1 is CopyEml) && !(spec_step(v, event).1 is WriteEml)
            ==> spec_step(v, event).0.next_index == v.next_index,
{
    lemma_advance(v);
    match event {
        PreparationEvent::MboxRead(MboxReading::Complete(bytes)) => {
            if let Some(messages) = mbox_messages(bytes@) {
                let u = PreparationView { pending_messages: messages, ..v };
                lemma_advance(u);
                assert forall|i: int| #![auto] skipped(u, i) implies skipped(v, i) by {}
            }
        },
        _ => {},
    }
}

/// A preparation succeeds only once every source has been looked at: when a
/// step ends it with the import directory, no source is left after it, and
/// every source that was still ahead was neither an eml nor an mbox file. An
/// mbox file without messages therefore ends nothing: the preparation goes on
/// with the next source, as after a copied eml file.
pub proof fn lemma_success_only_after_all_sources(v: PreparationView, event: PreparationEvent)
    ensures
        spec_step(v, event).1 matches CommandView::Return(Ok(d)) ==> {
            &&& d == v.import_directory
            &&& spec_step(v, event).0.next_source >= v.sources.len()
            &&& forall|i: int| v.next_source <= i < v.sources.len() ==> skipped(v, i)
        },
        event matches PreparationEvent::MboxRead(MboxReading::Complete(bytes)) ==> (
        mbox_messages(bytes@) == Some(Seq::<Seq<u8>>::empty()) && !v.interrupted ==> {
            &&& spec_step(v, event).1 == advance(v).1
            &&& spec_step(v, event).0.next_source == advance(v).0.next_source
            &&& spec_step(v, event).0.next_index == advance(v).0.next_index
        }),
{
    lemma_advance(v);
    match event {
        PreparationEvent::MboxRead(MboxReading::Complete(bytes)) => {
            if let Some(messages) = mbox_messages(bytes@) {
                let u = PreparationView { pending_messages: messages, ..v };
                lemma_advance(u);
                assert forall|i: int| #![auto] skipped(u, i) implies skipped(v, i) by {}
                if messages.len() == 0 && !v.interrupted {
                    let e = PreparationView { pending_messages: Seq::<Seq<u8>>::empty(), ..v };
                    assert(messages =~= Seq::<Seq<u8>>::empty());
                    assert(u == e);
                    lemma_advance_ignores_pending(v, messages);
                }
            }
        },
        _ => {},
    }
}

/// What is left to write of an mbox file plays no part in going on with the
/// next source.
proof fn lemma_advance_ignores_pending(v: PreparationView, pending: Seq<Seq<u8>>)
    ensures
        advance(PreparationView { pending_messages: pending, ..v }).1 == advance(v).1,
        advance(PreparationView { pending_messages: pending, ..v }).0.next_source == advance(v).0.next_source,
        advance(PreparationView { pending_messages: pending, ..v }).0.next_index == advance(v).0.next_index,
    decreases v.sources.len() - v.next_source,
{
    if v.next_source < v.sources.len() {
        let w = PreparationView { next_source: v.next_source + 1, ..v };
        lemma_advance_ignores_pending(w, pending);
        assert(PreparationView { next_source: v.next_source + 1, ..PreparationView { pending_messages: pending, ..v } }
            == PreparationView { pending_messages: pending, ..w });
    }
}

/// Every failure ends the preparation with the error of the work that
/// failed: an mbox file that cannot be opened is a read error, one that is
/// not a valid mbox file is not a valid email file, and an eml file that
/// cannot be copied or written is a write failure.
pub proof fn lemma_failures_end_with_their_error(v: PreparationView, bytes: Vec<u8>)
    ensures
        spec_step(v, PreparationEvent::MboxRead(MboxReading::CouldNotOpen)).1
            == CommandView::Return(Err(PreparationError::FileReadError)),
        mbox_messages(bytes@) is None ==> spec_step(v, PreparationEvent::MboxRead(MboxReading::Complete(bytes))).1
            == CommandView::Return(Err(PreparationError::NotAValidEmailFile)),
        spec_step(v, PreparationEvent::EmlCopied(false)).1
            == CommandView::Return(Err(PreparationError::EmlFileWriteFailure)),
        spec_step(v, PreparationEvent::EmlWritten(false)).1
            == CommandView::Return(Err(PreparationError::EmlFileWriteFailure)),
        spec_step(v, PreparationEvent::EmlCopied(false)).0.phase == PreparationPhase::Done,
        spec_step(v, PreparationEvent::EmlWritten(false)).0.phase == PreparationPhase::Done,
        spec_step(v, PreparationEvent::MboxRead(MboxReading::CouldNotOpen)).0.phase == PreparationPhase::Done,
{
}

/// A preparation begins by deleting the import directory and then creating
/// it, before it touches any source; a failure of either ends it with its
/// error.
pub proof fn lemma_directory_is_emptied_first(v: PreparationView)
    requires
        v.phase == PreparationPhase::DeletingDirectory,
    ensures
        spec_step(v, PreparationEvent::ImportDirectoryDeleted(true)).1
            == CommandView::CreateImportDirectory(v.import_directory),
        spec_step(v, PreparationEvent::ImportDirectoryDeleted(false)).1
            == CommandView::Return(Err(PreparationError::CanNotDeleteImportDir)),
        spec_step(
            PreparationView { phase: PreparationPhase::CreatingDirectory, ..v },
            PreparationEvent::ImportDirectoryCreated(false),
        ).1 == CommandView::Return(Err(PreparationError::CanNotCreateImportDir)),
{
}

/// A preparation of a file import.
pub struct FilePreparation {
    phase: PreparationPhase,
    import_directory: String,
    sources: Vec<String>,
    next_source: usize,
    pending_messages: Vec<Vec<u8>>,
    namer: EmlFileNamer,
    interrupted: bool,
}

impl View for FilePreparation {
    type V = PreparationView;

    closed spec fn view(&self) -> PreparationView {
        PreparationView {
            phase: self.phase,
            import_directory: self.import_directory@,
            sources: self.sources@.map_values(|p: String| p@),
            next_source: self.next_source as nat,
            pending_messages: self.pending_messages@.map_values(|m: Vec<u8>| m@),
            next_index: self.namer.next_index as nat,
            interrupted: self.interrupted,
        }
    }
}

impl FilePreparation {
    /// A preparation of the import into the mailbox of the files at
    /// `source_paths`, in the import directory of the mailbox; its first
    /// piece of work deletes that directory.
    pub fn new(config_directory: &str, mailbox_id: &str, source_paths: Vec<String>) -> (r: (FilePreparation, PreparationCommand))
        ensures
            r.0@ == (PreparationView {
                phase: PreparationPhase::DeletingDirectory,
                import_directory: import_directory(config_directory@, mailbox_id@),
                sources: source_paths@.map_values(|p: String| p@),
                next_source: 0,
                pending_messages: Seq::empty(),
                next_index: 0,
                interrupted: false,
            }),
            command_view(r.1) == CommandView::DeleteImportDirectory(import_directory(config_directory@, mailbox_id@)),
    {
        let directory = FileImport::make_import_directory(config_directory, mailbox_id);
        let command = PreparationCommand::DeleteImportDirectory(directory.clone());
        let preparation = FilePreparation {
            phase: PreparationPhase::DeletingDirectory,
            import_directory: directory,
            sources: source_paths,
            next_source: 0,
            pending_messages: Vec::new(),
            namer: EmlFileNamer::new(),
            interrupted: false,
        };
        assert(preparation@.pending_messages =~= Seq::<Seq<u8>>::empty());
        (preparation, command)
    }

    /// The index of the next eml file.
    pub fn next_eml_index(&self) -> (r: u64)
        ensures
            r == self@.next_index,
    {
        self.namer.next_index
    }

    /// Whether the event answers the work that the preparation asked for.
    pub fn accepts(&self, event: &PreparationEvent) -> (r: bool)
        ensures
            r == spec_accepts(self@.phase, *event),
    {
        match self.phase {
            PreparationPhase::DeletingDirectory => matches!(event, PreparationEvent::ImportDirectoryDeleted(_)),
            PreparationPhase::CreatingDirectory => matches!(event, PreparationEvent::ImportDirectoryCreated(_)),
            PreparationPhase::ReadingMbox => matches!(event, PreparationEvent::MboxRead(_)),
            PreparationPhase::CopyingEml => matches!(event, PreparationEvent::EmlCopied(_)),
            PreparationPhase::WritingEml => matches!(event, PreparationEvent::EmlWritten(_)),
            PreparationPhase::Done => false,
        }
    }

    fn finish(&mut self, result: Result<String, PreparationError>) -> (r: PreparationCommand)
        ensures
            (final(self)@, command_view(r)) == finished(old(self)@, match result {
                Ok(d) => Ok(d@),
                Err(e) => Err(e),
            }),
    {
        self.phase = PreparationPhase::Done;
        PreparationCommand::Return(result)
    }

    fn advance(&mut self) -> (r: PreparationCommand)
        requires
            old(self)@.next_index < u64::MAX,
        ensures
            (final(self)@, command_view(r)) == advance(old(self)@),
    {
        while self.next_source < self.sources.len()
            invariant
                self@.next_index < u64::MAX,
                advance(self@) == advance(old(self)@),
            decreases self.sources@.len() - self.next_source,
        {
            let i = self.next_source;
            let ghost before = self@;
            let kind = classify_source(self.sources[i].as_str());
            self.next_source = i + 1;
            assert(self@ == PreparationView { next_source: before.next_source + 1, ..before });
            match kind {
                SourceFileKind::Mbox => {
                    self.phase = PreparationPhase::ReadingMbox;
                    return PreparationCommand::ReadMbox(self.sources[i].clone());
                },
                SourceFileKind::Eml => {
                    let name = self.namer.next_file_name();
                    let to = join_path(self.import_directory.as_str(), name.as_str());
                    self.phase = PreparationPhase::CopyingEml;
                    return PreparationCommand::CopyEml { from: self.sources[i].clone(), to };
                },
                SourceFileKind::Other => {},
            }
        }
        let directory = self.import_directory.clone();
        self.finish(Ok(directory))
    }

    fn write_next(&mut self) -> (r: PreparationCommand)
        requires
            old(self)@.next_index < u64::MAX,
        ensures
            (final(self)@, command_view(r)) == write_next(old(self)@),
    {
        if self.pending_messages.len() == 0 {
            if self.interrupted {
                self.finish(Err(PreparationError::NotAValidEmailFile))
            } else {
                self.advance()
            }
        } else {
            let ghost before = self@;
            let contents = self.pending_messages.remove(0);
            let name = self.namer.next_file_name();
            let to = join_path(self.import_directory.as_str(), name.as_str());
            self.phase = PreparationPhase::WritingEml;
            assert(self@.pending_messages =~= before.pending_messages.drop_first());
            PreparationCommand::WriteEml { to, contents }
        }
    }

    /// One decision of the preparation: from what came of the last piece of
    /// work, the next piece of work. A failure ends the preparation with its
    /// error; the eml files are numbered in the order in which they are
    /// copied or written, from `0.eml`.
    pub fn step(&mut self, event: PreparationEvent) -> (r: PreparationCommand)
        requires
            spec_accepts(old(self)@.phase, event),
            old(self)@.next_index < u64::MAX,
        ensures
            (final(self)@, command_view(r)) == spec_step(old(self)@, event),
    {
        match event {
            PreparationEvent::ImportDirectoryDeleted(ok) => {
                if ok {
                    self.phase = PreparationPhase::CreatingDirectory;
                    PreparationCommand::CreateImportDirectory(self.import_directory.clone())
                } else {
                    self.finish(Err(PreparationError::CanNotDeleteImportDir))
                }
            },
            PreparationEvent::ImportDirectoryCreated(ok) => {
                if ok {
                    self.advance()
                } else {
                    self.finish(Err(PreparationError::CanNotCreateImportDir))
                }
            },
            PreparationEvent::MboxRead(reading) => match reading {
                MboxReading::Complete(bytes) => match mbox_to_emls(bytes.as_slice()) {
                    Ok(messages) => {
                        self.pending_messages = messages;
                        self.write_next()
                    },
                    Err(e) => self.finish(Err(e)),
                },
                MboxReading::Interrupted(bytes) => match mbox_to_emls(bytes.as_slice()) {
                    Ok(messages) => {
                        let mut messages = messages;
                        let ghost all = messages@.map_values(|m: Vec<u8>| m@);
                        if messages.len() > 0 {
                            messages.pop();
                        }
                        assert(messages@.map_values(|m: Vec<u8>| m@) =~= complete_messages(all));
                        self.pending_messages = messages;
                        self.interrupted = true;
                        self.write_next()
                    },
                    Err(e) => self.finish(Err(e)),
                },
                MboxReading::CouldNotOpen => self.finish(Err(PreparationError::FileReadError)),
            },
            PreparationEvent::EmlCopied(ok) => {
                if ok {
                    self.advance()
                } else {
                    self.finish(Err(PreparationError::EmlFileWriteFailure))
                }
            },
            PreparationEvent::EmlWritten(ok) => {
                if ok {
                    self.write_next()
                } else {
                    self.finish(Err(PreparationError::EmlFileWriteFailure))
                }
            },
        }
    }
}

} // verus!
