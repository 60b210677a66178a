//! One loaded audio file and its life cycle: load, change, save, dispose.
//! Reads and writes of fields go through the one tag that the selection rule
//! picks; `fields` holds a getter and a setter for each of them.

pub mod edit;
pub mod fields;

use vstd::prelude::*;
use crate::engine::{
    file_audio, file_container, file_model, file_of_bytes, first_tag, first_tag_mut,
    primary_tag, primary_tag_mut, probe_bytes, render, rendered, tag_model, TagModel,
};
use crate::error::{ErrorKind, TaggerError, TaggerErrorView};
use crate::meta_picture::opt_text;
use crate::quality::{
    classify_quality, estimate_bit_rate, is_lossless, spec_bit_rate, spec_classify,
    spec_is_lossless, AudioProperties, ContainerKind,
};
use crate::tagger::edit::{apply_edit, spec_edit_ok, spec_edited, TagEdit};
use lofty::file::TaggedFile;
use lofty::tag::Tag;

verus! {

/// Where a loaded file came from, and where a save goes by default.
#[derive(Debug, Clone)]
pub enum Source {
    /// The file's bytes, held in memory.
    Buffer(Vec<u8>),
    /// The file's place on disk, and its size in bytes when it was loaded.
    Path { path: String, size: u64 },
}

/// What is left to do on disk once a save has been decided.
#[derive(Debug, Clone)]
pub enum FileAction {
    /// Nothing: the save was to memory only, and is done.
    Nothing,
    /// Write `bytes` to `path`, then hand them to `commit_buffer`, which makes
    /// them the session's buffer.
    WriteBuffer { path: String, bytes: Vec<u8> },
    /// Write the session's tags into the file at `path`.
    UpdateInPlace { path: String },
    /// Copy the file at `from` to `to` byte for byte, then write the
    /// session's tags into the copy.
    CopyThenUpdate { from: String, to: String },
}

/// A `FileAction` as contracts speak of it.
pub ghost enum FileActionView {
    Nothing,
    WriteBuffer { path: Seq<char>, bytes: Seq<u8> },
    UpdateInPlace { path: Seq<char> },
    CopyThenUpdate { from: Seq<char>, to: Seq<char> },
}

impl View for FileAction {
    type V = FileActionView;

    open spec fn view(&self) -> FileActionView {
        match self {
            FileAction::Nothing => FileActionView::Nothing,
            FileAction::WriteBuffer { path, bytes } => FileActionView::WriteBuffer {
                path: path@,
                bytes: bytes@,
            },
            FileAction::UpdateInPlace { path } => FileActionView::UpdateInPlace { path: path@ },
            FileAction::CopyThenUpdate { from, to } => FileActionView::CopyThenUpdate {
                from: from@,
                to: to@,
            },
        }
    }
}

struct MetaFileInner {
    source: Source,
    file: TaggedFile,
}

/// A session on one audio file. It starts unloaded; a load fills it, the
/// setters change it in place, a save writes it out and `dispose` empties it.
pub struct MusicTagger {
    inner: Option<MetaFileInner>,
}

/// What a loaded session holds.
pub ghost struct SessionModel {
    /// The bytes held in memory; empty for a file loaded from a path.
    pub buffer: Seq<u8>,
    /// The path the file was loaded from, if it was loaded from one.
    pub path: Option<Seq<char>>,
    /// The file's size in bytes: the length of the buffer, or the size that
    /// the file on disk had when it was loaded.
    pub size: nat,
    /// The parsed file.
    pub file: TaggedFile,
}

impl SessionModel {
    /// The tags of the file, in the file's own order.
    pub open spec fn tags(self) -> Seq<Tag> {
        file_model(self.file).tags
    }

    /// The position of the tag that reads and writes go to: the primary tag
    /// where the file has one, else the first tag.
    pub open spec fn selected(self) -> int {
        match file_model(self.file).primary {
            Some(i) => i,
            None => 0,
        }
    }

    /// The tag that reads and writes go to.
    pub open spec fn tag(self) -> TagModel {
        tag_model(self.tags()[self.selected()])
    }

    /// What the container reports of the audio stream.
    pub open spec fn audio(self) -> AudioProperties {
        file_model(self.file).audio
    }

    /// The container's format.
    pub open spec fn container(self) -> ContainerKind {
        file_model(self.file).container
    }

    /// A loaded session has a container of a format with a name, a tag to
    /// select, and exactly one non-empty source.
    pub open spec fn wf(self) -> bool {
        &&& self.container() != ContainerKind::Other
        &&& self.tags().len() > 0
        &&& 0 <= self.selected() < self.tags().len()
        &&& match self.path {
            Some(p) => p.len() > 0 && self.buffer.len() == 0,
            None => self.buffer.len() > 0 && self.size == self.buffer.len(),
        }
    }

    /// `self` and `after` differ in the selected tag at most, and that tag has
    /// kept its format.
    pub open spec fn same_but_tag(self, after: SessionModel) -> bool {
        &&& after.buffer == self.buffer
        &&& after.path == self.path
        &&& after.size == self.size
        &&& file_model(after.file).container == file_model(self.file).container
        &&& file_model(after.file).audio == file_model(self.file).audio
        &&& file_model(after.file).primary == file_model(self.file).primary
        &&& after.tags() == self.tags().update(self.selected(), after.tags()[self.selected()])
        &&& after.tag().kind == self.tag().kind
        &&& after.tag().accepts == self.tag().accepts
        &&& after.tag().accepts_date == self.tag().accepts_date
    }

    /// The session with `bytes` as its buffer.
    pub open spec fn with_buffer(self, bytes: Seq<u8>) -> SessionModel {
        SessionModel { buffer: bytes, size: bytes.len(), ..self }
    }
}

/// The cause given for a write that left no bytes.
pub const NOTHING_WRITTEN: &'static str = "nothing was written";

/// The reason given for a load from an empty buffer or an empty path.
pub const EMPTY_SOURCE: &'static str = "the source is empty";

/// The reason given for a container of a format without a name.
pub const UNKNOWN_CONTAINER: &'static str = "the container's format is not known";

/// Whether a parsed file has a tag that the selection rule can pick.
pub open spec fn spec_has_tag(file: TaggedFile) -> bool {
    file_model(file).primary is Some || file_model(file).tags.len() > 0
}

/// Whether a source names anything: a buffer with bytes in it, or a path
/// that is not the empty string.
pub open spec fn spec_source_present(source: Source) -> bool {
    match source {
        Source::Buffer(bytes) => bytes@.len() > 0,
        Source::Path { path, size } => path@.len() > 0,
    }
}

/// The file of a parse that went through.
pub open spec fn spec_parsed_file(parsed: Result<TaggedFile, String>) -> Option<TaggedFile> {
    match parsed {
        Ok(file) => Some(file),
        Err(_) => None,
    }
}

/// The failure of a load, if it fails: `InvalidInput` for an empty source, a
/// file that could not be parsed or a container of a format without a name,
/// `NoTagPresent` for a file without a tag.
pub open spec fn spec_load_failure(source: Source, file: Option<TaggedFile>) -> Option<ErrorKind> {
    if !spec_source_present(source) {
        Some(ErrorKind::InvalidInput)
    } else {
        match file {
            None => Some(ErrorKind::InvalidInput),
            Some(file) => if file_model(file).container == ContainerKind::Other {
                Some(ErrorKind::InvalidInput)
            } else if spec_has_tag(file) {
                None
            } else {
                Some(ErrorKind::NoTagPresent)
            },
        }
    }
}

/// What a save to memory gives: the bytes that writing the file's tags into
/// the buffer gives, or the cause of the failure, which for a write that
/// left no bytes is `NOTHING_WRITTEN`.
pub open spec fn spec_saved_buffer(session: SessionModel) -> Result<Seq<u8>, Seq<char>> {
    match rendered(session.file, session.buffer) {
        Ok(bytes) => if bytes.len() > 0 {
            Ok(bytes)
        } else {
            Err(NOTHING_WRITTEN@)
        },
        Err(cause) => Err(cause),
    }
}

/// What a save of a session loaded from a path leaves to do: an update in
/// place where no other target is named, else a copy and an update of the
/// copy.
pub open spec fn spec_path_action(origin: Seq<char>, target: Option<Seq<char>>) -> FileActionView {
    match target {
        Some(to) => if to == origin {
            FileActionView::UpdateInPlace { path: origin }
        } else {
            FileActionView::CopyThenUpdate { from: origin, to }
        },
        None => FileActionView::UpdateInPlace { path: origin },
    }
}

/// The playing time in whole milliseconds, cut down to 32 bits.
pub open spec fn spec_millis(duration_nanos: u128) -> u32 {
    ((duration_nanos / 1_000_000) % 0x1_0000_0000) as u32
}

/// What a source holds: the bytes, the path and the size.
pub ghost struct SourceView {
    pub buffer: Seq<u8>,
    pub path: Option<Seq<char>>,
    pub size: nat,
}

impl View for Source {
    type V = SourceView;

    open spec fn view(&self) -> SourceView {
        match self {
            Source::Buffer(bytes) => SourceView {
                buffer: bytes@,
                path: None,
                size: bytes@.len(),
            },
            Source::Path { path, size } => SourceView {
                buffer: Seq::empty(),
                path: Some(path@),
                size: *size as nat,
            },
        }
    }
}

/// A session loaded from `source` with `file`.
pub open spec fn spec_loaded(source: Source, file: TaggedFile) -> SessionModel {
    SessionModel { buffer: source@.buffer, path: source@.path, size: source@.size, file }
}

impl View for MusicTagger {
    type V = Option<SessionModel>;

    closed spec fn view(&self) -> Option<SessionModel> {
        match self.inner {
            Some(inner) => Some(spec_loaded(inner.source, inner.file)),
            None => None,
        }
    }
}

impl MusicTagger {
    /// The session is unloaded, or loaded and well formed.
    pub open spec fn wf(&self) -> bool {
        self@ is Some ==> self@->0.wf()
    }

    /// An unloaded session.
    pub fn new() -> (r: MusicTagger)
        ensures
            r@ is None,
            r.wf(),
    {
        MusicTagger { inner: None }
    }

    /// Empties the session. Doing so again changes nothing.
    pub fn dispose(&mut self)
        ensures
            final(self)@ is None,
            final(self).wf(),
            old(self)@ is None ==> final(self)@ == old(self)@,
    {
        self.inner = None;
    }

    /// Whether the session holds no file.
    pub fn is_disposed(&self) -> (r: bool)
        ensures
            r == (self@ is None),
    {
        self.inner.is_none()
    }

    /// The bytes held in memory: those of the file for a session loaded from
    /// memory, none for one loaded from a path.
    pub fn buffer(&self) -> (r: Result<Vec<u8>, TaggerError>)
        ensures
            self@ is None ==> r is Err && r->Err_0@ == TaggerErrorView::Disposed,
            self@ is Some ==> r is Ok && r->Ok_0@ == self@->0.buffer,
    {
        match &self.inner {
            None => Err(TaggerError::Disposed),
            Some(inner) => match &inner.source {
                Source::Buffer(bytes) => Ok(bytes.clone()),
                Source::Path { .. } => Ok(Vec::new()),
            },
        }
    }

    /// Replaces whatever the session held by the outcome of a parse: the
    /// session is loaded from `source` where the parse gave a file of a
    /// known format with a tag, and unloaded otherwise.
    fn install(&mut self, source: Source, parsed: Result<TaggedFile, String>) -> (r: Result<
        (),
        TaggerError,
    >)
        ensures
            final(self).wf(),
            match spec_load_failure(source, spec_parsed_file(parsed)) {
                Some(kind) => r is Err && r->Err_0.kind() == kind && final(self)@ is None,
                None => r is Ok && final(self)@ == Some(spec_loaded(source, parsed->Ok_0)),
            },
            spec_source_present(source) && parsed is Err ==> r->Err_0@
                == (TaggerErrorView::InvalidInput { reason: parsed->Err_0@ }),
    {
        self.inner = None;
        let present = match &source {
            Source::Buffer(bytes) => bytes.len() > 0,
            Source::Path { path, .. } => path.unicode_len() > 0,
        };
        if !present {
            return Err(TaggerError::InvalidInput { reason: EMPTY_SOURCE.to_string() });
        }
        match parsed {
            Err(reason) => Err(TaggerError::InvalidInput { reason }),
            Ok(file) => {
                if let ContainerKind::Other = file_container(&file) {
                    return Err(TaggerError::InvalidInput { reason: UNKNOWN_CONTAINER.to_string() });
                }
                if primary_tag(&file).is_none() && first_tag(&file).is_none() {
                    Err(TaggerError::NoTagPresent)
                } else {
                    self.inner = Some(MetaFileInner { source, file });
                    Ok(())
                }
            },
        }
    }

    /// Loads a file from its bytes. Whatever the session held before is let
    /// go of first. The call fails with `InvalidInput` where there are no
    /// bytes, they cannot be parsed or their format has no name, with
    /// `NoTagPresent` where the parsed file has no tag, and leaves the
    /// session unloaded on either. Else the session holds the parsed file
    /// and the bytes; no path is set.
    pub fn load_buffer(&mut self, buffer: Vec<u8>) -> (r: Result<(), TaggerError>)
        ensures
            final(self).wf(),
            match spec_load_failure(Source::Buffer(buffer), file_of_bytes(buffer@)) {
                Some(kind) => r is Err && r->Err_0.kind() == kind && final(self)@ is None,
                None => r is Ok && final(self)@ == Some(
                    spec_loaded(Source::Buffer(buffer), file_of_bytes(buffer@)->0),
                ),
            },
    {
        let parsed = probe_bytes(&buffer);
        self.install(Source::Buffer(buffer), parsed)
    }

    /// Loads a file from its bytes and the outcome of parsing them: fails with
    /// `InvalidInput` where there are no bytes, the parse failed (the failure
    /// then carries the parse's message) or the format has no name, with
    /// `NoTagPresent` where the parsed file has no tag, and leaves the
    /// session unloaded on either. Else the session holds the file and the
    /// bytes.
    pub fn load_parsed(&mut self, buffer: Vec<u8>, parsed: Result<TaggedFile, String>) -> (r:
        Result<(), TaggerError>)
        ensures
            final(self).wf(),
            match spec_load_failure(Source::Buffer(buffer), spec_parsed_file(parsed)) {
                Some(kind) => r is Err && r->Err_0.kind() == kind && final(self)@ is None,
                None => r is Ok && final(self)@ == Some(
                    spec_loaded(Source::Buffer(buffer), parsed->Ok_0),
                ),
            },
            buffer@.len() > 0 && parsed is Err ==> r->Err_0@
                == (TaggerErrorView::InvalidInput { reason: parsed->Err_0@ }),
    {
        self.install(Source::Buffer(buffer), parsed)
    }

    /// Loads a file from a path, given the file's size in bytes and the
    /// outcome of opening and parsing it there. Without a file system the
    /// call fails with `UnsupportedEnvironment` and changes nothing. Else it
    /// fails as `load_parsed` does, or leaves the session loaded from the
    /// path, with the size and with no bytes held in memory.
    pub fn load_path(
        &mut self,
        path: String,
        size: u64,
        opened: Result<TaggedFile, String>,
        filesystem: bool,
    ) -> (r: Result<(), TaggerError>)
        requires
            old(self).wf(),
        ensures
            final(self).wf(),
            !filesystem ==> r is Err && r->Err_0@ == TaggerErrorView::UnsupportedEnvironment
                && final(self)@ == old(self)@,
            filesystem ==> match spec_load_failure(
                Source::Path { path, size },
                spec_parsed_file(opened),
            ) {
                Some(kind) => r is Err && r->Err_0.kind() == kind && final(self)@ is None,
                None => r is Ok && final(self)@ == Some(
                    SessionModel {
                        buffer: Seq::empty(),
                        path: Some(path@),
                        size: size as nat,
                        file: opened->Ok_0,
                    },
                ),
            },
            filesystem && path@.len() > 0 && opened is Err ==> r->Err_0@
                == (TaggerErrorView::InvalidInput { reason: opened->Err_0@ }),
    {
        if !filesystem {
            return Err(TaggerError::UnsupportedEnvironment);
        }
        self.install(Source::Path { path, size }, opened)
    }

    /// Takes the outcome of writing the tags into the session's buffer: on
    /// success the buffer gives way to the bytes written; on failure, or
    /// where nothing was written, the call fails with `WriteFailed`, which
    /// carries the cause and no path, and the session stays as it was. A
    /// session loaded from a path has no buffer to save to:
    /// `NoTargetAvailable`.
    pub fn commit_buffer(&mut self, written: Result<Vec<u8>, String>) -> (r: Result<
        (),
        TaggerError,
    >)
        requires
            old(self).wf(),
        ensures
            final(self).wf(),
            match old(self)@ {
                None => r is Err && r->Err_0@ == TaggerErrorView::Disposed && final(self)@ is None,
                Some(before) => if before.path is Some {
                    r is Err && r->Err_0@ == TaggerErrorView::NoTargetAvailable && final(self)@
                        == old(self)@
                } else {
                    match written {
                        Ok(bytes) => if bytes@.len() > 0 {
                            r is Ok && final(self)@ == Some(before.with_buffer(bytes@))
                        } else {
                            r is Err && r->Err_0@ == (TaggerErrorView::WriteFailed {
                                cause: NOTHING_WRITTEN@,
                                path: None,
                            }) && final(self)@ == old(self)@
                        },
                        Err(cause) => r is Err && r->Err_0@ == (TaggerErrorView::WriteFailed {
                            cause: cause@,
                            path: None,
                        }) && final(self)@ == old(self)@,
                    }
                },
            },
    {
        match &mut self.inner {
            None => Err(TaggerError::Disposed),
            Some(inner) => {
                if let Source::Path { .. } = &inner.source {
                    return Err(TaggerError::NoTargetAvailable);
                }
                match written {
                    Err(cause) => Err(TaggerError::WriteFailed { cause, path: None }),
                    Ok(bytes) => {
                        if bytes.len() == 0 {
                            return Err(
                                TaggerError::WriteFailed {
                                    cause: NOTHING_WRITTEN.to_string(),
                                    path: None,
                                },
                            );
                        }
                        inner.source = Source::Buffer(bytes);
                        Ok(())
                    },
                }
            },
        }
    }

    /// Writes the tags, as they are now, into a copy of the session's buffer.
    fn render_buffer(&self) -> (r: Result<Result<Vec<u8>, String>, TaggerError>)
        requires
            self.wf(),
        ensures
            match self@ {
                None => r is Err && r->Err_0@ == TaggerErrorView::Disposed,
                Some(session) => if session.path is Some {
                    r is Err && r->Err_0@ == TaggerErrorView::NoTargetAvailable
                } else {
                    r is Ok && match rendered(session.file, session.buffer) {
                        Ok(bytes) => r->Ok_0 is Ok && r->Ok_0->Ok_0@ == bytes,
                        Err(cause) => r->Ok_0 is Err && r->Ok_0->Err_0@ == cause,
                    }
                },
            },
    {
        match &self.inner {
            None => Err(TaggerError::Disposed),
            Some(inner) => match &inner.source {
                Source::Path { .. } => Err(TaggerError::NoTargetAvailable),
                Source::Buffer(bytes) => Ok(render(&inner.file, bytes)),
            },
        }
    }

    /// Writes the tags, as they are now, into the session's buffer. The
    /// buffer changes only if the writing succeeds; a failure is
    /// `WriteFailed`, with the engine's message as its cause and no path.
    pub fn save_buffer(&mut self) -> (r: Result<(), TaggerError>)
        requires
            old(self).wf(),
        ensures
            final(self).wf(),
            match old(self)@ {
                None => r is Err && r->Err_0@ == TaggerErrorView::Disposed && final(self)@ is None,
                Some(before) => if before.path is Some {
                    r is Err && r->Err_0@ == TaggerErrorView::NoTargetAvailable && final(self)@
                        == old(self)@
                } else {
                    match spec_saved_buffer(before) {
                        Ok(bytes) => r is Ok && final(self)@ == Some(before.with_buffer(bytes)),
                        Err(cause) => r is Err && r->Err_0@ == (TaggerErrorView::WriteFailed {
                            cause,
                            path: None,
                        }) && final(self)@ == old(self)@,
                    }
                },
            },
    {
        let written = self.render_buffer()?;
        self.commit_buffer(written)
    }

    /// Writes the session's tags into the bytes of a container: what a save
    /// to a path puts on disk. A failure is `WriteFailed`, with the engine's
    /// message as its cause and `path` as its path.
    pub fn render_onto(&self, base: &Vec<u8>, path: Option<String>) -> (r: Result<
        Vec<u8>,
        TaggerError,
    >)
        requires
            self.wf(),
        ensures
            match self@ {
                None => r is Err && r->Err_0@ == TaggerErrorView::Disposed,
                Some(session) => match rendered(session.file, base@) {
                    Ok(bytes) => r is Ok && r->Ok_0@ == bytes,
                    Err(cause) => r is Err && r->Err_0@ == (TaggerErrorView::WriteFailed {
                        cause,
                        path: opt_text(path),
                    }),
                },
            },
    {
        match &self.inner {
            None => Err(TaggerError::Disposed),
            Some(inner) => match render(&inner.file, base) {
                Ok(bytes) => Ok(bytes),
                Err(cause) => Err(TaggerError::WriteFailed { cause, path }),
            },
        }
    }

    /// Saves the session, as far as memory goes, and says what is left to do
    /// on disk.
    ///
    /// A session that holds a buffer writes its tags into a copy of the
    /// buffer, whatever the target. Without a target the copy becomes the
    /// buffer. With one, the copy is handed out to be written there and
    /// committed afterwards, so that the buffer changes only once the disk
    /// write has gone through.
    ///
    /// A session loaded from a path leaves its file to be updated: in place,
    /// or as a copy at `target` where that names another place.
    ///
    /// Touching the disk without a file system fails with
    /// `UnsupportedEnvironment`; a buffer that cannot be written fails with
    /// `WriteFailed`, which carries the cause and no path. The session
    /// changes in one case only: the save to memory without a target.
    pub fn save_path(&mut self, target: Option<String>, filesystem: bool) -> (r: Result<
        FileAction,
        TaggerError,
    >)
        requires
            old(self).wf(),
        ensures
            final(self).wf(),
            r is Err ==> final(self)@ == old(self)@,
            target is Some && !filesystem ==> r is Err && r->Err_0@
                == TaggerErrorView::UnsupportedEnvironment,
            !(target is Some && !filesystem) ==> match old(self)@ {
                None => r is Err && r->Err_0@ == TaggerErrorView::Disposed,
                Some(before) => match before.path {
                    Some(origin) => if filesystem {
                        r is Ok && r->Ok_0@ == spec_path_action(origin, opt_text(target))
                            && final(self)@ == old(self)@
                    } else {
                        r is Err && r->Err_0@ == TaggerErrorView::UnsupportedEnvironment
                    },
                    None => match spec_saved_buffer(before) {
                        Ok(bytes) => r is Ok && match target {
                            Some(path) => r->Ok_0@ == (FileActionView::WriteBuffer {
                                path: path@,
                                bytes,
                            }) && final(self)@ == old(self)@,
                            None => r->Ok_0@ == FileActionView::Nothing && final(self)@ == Some(
                                before.with_buffer(bytes),
                            ),
                        },
                        Err(cause) => r is Err && r->Err_0@ == (TaggerErrorView::WriteFailed {
                            cause,
                            path: None,
                        }),
                    },
                },
            },
    {
        if target.is_some() && !filesystem {
            return Err(TaggerError::UnsupportedEnvironment);
        }
        let origin: Option<String> = match &self.inner {
            None => {
                return Err(TaggerError::Disposed);
            },
            Some(inner) => match &inner.source {
                Source::Path { path, .. } => Some(path.clone()),
                Source::Buffer(_) => None,
            },
        };
        match origin {
            Some(from) => {
                if !filesystem {
                    return Err(TaggerError::UnsupportedEnvironment);
                }
                match target {
                    None => Ok(FileAction::UpdateInPlace { path: from }),
                    Some(to) => {
                        if to == from {
                            Ok(FileAction::UpdateInPlace { path: from })
                        } else {
                            Ok(FileAction::CopyThenUpdate { from, to })
                        }
                    },
                }
            },
            None => match target {
                None => match self.save_buffer() {
                    Ok(()) => Ok(FileAction::Nothing),
                    Err(e) => Err(e),
                },
                Some(path) => match self.render_buffer()? {
                    Err(cause) => Err(TaggerError::WriteFailed { cause, path: None }),
                    Ok(bytes) => {
                        if bytes.len() == 0 {
                            return Err(
                                TaggerError::WriteFailed {
                                    cause: NOTHING_WRITTEN.to_string(),
                                    path: None,
                                },
                            );
                        }
                        Ok(FileAction::WriteBuffer { path, bytes })
                    },
                },
            },
        }
    }

    /// The tag that reads go to: the primary tag where the file has one, else
    /// the first.
    pub(crate) fn try_tag(&self) -> (r: Result<Option<&Tag>, TaggerError>)
        requires
            self.wf(),
        ensures
            match self@ {
                None => r is Err && r->Err_0@ == TaggerErrorView::Disposed,
                Some(session) => r is Ok && r->Ok_0 is Some && *r->Ok_0->0
                    == session.tags()[session.selected()],
            },
    {
        match &self.inner {
            None => Err(TaggerError::Disposed),
            Some(inner) => match primary_tag(&inner.file) {
                Some(tag) => Ok(Some(tag)),
                None => Ok(first_tag(&inner.file)),
            },
        }
    }

    /// Carries out an edit on the tag that writes go to: the primary tag
    /// where the file has one, else the first.
    pub(crate) fn try_tag_mut(&mut self, edit: TagEdit) -> (r: Result<(), TaggerError>)
        requires
            old(self).wf(),
            spec_edit_ok(edit),
        ensures
            final(self).wf(),
            match old(self)@ {
                None => r is Err && r->Err_0@ == TaggerErrorView::Disposed && final(self)@ is None,
                Some(before) => r is Ok && final(self)@ is Some && before.same_but_tag(
                    final(self)@->0,
                ) && spec_edited(before.tag(), edit, final(self)@->0.tag()),
            },
    {
        match &mut self.inner {
            None => Err(TaggerError::Disposed),
            Some(inner) => {
                if let Some(tag) = primary_tag_mut(&mut inner.file) {
                    apply_edit(tag, edit);
                    Ok(())
                } else if let Some(tag) = first_tag_mut(&mut inner.file) {
                    apply_edit(tag, edit);
                    Ok(())
                } else {
                    Err(TaggerError::NoTagPresent)
                }
            },
        }
    }

    /// What the container reports of the audio stream.
    fn audio(&self) -> (r: Result<AudioProperties, TaggerError>)
        ensures
            self@ is None ==> r is Err && r->Err_0@ == TaggerErrorView::Disposed,
            self@ is Some ==> r is Ok && r->Ok_0 == self@->0.audio(),
    {
        match &self.inner {
            None => Err(TaggerError::Disposed),
            Some(inner) => Ok(file_audio(&inner.file)),
        }
    }

    /// The quality tier of the file, by name: `HQ` for a lossy container;
    /// for a lossless one `HiRes` above CD resolution and `SQ` otherwise.
    pub fn quality(&self) -> (r: Result<String, TaggerError>)
        ensures
            self@ is None ==> r is Err && r->Err_0@ == TaggerErrorView::Disposed,
            self@ is Some ==> r is Ok && r->Ok_0@ == spec_classify(
                spec_is_lossless(self@->0.container()),
                self@->0.audio().sample_rate,
                self@->0.audio().bit_depth,
            ).spec_name(),
    {
        match &self.inner {
            None => Err(TaggerError::Disposed),
            Some(inner) => {
                let lossless = is_lossless(file_container(&inner.file));
                let audio = file_audio(&inner.file);
                Ok(classify_quality(lossless, audio.sample_rate, audio.bit_depth).name())
            },
        }
    }

    /// The bit depth that the container reports.
    pub fn bit_depth(&self) -> (r: Result<Option<u8>, TaggerError>)
        ensures
            self@ is None ==> r is Err && r->Err_0@ == TaggerErrorView::Disposed,
            self@ is Some ==> r is Ok && r->Ok_0 == self@->0.audio().bit_depth,
    {
        Ok(self.audio()?.bit_depth)
    }

    /// The bit rate in kbps: the one that the container reports, else an
    /// estimate from the file's size and the playing time, where the playing
    /// time is known and the estimate lies within `[8, 10000]`.
    pub fn bit_rate(&self) -> (r: Result<Option<u32>, TaggerError>)
        ensures
            self@ is None ==> r is Err && r->Err_0@ == TaggerErrorView::Disposed,
            self@ is Some ==> r is Ok && r->Ok_0 == spec_bit_rate(
                self@->0.audio().audio_bitrate,
                self@->0.size,
                self@->0.audio().duration_nanos as nat,
            ),
    {
        match &self.inner {
            None => Err(TaggerError::Disposed),
            Some(inner) => {
                let audio = file_audio(&inner.file);
                let size: u64 = match &inner.source {
                    Source::Buffer(bytes) => bytes.len() as u64,
                    Source::Path { size, .. } => *size,
                };
                Ok(estimate_bit_rate(audio.audio_bitrate, size, audio.duration_nanos))
            },
        }
    }

    /// The sample rate in Hz that the container reports.
    pub fn sample_rate(&self) -> (r: Result<Option<u32>, TaggerError>)
        ensures
            self@ is None ==> r is Err && r->Err_0@ == TaggerErrorView::Disposed,
            self@ is Some ==> r is Ok && r->Ok_0 == self@->0.audio().sample_rate,
    {
        Ok(self.audio()?.sample_rate)
    }

    /// The number of channels that the container reports.
    pub fn channels(&self) -> (r: Result<Option<u8>, TaggerError>)
        ensures
            self@ is None ==> r is Err && r->Err_0@ == TaggerErrorView::Disposed,
            self@ is Some ==> r is Ok && r->Ok_0 == self@->0.audio().channels,
    {
        Ok(self.audio()?.channels)
    }

    /// The playing time in whole milliseconds, cut down to 32 bits.
    pub fn duration(&self) -> (r: Result<u32, TaggerError>)
        ensures
            self@ is None ==> r is Err && r->Err_0@ == TaggerErrorView::Disposed,
            self@ is Some ==> r is Ok && r->Ok_0 == spec_millis(self@->0.audio().duration_nanos),
    {
        let millis: u128 = self.audio()?.duration_nanos / 1_000_000;
        Ok((millis % 0x1_0000_0000) as u32)
    }
}

} // verus!
