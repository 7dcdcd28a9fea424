//! Change events: the immutable record created once per detected genuine
//! clipboard change, carrying either text or file metadata. File contents
//! never cross the wire; only name and size do.
use vstd::prelude::*;

verus! {

/// Metadata of one file on the clipboard: its name and size.
pub struct FileMetadata {
    pub name: String,
    pub size: u64,
}

/// The mathematical value of one file's metadata.
pub struct FileMetadataModel {
    pub name: Seq<char>,
    pub size: u64,
}

impl View for FileMetadata {
    type V = FileMetadataModel;

    open spec fn view(&self) -> FileMetadataModel {
        FileMetadataModel { name: self.name@, size: self.size }
    }
}

impl DeepView for FileMetadata {
    type V = FileMetadataModel;

    open spec fn deep_view(&self) -> FileMetadataModel {
        self.view()
    }
}

/// A genuine clipboard change, created once per detection and never mutated
/// afterwards: a unique id, either text or an ordered list of file
/// metadata, the detection time in seconds since the epoch, and the sending
/// host and device.
pub struct ChangeEvent {
    pub id: String,
    pub text: String,
    pub files: Option<Vec<FileMetadata>>,
    pub timestamp: u64,
    pub sender: String,
    pub sender_id: String,
}

/// The mathematical value of a change event.
pub struct EventModel {
    pub id: Seq<char>,
    pub text: Seq<char>,
    pub files: Option<Seq<FileMetadataModel>>,
    pub timestamp: u64,
    pub sender: Seq<char>,
    pub sender_id: Seq<char>,
}

impl View for ChangeEvent {
    type V = EventModel;

    open spec fn view(&self) -> EventModel {
        EventModel {
            id: self.id@,
            text: self.text@,
            files: match self.files {
                Option::Some(fs) => Option::Some(fs.deep_view()),
                Option::None => Option::None,
            },
            timestamp: self.timestamp,
            sender: self.sender@,
            sender_id: self.sender_id@,
        }
    }
}

/// Relies on uuid's `Uuid::new_v4` and its hyphenated display form: a
/// random message id, 36 characters long; collisions are negligible but
/// nothing is promised of the value.
#[verifier::external_body]
pub fn fresh_event_id() -> (r: String)
    ensures
        r@.len() == 36,
{
    uuid::Uuid::new_v4().to_string()
}

/// A change event for detected text: `files` is absent and every other
/// field is exactly what was passed.
pub fn build_text_event(
    text: String,
    id: String,
    timestamp: u64,
    sender: String,
    sender_id: String,
) -> (r: ChangeEvent)
    ensures
        r@ == (EventModel {
            id: id@,
            text: text@,
            files: Option::None,
            timestamp: timestamp,
            sender: sender@,
            sender_id: sender_id@,
        }),
{
    ChangeEvent { id, text, files: Option::None, timestamp, sender, sender_id }
}

/// A change event for detected files: `text` is empty, `files` holds the
/// given metadata, and every other field is exactly what was passed.
pub fn build_files_event(
    files: Vec<FileMetadata>,
    id: String,
    timestamp: u64,
    sender: String,
    sender_id: String,
) -> (r: ChangeEvent)
    ensures
        r@ == (EventModel {
            id: id@,
            text: Seq::empty(),
            files: Option::Some(files.deep_view()),
            timestamp: timestamp,
            sender: sender@,
            sender_id: sender_id@,
        }),
{
    ChangeEvent { id, text: String::new(), files: Option::Some(files), timestamp, sender, sender_id }
}

/// One path from a detected file-list change, as the filesystem reports it:
/// the file's name, its size, and whether it exists locally.
pub struct FileCandidate {
    pub name: String,
    pub size: u64,
    pub exists: bool,
}

/// The mathematical value of one candidate.
pub struct FileCandidateModel {
    pub name: Seq<char>,
    pub size: u64,
    pub exists: bool,
}

impl View for FileCandidate {
    type V = FileCandidateModel;

    open spec fn view(&self) -> FileCandidateModel {
        FileCandidateModel { name: self.name@, size: self.size, exists: self.exists }
    }
}

impl DeepView for FileCandidate {
    type V = FileCandidateModel;

    open spec fn deep_view(&self) -> FileCandidateModel {
        self.view()
    }
}

/// The metadata that survives filtering: candidates that exist locally, in
/// order, reduced to name and size. Paths that do not exist are silently
/// dropped.
pub open spec fn surviving_metadata(cs: Seq<FileCandidateModel>) -> Seq<FileMetadataModel> {
    cs.filter(|c: FileCandidateModel| c.exists).map_values(
        |c: FileCandidateModel| FileMetadataModel { name: c.name, size: c.size },
    )
}

/// One filtering step: extending the candidates by one either appends its
/// metadata (when it exists) or changes nothing.
proof fn lemma_surviving_step(cs: Seq<FileCandidateModel>, i: int)
    requires
        0 <= i < cs.len(),
    ensures
        cs[i].exists ==> surviving_metadata(cs.take(i + 1)) == surviving_metadata(
            cs.take(i),
        ).push(FileMetadataModel { name: cs[i].name, size: cs[i].size }),
        !cs[i].exists ==> surviving_metadata(cs.take(i + 1)) == surviving_metadata(cs.take(i)),
{
    let pred = |c: FileCandidateModel| c.exists;
    let f = |c: FileCandidateModel| FileMetadataModel { name: c.name, size: c.size };
    assert(cs.take(i + 1).drop_last() =~= cs.take(i));
    assert(cs.take(i + 1).last() == cs[i]);
    reveal(Seq::filter);
    let fpre = cs.take(i).filter(pred);
    let fpost = cs.take(i + 1).filter(pred);
    if cs[i].exists {
        assert(fpost == fpre.push(cs[i]));
        assert(fpost.map_values(f) =~= fpre.map_values(f).push(f(cs[i])));
    } else {
        assert(fpost == fpre);
    }
}

/// Keeps the metadata of the candidates that exist on the local filesystem,
/// in their original order; the rest are silently dropped.
pub fn filter_existing_files(candidates: Vec<FileCandidate>) -> (r: Vec<FileMetadata>)
    ensures
        r.deep_view() == surviving_metadata(candidates.deep_view()),
{
    let mut out: Vec<FileMetadata> = Vec::new();
    let n = candidates.len();
    let mut i: usize = 0;
    while i < n
        invariant
            n == candidates.len(),
            i <= n,
            out.deep_view() == surviving_metadata(candidates.deep_view().take(i as int)),
        decreases n - i,
    {
        let ghost pre = out.deep_view();
        proof {
            lemma_surviving_step(candidates.deep_view(), i as int);
        }
        let c = &candidates[i];
        if c.exists {
            out.push(FileMetadata { name: c.name.clone(), size: c.size });
            proof {
                assert(out.deep_view() =~= pre.push(
                    FileMetadataModel { name: c.name@, size: c.size },
                ));
            }
        }
        i = i + 1;
    }
    proof {
        assert(candidates.deep_view().take(n as int) =~= candidates.deep_view());
    }
    out
}

/// Decides whether a filtered file list yields an event: when no file
/// survived filtering, no event is emitted; otherwise the event is exactly
/// what `build_files_event` gives for the surviving metadata.
pub fn files_event_if_any(
    metas: Vec<FileMetadata>,
    id: String,
    timestamp: u64,
    sender: String,
    sender_id: String,
) -> (r: Option<ChangeEvent>)
    ensures
        metas.deep_view().len() == 0 ==> r is None,
        metas.deep_view().len() > 0 ==> (r matches Some(ev) && ev@ == (EventModel {
            id: id@,
            text: Seq::empty(),
            files: Option::Some(metas.deep_view()),
            timestamp: timestamp,
            sender: sender@,
            sender_id: sender_id@,
        })),
{
    if metas.is_empty() {
        Option::None
    } else {
        Option::Some(build_files_event(metas, id, timestamp, sender, sender_id))
    }
}

/// Updates the process-wide "last globally dispatched text" dedup guard:
/// after the call it holds exactly the dispatched text.
pub fn record_dispatched_text(last_global: &mut String, text: &String)
    ensures
        final(last_global)@ == text@,
{
    if !(*last_global).eq(text) {
        *last_global = text.clone();
    }
}

} // verus!
