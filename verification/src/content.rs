//! Clipboard snapshots: the value read from the system clipboard on one poll
//! tick, compared by value equality.
use vstd::prelude::*;

verus! {

/// A snapshot of the system clipboard: some text, an ordered list of file
/// paths, or nothing usable.
pub enum ClipboardContent {
    Text(String),
    Files(Vec<String>),
    Empty,
}

/// The mathematical value of a snapshot.
pub enum ContentModel {
    Text(Seq<char>),
    Files(Seq<Seq<char>>),
    Empty,
}

impl View for ClipboardContent {
    type V = ContentModel;

    open spec fn view(&self) -> ContentModel {
        match self {
            ClipboardContent::Text(s) => ContentModel::Text(s@),
            ClipboardContent::Files(fs) => ContentModel::Files(fs.deep_view()),
            ClipboardContent::Empty => ContentModel::Empty,
        }
    }
}

/// Two snapshots carry the same kind of content (both text, both file lists,
/// or both empty).
pub open spec fn same_variant(a: ContentModel, b: ContentModel) -> bool {
    ||| (a is Text && b is Text)
    ||| (a is Files && b is Files)
    ||| (a is Empty && b is Empty)
}

/// Equality of two ordered path lists, by value.
fn string_vec_eq(a: &Vec<String>, b: &Vec<String>) -> (r: bool)
    ensures
        r == (a.deep_view() == b.deep_view()),
{
    if a.len() != b.len() {
        assert(a.deep_view().len() != b.deep_view().len());
        return false;
    }
    let n = a.len();
    let mut i: usize = 0;
    while i < n
        invariant
            n == a.len() == b.len(),
            i <= n,
            forall|j: int| 0 <= j < i ==> a.deep_view()[j] == b.deep_view()[j],
        decreases n - i,
    {
        if a[i] != b[i] {
            assert(a.deep_view()[i as int] != b.deep_view()[i as int]);
            return false;
        }
        i = i + 1;
    }
    assert(a.deep_view() =~= b.deep_view());
    true
}

/// Value equality of two snapshots: same kind and same payload.
pub fn content_eq(a: &ClipboardContent, b: &ClipboardContent) -> (r: bool)
    ensures
        r == (a@ == b@),
{
    match (a, b) {
        (ClipboardContent::Text(x), ClipboardContent::Text(y)) => x.eq(y),
        (ClipboardContent::Files(x), ClipboardContent::Files(y)) => string_vec_eq(x, y),
        (ClipboardContent::Empty, ClipboardContent::Empty) => true,
        _ => false,
    }
}

/// True exactly when the snapshot holds no usable content.
pub fn content_is_empty(c: &ClipboardContent) -> (r: bool)
    ensures
        r == (c@ is Empty),
{
    match c {
        ClipboardContent::Empty => true,
        _ => false,
    }
}

fn clone_string_vec(v: &Vec<String>) -> (r: Vec<String>)
    ensures
        r.deep_view() == v.deep_view(),
{
    let mut out: Vec<String> = Vec::new();
    let n = v.len();
    let mut i: usize = 0;
    while i < n
        invariant
            n == v.len(),
            i <= n,
            out.len() == i,
            forall|j: int| 0 <= j < i ==> out.deep_view()[j] == v.deep_view()[j],
        decreases n - i,
    {
        out.push(v[i].clone());
        i = i + 1;
    }
    assert(out.deep_view() =~= v.deep_view());
    out
}

/// An exact copy of a snapshot, equal in value to the original.
pub fn clone_content(c: &ClipboardContent) -> (r: ClipboardContent)
    ensures
        r@ == c@,
{
    match c {
        ClipboardContent::Text(s) => ClipboardContent::Text(s.clone()),
        ClipboardContent::Files(fs) => ClipboardContent::Files(clone_string_vec(fs)),
        ClipboardContent::Empty => ClipboardContent::Empty,
    }
}

/// What one poll tick yields, given what the clipboard reads returned:
/// a non-empty file list takes priority over text, and unreadable or
/// empty results degrade to an empty snapshot.
pub open spec fn classified(files: Option<Seq<Seq<char>>>, text: Option<Seq<char>>) -> ContentModel {
    if files is Some && files.unwrap().len() > 0 {
        ContentModel::Files(files.unwrap())
    } else if text is Some && text.unwrap().len() > 0 {
        ContentModel::Text(text.unwrap())
    } else {
        ContentModel::Empty
    }
}

/// Classifies what one poll tick read from the system clipboard; `None`
/// stands for a failed clipboard read, which is non-fatal and degrades to
/// "no content this tick".
pub fn classify_snapshot(files: Option<Vec<String>>, text: Option<String>) -> (r: ClipboardContent)
    ensures
        r@ == classified(files.deep_view(), text.deep_view()),
{
    if let Some(fs) = files {
        if fs.len() > 0 {
            return ClipboardContent::Files(fs);
        }
    }
    if let Some(t) = text {
        if !t.as_str().is_empty() {
            return ClipboardContent::Text(t);
        }
    }
    ClipboardContent::Empty
}

} // verus!
