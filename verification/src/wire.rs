//! The wire format: a change event is serialized to a canonical byte form
//! (length-prefixed fields, little-endian integers), encrypted, and wrapped
//! in a tagged envelope before it is handed to the transport.
use vstd::prelude::*;

use vstd::bytes::{
    lemma_auto_spec_u64_to_from_le_bytes, spec_u64_from_le_bytes, spec_u64_to_le_bytes,
    u64_from_le_bytes, u64_to_le_bytes,
};
use vstd::slice::{slice_subrange, slice_to_vec};
use vstd::utf8::encode_utf8;

use crate::event::{ChangeEvent, EventModel, FileMetadata, FileMetadataModel};

verus! {

/// A string field on the wire: the length of its UTF-8 form, little-endian
/// in 8 bytes, followed by the UTF-8 bytes themselves.
pub open spec fn str_field(s: Seq<char>) -> Seq<u8> {
    spec_u64_to_le_bytes(encode_utf8(s).len() as u64) + encode_utf8(s)
}

/// One file entry on the wire: the length-prefixed name, then the size.
pub open spec fn file_entry_bytes(m: FileMetadataModel) -> Seq<u8> {
    str_field(m.name) + spec_u64_to_le_bytes(m.size)
}

/// The file entries, in their clipboard order.
pub open spec fn entries_bytes(fs: Seq<FileMetadataModel>) -> Seq<u8>
    decreases fs.len(),
{
    if fs.len() == 0 {
        Seq::empty()
    } else {
        entries_bytes(fs.drop_last()) + file_entry_bytes(fs.last())
    }
}

/// The canonical byte form of a change event: id, text, a presence byte
/// for the file list (followed, when present, by the entry count and the
/// entries), timestamp, sender, and sender id.
pub open spec fn payload_bytes(e: EventModel) -> Seq<u8> {
    str_field(e.id) + str_field(e.text) + (match e.files {
        Option::None => seq![0u8],
        Option::Some(fs) => seq![1u8] + spec_u64_to_le_bytes(fs.len() as u64) + entries_bytes(fs),
    }) + spec_u64_to_le_bytes(e.timestamp) + str_field(e.sender) + str_field(e.sender_id)
}

/// The byte that tags a clipboard message in the outer envelope.
pub const CLIPBOARD_TAG: u8 = 1;

/// The outer envelope around an encrypted clipboard payload: the message
/// kind tag, then the length-prefixed ciphertext.
pub open spec fn envelope_bytes(ct: Seq<u8>) -> Seq<u8> {
    seq![CLIPBOARD_TAG] + spec_u64_to_le_bytes(ct.len() as u64) + ct
}

/// Appends a length-prefixed string field.
fn push_str_field(out: &mut Vec<u8>, s: &String)
    ensures
        final(out)@ == old(out)@ + str_field(s@),
{
    let b = s.as_str().as_bytes();
    let len_bytes = u64_to_le_bytes(b.len() as u64);
    out.extend_from_slice(len_bytes.as_slice());
    out.extend_from_slice(b);
    proof {
        assert(final(out)@ =~= old(out)@ + str_field(s@));
    }
}

/// Appends a little-endian 64-bit integer.
fn push_u64(out: &mut Vec<u8>, x: u64)
    ensures
        final(out)@ == old(out)@ + spec_u64_to_le_bytes(x),
{
    let b = u64_to_le_bytes(x);
    out.extend_from_slice(b.as_slice());
}

/// One encoding step of the file entries.
proof fn lemma_entries_step(fs: Seq<FileMetadataModel>, i: int)
    requires
        0 <= i < fs.len(),
    ensures
        entries_bytes(fs.take(i + 1)) == entries_bytes(fs.take(i)) + file_entry_bytes(fs[i]),
{
    assert(fs.take(i + 1).drop_last() =~= fs.take(i));
    assert(fs.take(i + 1).last() == fs[i]);
    assert(fs.take(i + 1).len() != 0);
}

/// Serializes a change event to its canonical byte form. The encoding is
/// total: serialization of an event cannot fail.
pub fn encode_payload(e: &ChangeEvent) -> (r: Vec<u8>)
    ensures
        r@ == payload_bytes(e@),
{
    let mut out: Vec<u8> = Vec::new();
    push_str_field(&mut out, &e.id);
    push_str_field(&mut out, &e.text);
    match &e.files {
        Option::None => {
            out.push(0u8);
        },
        Option::Some(fs) => {
            out.push(1u8);
            push_u64(&mut out, fs.len() as u64);
            let ghost prefix = out@;
            let n = fs.len();
            let mut i: usize = 0;
            while i < n
                invariant
                    n == fs.len(),
                    i <= n,
                    out@ == prefix + entries_bytes(fs.deep_view().take(i as int)),
                decreases n - i,
            {
                proof {
                    lemma_entries_step(fs.deep_view(), i as int);
                }
                let ghost before = out@;
                push_str_field(&mut out, &fs[i].name);
                push_u64(&mut out, fs[i].size);
                proof {
                    assert(out@ =~= before + file_entry_bytes(fs.deep_view()[i as int]));
                    assert(out@ =~= prefix + entries_bytes(fs.deep_view().take(i + 1)));
                }
                i = i + 1;
            }
            proof {
                assert(fs.deep_view().take(n as int) =~= fs.deep_view());
            }
        },
    }
    push_u64(&mut out, e.timestamp);
    push_str_field(&mut out, &e.sender);
    push_str_field(&mut out, &e.sender_id);
    proof {
        assert(out@ =~= payload_bytes(e@));
    }
    out
}

/// Wraps an encrypted payload in the outer clipboard envelope.
pub fn encode_envelope(ciphertext: &Vec<u8>) -> (r: Vec<u8>)
    ensures
        r@ == envelope_bytes(ciphertext@),
{
    let mut out: Vec<u8> = Vec::new();
    out.push(CLIPBOARD_TAG);
    push_u64(&mut out, ciphertext.len() as u64);
    out.extend_from_slice(ciphertext.as_slice());
    proof {
        assert(out@ =~= envelope_bytes(ciphertext@));
    }
    out
}

/// Opens the outer envelope of a received message and returns the
/// ciphertext it carries.
///
/// The contract is exact in both directions: every well-formed envelope is
/// opened to exactly its ciphertext, and anything returned re-encodes to
/// the input, so malformed framing is always rejected.
pub fn decode_envelope(data: &[u8]) -> (r: Option<Vec<u8>>)
    ensures
        forall|ct: Seq<u8>| data@ == envelope_bytes(ct) ==> (r matches Some(p) && p@ == ct),
        r matches Some(p) ==> data@ == envelope_bytes(p@),
{
    proof {
        lemma_auto_spec_u64_to_from_le_bytes();
    }
    if data.len() < 9 {
        assert(forall|ct: Seq<u8>| data@ != envelope_bytes(ct)) by {
            assert forall|ct: Seq<u8>| data@ != envelope_bytes(ct) by {
                assert(envelope_bytes(ct).len() >= 9);
            }
        }
        return None;
    }
    let tag = *vstd::slice::slice_index_get(data, 0);
    if tag != CLIPBOARD_TAG {
        return None;
    }
    let len_field = u64_from_le_bytes(slice_subrange(data, 1, 9));
    let body_len: u64 = (data.len() - 9) as u64;
    if len_field != body_len {
        assert forall|ct: Seq<u8>| data@ == envelope_bytes(ct) implies false by {
            assert(data@.subrange(1, 9) =~= spec_u64_to_le_bytes(ct.len() as u64));
        }
        return None;
    }
    let body = slice_to_vec(slice_subrange(data, 9, data.len()));
    proof {
        assert forall|ct: Seq<u8>| data@ == envelope_bytes(ct) implies body@ == ct by {
            assert(ct =~= data@.subrange(9, data@.len() as int));
        }
        assert(data@ =~= envelope_bytes(body@)) by {
            assert(data@.subrange(1, 9) =~= spec_u64_to_le_bytes(body@.len() as u64));
            assert(body@ =~= data@.subrange(9, data@.len() as int));
        }
    }
    Some(body)
}

} // verus!
