use vstd::prelude::*;
use vstd::utf8::encode_utf8;

verus! {

/// What a request or a response holds: its body bytes and its metadata map.
pub ghost struct MessageView {
    pub body: Seq<u8>,
    pub metadata: Map<Seq<char>, Seq<char>>,
}

impl MessageView {
    /// No body bytes and no metadata.
    pub open spec fn empty() -> MessageView {
        MessageView { body: Seq::empty(), metadata: Map::empty() }
    }

    /// `bytes` appended to the body, exactly as they are.
    pub open spec fn with_bytes(self, bytes: Seq<u8>) -> MessageView {
        MessageView { body: self.body + bytes, ..self }
    }

    /// The UTF-8 encoding of `text` appended to the body.
    pub open spec fn with_text(self, text: Seq<char>) -> MessageView {
        self.with_bytes(encode_utf8(text))
    }

    /// `key` set to `val` in the metadata; the value it held before is gone.
    pub open spec fn with_meta(self, key: Seq<char>, val: Seq<char>) -> MessageView {
        MessageView { metadata: self.metadata.insert(key, val), ..self }
    }
}

/// Bytes appended one sequence after another to a fresh response form their
/// concatenation, in order and unchanged.
pub proof fn lemma_bytes_concatenate(b1: Seq<u8>, b2: Seq<u8>)
    ensures
        MessageView::empty().with_bytes(b1).with_bytes(b2).body == b1 + b2,
{
    assert(Seq::<u8>::empty() + b1 =~= b1);
}

/// Appending text puts its UTF-8 encoding at the end of the body as it was,
/// and leaves the metadata alone.
pub proof fn lemma_text_encoded_at_end(v: MessageView, text: Seq<char>)
    ensures
        v.with_text(text).body.len() == v.body.len() + encode_utf8(text).len(),
        v.with_text(text).body.subrange(0, v.body.len() as int) == v.body,
        v.with_text(text).body.subrange(v.body.len() as int, v.with_text(text).body.len() as int)
            == encode_utf8(text),
        v.with_text(text).metadata == v.metadata,
{
    let b = v.with_text(text).body;
    assert(b.subrange(0, v.body.len() as int) =~= v.body);
    assert(b.subrange(v.body.len() as int, b.len() as int) =~= encode_utf8(text));
}

/// A key set in the metadata is then found with its value, and setting it a
/// second time leaves only the second value.
pub proof fn lemma_meta_last_write_wins(
    v: MessageView,
    key: Seq<char>,
    first: Seq<char>,
    second: Seq<char>,
)
    ensures
        v.with_meta(key, first).metadata.contains_key(key),
        v.with_meta(key, first).metadata[key] == first,
        v.with_meta(key, first).with_meta(key, second) == v.with_meta(key, second),
        v.with_meta(key, first).with_meta(key, second).metadata[key] == second,
{
    assert(v.with_meta(key, first).with_meta(key, second).metadata =~= v.with_meta(
        key,
        second,
    ).metadata);
}

} // verus!
