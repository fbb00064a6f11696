use vstd::prelude::*;
use vstd::slice::slice_to_vec;
use crate::message::MessageView;
use crate::metadata::Metadata;

verus! {

/// The output of a call, built up step by step from empty. A host sends the
/// body as it is and turns the metadata into header fields.
#[derive(Debug)]
pub struct Response {
    body: Vec<u8>,
    metadata: Metadata,
}

impl View for Response {
    type V = MessageView;

    closed spec fn view(&self) -> MessageView {
        MessageView { body: self.body@, metadata: self.metadata@ }
    }
}

impl Default for Response {
    fn default() -> (r: Response)
        ensures
            r.wf(),
            r@ == MessageView::empty(),
    {
        Response::new()
    }
}

impl Response {
    /// The metadata holds one entry per key.
    pub closed spec fn wf(&self) -> bool {
        self.metadata.wf()
    }

    /// An empty response: no body bytes, no metadata.
    pub fn new() -> (r: Response)
        ensures
            r.wf(),
            r@ == MessageView::empty(),
    {
        Response { body: Vec::new(), metadata: Metadata::new() }
    }

    /// The body bytes.
    pub fn body(&self) -> (r: &[u8])
        ensures
            r@ == self@.body,
    {
        self.body.as_slice()
    }

    /// This response with `bytes` appended to its body.
    pub fn with_bytes(self, bytes: Vec<u8>) -> (r: Response)
        requires
            self.wf(),
        ensures
            r.wf(),
            r@ == self@.with_bytes(bytes@),
    {
        let mut r = self;
        let mut bytes = bytes;
        r.body.append(&mut bytes);
        r
    }

    /// This response with the UTF-8 encoding of `data` appended to its body.
    pub fn with_text(self, data: String) -> (r: Response)
        requires
            self.wf(),
        ensures
            r.wf(),
            r@ == self@.with_text(data@),
    {
        let bytes = slice_to_vec(data.as_str().as_bytes());
        self.with_bytes(bytes)
    }

    /// Appends `buf` to the body: the sink through which a body is written
    /// piece by piece.
    pub fn write_bytes(&mut self, buf: &[u8])
        requires
            old(self).wf(),
        ensures
            final(self).wf(),
            final(self)@ == old(self)@.with_bytes(buf@),
    {
        let mut bytes = slice_to_vec(buf);
        self.body.append(&mut bytes);
    }

    /// The value that the metadata holds for `key`, if any.
    pub fn get_meta(&self, key: &str) -> (r: Option<&String>)
        requires
            self.wf(),
        ensures
            match r {
                Some(v) => self@.metadata.contains_key(key@) && self@.metadata[key@] == v@,
                None => !self@.metadata.contains_key(key@),
            },
    {
        self.metadata.get(key)
    }

    /// This response with `key` set to `val` in its metadata.
    pub fn with_meta(self, key: &str, val: &str) -> (r: Response)
        requires
            self.wf(),
        ensures
            r.wf(),
            r@ == self@.with_meta(key@, val@),
    {
        let mut r = self;
        r.metadata.insert(key, val);
        r
    }

    /// The metadata.
    pub fn metadata(&self) -> (r: &Metadata)
        ensures
            r@ == self@.metadata,
            self.wf() ==> r.wf(),
    {
        &self.metadata
    }
}

} // verus!
