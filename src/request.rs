use vstd::prelude::*;
use crate::message::MessageView;
use crate::metadata::Metadata;

verus! {

/// The input of a call: a body and metadata, fixed when it is built. A host
/// fills the metadata from the header fields of what it received.
#[derive(Debug)]
pub struct Request {
    body: Vec<u8>,
    metadata: Metadata,
}

impl View for Request {
    type V = MessageView;

    closed spec fn view(&self) -> MessageView {
        MessageView { body: self.body@, metadata: self.metadata@ }
    }
}

impl Request {
    /// The metadata holds one entry per key.
    pub closed spec fn wf(&self) -> bool {
        self.metadata.wf()
    }

    /// A request with this body and this metadata.
    pub fn new(body: Vec<u8>, metadata: Metadata) -> (r: Request)
        requires
            metadata.wf(),
        ensures
            r.wf(),
            r@ == (MessageView { body: body@, metadata: metadata@ }),
    {
        Request { body, metadata }
    }

    /// The body bytes.
    pub fn body(&self) -> (r: &[u8])
        ensures
            r@ == self@.body,
    {
        self.body.as_slice()
    }

    /// The metadata.
    pub fn metadata(&self) -> (r: &Metadata)
        ensures
            r@ == self@.metadata,
            self.wf() ==> r.wf(),
    {
        &self.metadata
    }
}

} // verus!
