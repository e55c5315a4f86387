use vstd::prelude::*;

use crate::concept::{ValueType, IID};
use crate::correlator::after_submit;
use crate::error::Error;
use crate::request::{ConceptRequest, Frame, Request};
use crate::transaction::TransactionStream;

verus! {

/// What an operation submitted on a transaction stream does: an open
/// transaction registers it under the next identifier and hands back its
/// frame; any other state rejects it, and nothing is sent.
pub open spec fn submitted(
    before: TransactionStream,
    after: TransactionStream,
    request: Request,
    r: Result<Frame, Error>,
) -> bool {
    &&& after.wf()
    &&& after.state() == before.state()
    &&& after.kind() == before.kind()
    &&& after.failure() == before.failure()
    &&& before.rejection() matches Some(e) ==> r == Err::<Frame, Error>(e) && after.slots() == before.slots()
    &&& before.rejection() is None ==> {
        &&& r matches Ok(frame)
        &&& frame.request_id == before.slots().len()
        &&& frame.request == request
        &&& after.slots() == after_submit(before.slots())
    }
}

/// The concept API of one transaction: each call is sent on the transaction's
/// stream, and its result is taken from the stream under the frame's identifier.
pub struct ConceptManager {
    pub transaction_stream: TransactionStream,
}

impl ConceptManager {
    pub fn new(transaction_stream: TransactionStream) -> (r: ConceptManager)
        ensures
            r.transaction_stream == transaction_stream,
    {
        ConceptManager { transaction_stream }
    }

    /// Retrieves an entity type by its label.
    pub fn get_entity_type(&mut self, label: String) -> (r: Result<Frame, Error>)
        requires
            old(self).transaction_stream.wf(),
            old(self).transaction_stream.slots().len() < u64::MAX,
        ensures
            submitted(
                old(self).transaction_stream,
                final(self).transaction_stream,
                Request::Concept { operation: ConceptRequest::GetEntityType { label } },
                r,
            ),
    {
        self.transaction_stream.execute(Request::Concept { operation: ConceptRequest::GetEntityType { label } })
    }

    /// Retrieves a relation type by its label.
    pub fn get_relation_type(&mut self, label: String) -> (r: Result<Frame, Error>)
        requires
            old(self).transaction_stream.wf(),
            old(self).transaction_stream.slots().len() < u64::MAX,
        ensures
            submitted(
                old(self).transaction_stream,
                final(self).transaction_stream,
                Request::Concept { operation: ConceptRequest::GetRelationType { label } },
                r,
            ),
    {
        self.transaction_stream.execute(Request::Concept { operation: ConceptRequest::GetRelationType { label } })
    }

    /// Retrieves an attribute type by its label.
    pub fn get_attribute_type(&mut self, label: String) -> (r: Result<Frame, Error>)
        requires
            old(self).transaction_stream.wf(),
            old(self).transaction_stream.slots().len() < u64::MAX,
        ensures
            submitted(
                old(self).transaction_stream,
                final(self).transaction_stream,
                Request::Concept { operation: ConceptRequest::GetAttributeType { label } },
                r,
            ),
    {
        self.transaction_stream.execute(Request::Concept { operation: ConceptRequest::GetAttributeType { label } })
    }

    /// Creates an entity type with the label, or retrieves the one that exists.
    pub fn put_entity_type(&mut self, label: String) -> (r: Result<Frame, Error>)
        requires
            old(self).transaction_stream.wf(),
            old(self).transaction_stream.slots().len() < u64::MAX,
        ensures
            submitted(
                old(self).transaction_stream,
                final(self).transaction_stream,
                Request::Concept { operation: ConceptRequest::PutEntityType { label } },
                r,
            ),
    {
        self.transaction_stream.execute(Request::Concept { operation: ConceptRequest::PutEntityType { label } })
    }

    /// Creates a relation type with the label, or retrieves the one that exists.
    pub fn put_relation_type(&mut self, label: String) -> (r: Result<Frame, Error>)
        requires
            old(self).transaction_stream.wf(),
            old(self).transaction_stream.slots().len() < u64::MAX,
        ensures
            submitted(
                old(self).transaction_stream,
                final(self).transaction_stream,
                Request::Concept { operation: ConceptRequest::PutRelationType { label } },
                r,
            ),
    {
        self.transaction_stream.execute(Request::Concept { operation: ConceptRequest::PutRelationType { label } })
    }

    /// Creates an attribute type with the label and value type, or retrieves the one that exists.
    pub fn put_attribute_type(&mut self, label: String, value_type: ValueType) -> (r: Result<Frame, Error>)
        requires
            old(self).transaction_stream.wf(),
            old(self).transaction_stream.slots().len() < u64::MAX,
        ensures
            submitted(
                old(self).transaction_stream,
                final(self).transaction_stream,
                Request::Concept { operation: ConceptRequest::PutAttributeType { label, value_type } },
                r,
            ),
    {
        self.transaction_stream.execute(Request::Concept { operation: ConceptRequest::PutAttributeType { label, value_type } })
    }

    /// Retrieves an entity by its iid.
    pub fn get_entity(&mut self, iid: IID) -> (r: Result<Frame, Error>)
        requires
            old(self).transaction_stream.wf(),
            old(self).transaction_stream.slots().len() < u64::MAX,
        ensures
            submitted(
                old(self).transaction_stream,
                final(self).transaction_stream,
                Request::Concept { operation: ConceptRequest::GetEntity { iid } },
                r,
            ),
    {
        self.transaction_stream.execute(Request::Concept { operation: ConceptRequest::GetEntity { iid } })
    }

    /// Retrieves a relation by its iid.
    pub fn get_relation(&mut self, iid: IID) -> (r: Result<Frame, Error>)
        requires
            old(self).transaction_stream.wf(),
            old(self).transaction_stream.slots().len() < u64::MAX,
        ensures
            submitted(
                old(self).transaction_stream,
                final(self).transaction_stream,
                Request::Concept { operation: ConceptRequest::GetRelation { iid } },
                r,
            ),
    {
        self.transaction_stream.execute(Request::Concept { operation: ConceptRequest::GetRelation { iid } })
    }

    /// Retrieves an attribute by its iid.
    pub fn get_attribute(&mut self, iid: IID) -> (r: Result<Frame, Error>)
        requires
            old(self).transaction_stream.wf(),
            old(self).transaction_stream.slots().len() < u64::MAX,
        ensures
            submitted(
                old(self).transaction_stream,
                final(self).transaction_stream,
                Request::Concept { operation: ConceptRequest::GetAttribute { iid } },
                r,
            ),
    {
        self.transaction_stream.execute(Request::Concept { operation: ConceptRequest::GetAttribute { iid } })
    }

    /// Retrieves the schema exceptions of the current transaction.
    pub fn get_schema_exceptions(&mut self) -> (r: Result<Frame, Error>)
        requires
            old(self).transaction_stream.wf(),
            old(self).transaction_stream.slots().len() < u64::MAX,
        ensures
            submitted(
                old(self).transaction_stream,
                final(self).transaction_stream,
                Request::Concept { operation: ConceptRequest::GetSchemaExceptions },
                r,
            ),
    {
        self.transaction_stream.execute(Request::Concept { operation: ConceptRequest::GetSchemaExceptions })
    }
}

} // verus!
