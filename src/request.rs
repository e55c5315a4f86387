use vstd::prelude::*;

use crate::concept::{ValueType, IID};
use crate::RequestID;

verus! {

/// The kind of transaction that a stream carries.
#[derive(Clone, Copy, Debug, PartialEq, Eq, Structural)]
pub enum TransactionType {
    Read,
    Write,
}

/// An operation of the concept API, carried over a transaction stream.
pub enum ConceptRequest {
    GetEntityType { label: String },
    GetRelationType { label: String },
    GetAttributeType { label: String },
    PutEntityType { label: String },
    PutRelationType { label: String },
    PutAttributeType { label: String, value_type: ValueType },
    GetEntity { iid: IID },
    GetRelation { iid: IID },
    GetAttribute { iid: IID },
    GetSchemaExceptions,
}

/// A request sent on a transaction stream.
pub enum Request {
    Open { transaction_type: TransactionType },
    Commit,
    Rollback,
    Concept { operation: ConceptRequest },
}

/// A request tagged with the identifier its response will carry.
pub struct Frame {
    pub request_id: RequestID,
    pub request: Request,
}

} // verus!
