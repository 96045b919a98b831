//! Typed identifiers for the resources and subjects of a permission check.
//!
//! Each domain entity maps to a fixed wire-level namespace name; the
//! identifier itself is an opaque string chosen by the caller. The wire
//! encoding of a reference is always the pair (namespace name, identifier),
//! with the namespace a pure function of the variant tag.

use vstd::prelude::*;

verus! {

/// A typed resource or subject in the authorization schema.
///
/// Each variant carries the entity's opaque identifier, unique within the
/// variant's namespace. The set of variants is closed by design: it mirrors
/// a fixed backend schema, so adding a kind means adding a variant and its
/// namespace name here.
#[derive(Debug, Clone)]
pub enum SpiceDbObject {
    /// A server: the top-level container of channels, users and roles.
    Server(String),
    /// A communication channel within a server.
    Channel(String),
    /// A user: the subject whose access is evaluated.
    User(String),
    /// A fine-grained permission override rule.
    PermissionOverride(String),
}

/// The wire form of a reference: a namespace name and an identifier.
#[derive(Debug, Clone)]
pub struct ObjectReference {
    pub object_type: String,
    pub object_id: String,
}

/// The wire form of a subject: an object reference, optionally narrowed to
/// a relation on that object (not used by the typed path, left empty).
#[derive(Debug, Clone)]
pub struct SubjectReference {
    pub object: Option<ObjectReference>,
    pub optional_relation: String,
}

impl SpiceDbObject {
    /// The identifier carried by the variant.
    pub open spec fn spec_id(&self) -> Seq<char> {
        match self {
            SpiceDbObject::Server(id) => id@,
            SpiceDbObject::Channel(id) => id@,
            SpiceDbObject::User(id) => id@,
            SpiceDbObject::PermissionOverride(id) => id@,
        }
    }

    /// The namespace name of the variant, as the backend schema spells it.
    pub open spec fn spec_object_name(&self) -> Seq<char> {
        match self {
            SpiceDbObject::Server(_) => "server"@,
            SpiceDbObject::Channel(_) => "channel"@,
            SpiceDbObject::User(_) => "user"@,
            SpiceDbObject::PermissionOverride(_) => "permission_override"@,
        }
    }

    /// Returns the object's unique identifier, unchanged.
    pub fn id(&self) -> (r: String)
        ensures
            r@ == self.spec_id(),
    {
        match self {
            SpiceDbObject::Server(id) => id.clone(),
            SpiceDbObject::Channel(id) => id.clone(),
            SpiceDbObject::User(id) => id.clone(),
            SpiceDbObject::PermissionOverride(id) => id.clone(),
        }
    }

    /// Returns the namespace name the variant maps to:
    /// `"server"`, `"channel"`, `"user"` or `"permission_override"`.
    pub fn object_name(&self) -> (r: String)
        ensures
            r@ == self.spec_object_name(),
    {
        match self {
            SpiceDbObject::Server(_) => String::from_str("server"),
            SpiceDbObject::Channel(_) => String::from_str("channel"),
            SpiceDbObject::User(_) => String::from_str("user"),
            SpiceDbObject::PermissionOverride(_) => String::from_str("permission_override"),
        }
    }

    /// Encodes the object as its wire reference: the pair of its namespace
    /// name and its identifier.
    pub fn to_reference(&self) -> (r: ObjectReference)
        ensures
            r.object_type@ == self.spec_object_name(),
            r.object_id@ == self.spec_id(),
    {
        ObjectReference { object_type: self.object_name(), object_id: self.id() }
    }

    /// Encodes the object as a wire subject: its reference, with no
    /// relation narrowing.
    pub fn to_subject_reference(&self) -> (r: SubjectReference)
        ensures
            r.object matches Some(o) && o.object_type@ == self.spec_object_name()
                && o.object_id@ == self.spec_id(),
            r.optional_relation@.len() == 0,
    {
        SubjectReference { object: Some(self.to_reference()), optional_relation: String::new() }
    }
}

} // verus!
