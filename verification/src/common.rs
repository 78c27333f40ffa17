//! Common identifier types shared by the service messages, their wire forms,
//! and the error a failed conversion reports.
//!
//! Wire types (`...Proto`) mirror the encoded protobuf messages: every
//! embedded message is optional and unvalidated. The native types are what the
//! services work with; converting from a wire value checks that required
//! fields are present and valid.

use vstd::prelude::*;

verus! {

/// Why a wire message could not be converted into its validated native form.
#[derive(Clone, Debug, PartialEq, Eq)]
pub enum SerDeError {
    MissingField(&'static str),
    UnknownVariant(&'static str),
    InvalidField { field_name: &'static str, assertion: String },
}

/// The wire form of a node identifier.
#[derive(Clone, Copy, Debug, PartialEq, Eq, Structural)]
pub struct UidProto {
    pub value: u64,
}

/// A node identifier in a tenant's graph; never zero.
#[derive(Clone, Copy, Debug, PartialEq, Eq, Hash, Structural)]
pub struct Uid {
    pub value: u64,
}

impl Uid {
    /// A zero identifier is reserved and refused.
    pub fn try_from(proto: UidProto) -> (r: Result<Self, SerDeError>)
        ensures
            r is Ok <==> proto.value != 0,
            r matches Ok(v) ==> v.value == proto.value,
            proto.value == 0 ==> r == Result::<Self, SerDeError>::Err(
                SerDeError::MissingField("uid"),
            ),
    {
        if proto.value == 0 {
            Err(SerDeError::MissingField("uid"))
        } else {
            Ok(Uid { value: proto.value })
        }
    }

    pub fn as_u64(&self) -> (r: u64)
        ensures
            r == self.value,
    {
        self.value
    }
}

impl UidProto {
    pub fn from(value: Uid) -> (r: Self)
        ensures
            r.value == value.value,
    {
        UidProto { value: value.value }
    }
}

/// The wire form of a tenant identifier: the two halves of its UUID.
#[derive(Clone, Copy, Debug, PartialEq, Eq, Structural)]
pub struct UuidProto {
    pub msb: u64,
    pub lsb: u64,
}

/// A tenant identifier, as the two halves of its UUID.
#[derive(Clone, Copy, Debug, PartialEq, Eq, Hash, Structural)]
pub struct TenantId {
    pub msb: u64,
    pub lsb: u64,
}

impl TenantId {
    pub fn from_proto(proto: UuidProto) -> (r: Self)
        ensures
            r.msb == proto.msb,
            r.lsb == proto.lsb,
    {
        TenantId { msb: proto.msb, lsb: proto.lsb }
    }

    pub fn into_proto(self) -> (r: UuidProto)
        ensures
            r.msb == self.msb,
            r.lsb == self.lsb,
    {
        UuidProto { msb: self.msb, lsb: self.lsb }
    }
}

/// The wire form of a property name.
#[derive(Clone, Debug)]
pub struct PropertyNameProto {
    pub value: String,
}

/// The name of a node property.
#[derive(Clone, Debug, PartialEq, Eq, Hash)]
pub struct PropertyName {
    pub value: String,
}

impl PropertyName {
    /// An empty property name is refused.
    pub fn try_from(proto: PropertyNameProto) -> (r: Result<Self, SerDeError>)
        ensures
            r is Ok <==> proto.value@.len() != 0,
            r matches Ok(v) ==> v.value@ == proto.value@,
            r is Err ==> r == Result::<Self, SerDeError>::Err(
                SerDeError::MissingField("property_name"),
            ),
    {
        if proto.value.as_str().unicode_len() == 0 {
            Err(SerDeError::MissingField("property_name"))
        } else {
            Ok(PropertyName { value: proto.value })
        }
    }
}

impl PropertyNameProto {
    pub fn from(value: PropertyName) -> (r: Self)
        ensures
            r.value@ == value.value@,
    {
        PropertyNameProto { value: value.value }
    }
}

/// The wire form of an edge name.
#[derive(Clone, Debug)]
pub struct EdgeNameProto {
    pub value: String,
}

/// The name of a graph edge.
#[derive(Clone, Debug, PartialEq, Eq, Hash)]
pub struct EdgeName {
    pub value: String,
}

impl EdgeName {
    /// An empty edge name is refused.
    pub fn try_from(proto: EdgeNameProto) -> (r: Result<Self, SerDeError>)
        ensures
            r is Ok <==> proto.value@.len() != 0,
            r matches Ok(v) ==> v.value@ == proto.value@,
            r is Err ==> r == Result::<Self, SerDeError>::Err(
                SerDeError::MissingField("edge_name"),
            ),
    {
        if proto.value.as_str().unicode_len() == 0 {
            Err(SerDeError::MissingField("edge_name"))
        } else {
            Ok(EdgeName { value: proto.value })
        }
    }
}

impl EdgeNameProto {
    pub fn from(value: EdgeName) -> (r: Self)
        ensures
            r.value@ == value.value@,
    {
        EdgeNameProto { value: value.value }
    }
}

/// The wire form of a node type.
#[derive(Clone, Debug)]
pub struct NodeTypeProto {
    pub value: String,
}

/// The type of a graph node.
#[derive(Clone, Debug, PartialEq, Eq, Hash)]
pub struct NodeType {
    pub value: String,
}

impl NodeType {
    /// An empty node type is refused.
    pub fn try_from(proto: NodeTypeProto) -> (r: Result<Self, SerDeError>)
        ensures
            r is Ok <==> proto.value@.len() != 0,
            r matches Ok(v) ==> v.value@ == proto.value@,
            r is Err ==> r == Result::<Self, SerDeError>::Err(
                SerDeError::MissingField("node_type"),
            ),
    {
        if proto.value.as_str().unicode_len() == 0 {
            Err(SerDeError::MissingField("node_type"))
        } else {
            Ok(NodeType { value: proto.value })
        }
    }
}

impl NodeTypeProto {
    pub fn from(value: NodeType) -> (r: Self)
        ensures
            r.value@ == value.value@,
    {
        NodeTypeProto { value: value.value }
    }
}

} // verus!
