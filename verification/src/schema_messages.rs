//! The graph-schema-manager messages: deploying a tenant's schema and looking
//! up the schema of an edge, with their wire forms and validated conversions.

use vstd::prelude::*;

use crate::common::{
    EdgeName, EdgeNameProto, NodeType, NodeTypeProto, SerDeError, TenantId, UuidProto,
};

verus! {

/// Wire form: the kind of schema being deployed, with the protobuf zero
/// variant for "unspecified".
#[derive(Clone, Copy, Debug, PartialEq, Eq, Structural)]
pub enum SchemaTypeProto {
    Unspecified,
    GraphqlV0,
}

/// The kind of schema being deployed.
#[derive(Clone, Copy, Debug, PartialEq, Eq, Hash, Structural)]
pub enum SchemaType {
    GraphqlV0,
}

impl SchemaType {
    pub fn try_from(proto: SchemaTypeProto) -> (r: Result<Self, SerDeError>)
        ensures
            proto is GraphqlV0 ==> r == Result::<Self, SerDeError>::Ok(SchemaType::GraphqlV0),
            proto is Unspecified ==> r == Result::<Self, SerDeError>::Err(
                SerDeError::UnknownVariant("SchemaType"),
            ),
    {
        match proto {
            SchemaTypeProto::GraphqlV0 => Ok(SchemaType::GraphqlV0),
            SchemaTypeProto::Unspecified => Err(SerDeError::UnknownVariant("SchemaType")),
        }
    }
}

impl SchemaTypeProto {
    pub fn from(value: SchemaType) -> (r: Self)
        ensures
            r == SchemaTypeProto::GraphqlV0,
    {
        match value {
            SchemaType::GraphqlV0 => SchemaTypeProto::GraphqlV0,
        }
    }
}

/// Wire form: a request to deploy a schema.
#[derive(Clone, Debug)]
pub struct DeploySchemaRequestProto {
    pub tenant_id: Option<UuidProto>,
    pub schema_type: SchemaTypeProto,
    pub schema: Vec<u8>,
    pub schema_version: u32,
}

impl DeploySchemaRequestProto {
    /// The schema type is specified, the schema is non-empty and the tenant
    /// is present.
    pub open spec fn is_valid(self) -> bool {
        &&& self.schema_type is GraphqlV0
        &&& self.schema@.len() != 0
        &&& self.tenant_id is Some
    }
}

/// A request to deploy a new version of a tenant's schema.
#[derive(Clone, Debug, PartialEq, Eq, Hash)]
pub struct DeploySchemaRequest {
    pub tenant_id: TenantId,
    pub schema: Vec<u8>,
    pub schema_type: SchemaType,
    pub schema_version: u32,
}

impl DeploySchemaRequest {
    pub fn try_from(value: DeploySchemaRequestProto) -> (r: Result<Self, SerDeError>)
        ensures
            r is Ok <==> value.is_valid(),
            r matches Ok(v) ==> {
                &&& v.tenant_id == TenantId {
                    msb: value.tenant_id->0.msb,
                    lsb: value.tenant_id->0.lsb,
                }
                &&& v.schema@ == value.schema@
                &&& v.schema_type == SchemaType::GraphqlV0
                &&& v.schema_version == value.schema_version
            },
            value.schema_type is Unspecified ==> r == Result::<Self, SerDeError>::Err(
                SerDeError::UnknownVariant("SchemaType"),
            ),
            value.schema_type is GraphqlV0 && value.schema@.len() == 0 ==> {
                &&& r matches Err(e)
                &&& e matches SerDeError::InvalidField { field_name, assertion }
                &&& field_name@ == "schema"@
                &&& assertion@ == "must not be empty"@
            },
            value.schema_type is GraphqlV0 && value.schema@.len() != 0 && value.tenant_id is None
                ==> r == Result::<Self, SerDeError>::Err(
                SerDeError::MissingField("DeploySchemaRequest.tenant_id"),
            ),
    {
        let schema_type = match SchemaType::try_from(value.schema_type) {
            Ok(t) => t,
            Err(e) => {
                return Err(e);
            },
        };
        let schema = value.schema;
        if schema.len() == 0 {
            return Err(
                SerDeError::InvalidField {
                    field_name: "schema",
                    assertion: "must not be empty".to_owned(),
                },
            );
        }
        let tenant_proto = match value.tenant_id {
            Some(t) => t,
            None => {
                return Err(SerDeError::MissingField("DeploySchemaRequest.tenant_id"));
            },
        };
        let tenant_id = TenantId::from_proto(tenant_proto);
        Ok(
            DeploySchemaRequest {
                tenant_id,
                schema,
                schema_type,
                schema_version: value.schema_version,
            },
        )
    }
}

impl DeploySchemaRequestProto {
    pub fn from(value: DeploySchemaRequest) -> (r: Self)
        ensures
            r.tenant_id == Some(UuidProto { msb: value.tenant_id.msb, lsb: value.tenant_id.lsb }),
            r.schema_type == SchemaTypeProto::GraphqlV0,
            r.schema@ == value.schema@,
            r.schema_version == value.schema_version,
    {
        let schema_type = SchemaTypeProto::from(value.schema_type);
        DeploySchemaRequestProto {
            tenant_id: Some(value.tenant_id.into_proto()),
            schema_type,
            schema: value.schema,
            schema_version: value.schema_version,
        }
    }
}

/// Wire form: the (empty) answer to a schema deployment.
#[derive(Clone, Copy, Debug, PartialEq, Eq, Structural)]
pub struct DeploySchemaResponseProto {}

/// The (empty) answer to a successful schema deployment.
#[derive(Clone, Copy, Debug, PartialEq, Eq, Hash, Structural)]
pub struct DeploySchemaResponse {}

impl DeploySchemaResponse {
    /// The conversion never fails.
    pub fn try_from(response_proto: DeploySchemaResponseProto) -> (r: Result<Self, SerDeError>)
        ensures
            r == (Result::<Self, SerDeError>::Ok(DeploySchemaResponse {  })),
    {
        Ok(DeploySchemaResponse {  })
    }
}

impl DeploySchemaResponseProto {
    pub fn from(response: DeploySchemaResponse) -> (r: Self)
        ensures
            r == (DeploySchemaResponseProto {  }),
    {
        DeploySchemaResponseProto {  }
    }
}

/// Wire form: a request for the schema of one edge.
#[derive(Clone, Debug)]
pub struct GetEdgeSchemaRequestProto {
    pub tenant_id: Option<UuidProto>,
    pub node_type: Option<NodeTypeProto>,
    pub edge_name: Option<EdgeNameProto>,
}

impl GetEdgeSchemaRequestProto {
    /// All three fields are present and valid.
    pub open spec fn is_valid(self) -> bool {
        &&& self.tenant_id is Some
        &&& self.node_type matches Some(t) && t.value@.len() != 0
        &&& self.edge_name matches Some(n) && n.value@.len() != 0
    }
}

/// A request for the schema of the named edge on the named node type.
#[derive(Clone, Debug, PartialEq)]
pub struct GetEdgeSchemaRequest {
    pub tenant_id: TenantId,
    pub node_type: NodeType,
    pub edge_name: EdgeName,
}

impl GetEdgeSchemaRequest {
    pub fn try_from(response_proto: GetEdgeSchemaRequestProto) -> (r: Result<Self, SerDeError>)
        ensures
            r is Ok <==> response_proto.is_valid(),
            r matches Ok(v) ==> {
                &&& v.tenant_id == TenantId {
                    msb: response_proto.tenant_id->0.msb,
                    lsb: response_proto.tenant_id->0.lsb,
                }
                &&& v.node_type.value@ == response_proto.node_type->0.value@
                &&& v.edge_name.value@ == response_proto.edge_name->0.value@
            },
            response_proto.tenant_id is None ==> r == Result::<Self, SerDeError>::Err(
                SerDeError::MissingField("GetEdgeSchemaRequest.tenant_id"),
            ),
            response_proto.tenant_id is Some && response_proto.node_type is None ==> r == Result::<
                Self,
                SerDeError,
            >::Err(SerDeError::MissingField("GetEdgeSchemaRequest.node_type")),
            response_proto.tenant_id is Some && (response_proto.node_type matches Some(t)
                && t.value@.len() == 0) ==> r == Result::<Self, SerDeError>::Err(
                SerDeError::MissingField("node_type"),
            ),
            response_proto.tenant_id is Some && (response_proto.node_type matches Some(t)
                && t.value@.len() != 0) && response_proto.edge_name is None ==> r == Result::<
                Self,
                SerDeError,
            >::Err(SerDeError::MissingField("GetEdgeSchemaRequest.edge_name")),
            response_proto.tenant_id is Some && (response_proto.node_type matches Some(t)
                && t.value@.len() != 0) && (response_proto.edge_name matches Some(n)
                && n.value@.len() == 0) ==> r == Result::<Self, SerDeError>::Err(
                SerDeError::MissingField("edge_name"),
            ),
    {
        let tenant_proto = match response_proto.tenant_id {
            Some(t) => t,
            None => {
                return Err(SerDeError::MissingField("GetEdgeSchemaRequest.tenant_id"));
            },
        };
        let tenant_id = TenantId::from_proto(tenant_proto);
        let node_type_proto = match response_proto.node_type {
            Some(t) => t,
            None => {
                return Err(SerDeError::MissingField("GetEdgeSchemaRequest.node_type"));
            },
        };
        let node_type = match NodeType::try_from(node_type_proto) {
            Ok(t) => t,
            Err(e) => {
                return Err(e);
            },
        };
        let edge_name_proto = match response_proto.edge_name {
            Some(n) => n,
            None => {
                return Err(SerDeError::MissingField("GetEdgeSchemaRequest.edge_name"));
            },
        };
        let edge_name = match EdgeName::try_from(edge_name_proto) {
            Ok(n) => n,
            Err(e) => {
                return Err(e);
            },
        };
        Ok(GetEdgeSchemaRequest { tenant_id, node_type, edge_name })
    }
}

impl GetEdgeSchemaRequestProto {
    pub fn from(response: GetEdgeSchemaRequest) -> (r: Self)
        ensures
            r.tenant_id == Some(
                UuidProto { msb: response.tenant_id.msb, lsb: response.tenant_id.lsb },
            ),
            r.node_type matches Some(t) && t.value@ == response.node_type.value@,
            r.edge_name matches Some(n) && n.value@ == response.edge_name.value@,
    {
        GetEdgeSchemaRequestProto {
            tenant_id: Some(response.tenant_id.into_proto()),
            node_type: Some(NodeTypeProto::from(response.node_type)),
            edge_name: Some(EdgeNameProto::from(response.edge_name)),
        }
    }
}

/// Wire form: how many edges of this kind a node may have, with the protobuf
/// zero variant for "unspecified".
#[derive(Clone, Copy, Debug, PartialEq, Eq, Structural)]
pub enum EdgeCardinalityProto {
    Unspecified,
    ToOne,
    ToMany,
}

/// How many edges of this kind a node may have.
#[derive(Clone, Copy, Debug, PartialEq, Eq, Hash, Structural)]
pub enum EdgeCardinality {
    ToOne,
    ToMany,
}

impl EdgeCardinality {
    pub fn try_from(response_proto: EdgeCardinalityProto) -> (r: Result<Self, SerDeError>)
        ensures
            response_proto is ToOne ==> r == Result::<Self, SerDeError>::Ok(EdgeCardinality::ToOne),
            response_proto is ToMany ==> r == Result::<Self, SerDeError>::Ok(
                EdgeCardinality::ToMany,
            ),
            response_proto is Unspecified ==> r == Result::<Self, SerDeError>::Err(
                SerDeError::UnknownVariant("EdgeCardinality"),
            ),
    {
        match response_proto {
            EdgeCardinalityProto::ToOne => Ok(EdgeCardinality::ToOne),
            EdgeCardinalityProto::ToMany => Ok(EdgeCardinality::ToMany),
            EdgeCardinalityProto::Unspecified => Err(SerDeError::UnknownVariant("EdgeCardinality")),
        }
    }
}

impl EdgeCardinalityProto {
    pub fn from(response: EdgeCardinality) -> (r: Self)
        ensures
            response is ToOne ==> r == EdgeCardinalityProto::ToOne,
            response is ToMany ==> r == EdgeCardinalityProto::ToMany,
    {
        match response {
            EdgeCardinality::ToOne => EdgeCardinalityProto::ToOne,
            EdgeCardinality::ToMany => EdgeCardinalityProto::ToMany,
        }
    }
}

/// Wire form: the schema of an edge.
#[derive(Clone, Debug)]
pub struct GetEdgeSchemaResponseProto {
    pub reverse_edge_name: Option<EdgeNameProto>,
    pub cardinality: EdgeCardinalityProto,
    pub reverse_cardinality: EdgeCardinalityProto,
}

impl GetEdgeSchemaResponseProto {
    /// Both cardinalities are specified and the reverse edge name is present
    /// and valid.
    pub open spec fn is_valid(self) -> bool {
        &&& !(self.cardinality is Unspecified)
        &&& !(self.reverse_cardinality is Unspecified)
        &&& self.reverse_edge_name matches Some(n) && n.value@.len() != 0
    }
}

/// The schema of an edge: its reverse name and the cardinality of both
/// directions.
#[derive(Clone, Debug, PartialEq)]
pub struct GetEdgeSchemaResponse {
    pub reverse_edge_name: EdgeName,
    pub cardinality: EdgeCardinality,
    pub reverse_cardinality: EdgeCardinality,
}

impl GetEdgeSchemaResponse {
    pub fn try_from(response_proto: GetEdgeSchemaResponseProto) -> (r: Result<Self, SerDeError>)
        ensures
            r is Ok <==> response_proto.is_valid(),
            r matches Ok(v) ==> {
                &&& v.reverse_edge_name.value@ == response_proto.reverse_edge_name->0.value@
                &&& (v.cardinality is ToOne <==> response_proto.cardinality is ToOne)
                &&& (v.reverse_cardinality is ToOne <==> response_proto.reverse_cardinality
                    is ToOne)
            },
            response_proto.cardinality is Unspecified || (!(response_proto.cardinality
                is Unspecified) && response_proto.reverse_cardinality is Unspecified) ==> r
                == Result::<Self, SerDeError>::Err(SerDeError::UnknownVariant("EdgeCardinality")),
            !(response_proto.cardinality is Unspecified) && !(response_proto.reverse_cardinality
                is Unspecified) && response_proto.reverse_edge_name is None ==> r == Result::<
                Self,
                SerDeError,
            >::Err(SerDeError::MissingField("GetEdgeSchemaResponse.reverse_edge_name")),
            !(response_proto.cardinality is Unspecified) && !(response_proto.reverse_cardinality
                is Unspecified) && (response_proto.reverse_edge_name matches Some(n)
                && n.value@.len() == 0) ==> r == Result::<Self, SerDeError>::Err(
                SerDeError::MissingField("edge_name"),
            ),
    {
        let cardinality = match EdgeCardinality::try_from(response_proto.cardinality) {
            Ok(c) => c,
            Err(e) => {
                return Err(e);
            },
        };
        let reverse_cardinality = match EdgeCardinality::try_from(
            response_proto.reverse_cardinality,
        ) {
            Ok(c) => c,
            Err(e) => {
                return Err(e);
            },
        };
        let reverse_proto = match response_proto.reverse_edge_name {
            Some(n) => n,
            None => {
                return Err(SerDeError::MissingField("GetEdgeSchemaResponse.reverse_edge_name"));
            },
        };
        let reverse_edge_name = match EdgeName::try_from(reverse_proto) {
            Ok(n) => n,
            Err(e) => {
                return Err(e);
            },
        };
        Ok(GetEdgeSchemaResponse { reverse_edge_name, cardinality, reverse_cardinality })
    }
}

impl GetEdgeSchemaResponseProto {
    pub fn from(value: GetEdgeSchemaResponse) -> (r: Self)
        ensures
            r.reverse_edge_name matches Some(n) && n.value@ == value.reverse_edge_name.value@,
            r.cardinality is ToOne <==> value.cardinality is ToOne,
            r.reverse_cardinality is ToOne <==> value.reverse_cardinality is ToOne,
            !(r.cardinality is Unspecified),
            !(r.reverse_cardinality is Unspecified),
    {
        let cardinality = EdgeCardinalityProto::from(value.cardinality);
        let reverse_cardinality = EdgeCardinalityProto::from(value.reverse_cardinality);
        GetEdgeSchemaResponseProto {
            reverse_edge_name: Some(EdgeNameProto::from(value.reverse_edge_name)),
            cardinality,
            reverse_cardinality,
        }
    }
}

} // verus!
