//! The analyzer plugin SDK messages: property and edge updates handed to an
//! analyzer, and the result it reports back, with their wire forms and the
//! validated conversions between the two.

use vstd::prelude::*;

use crate::common::{
    EdgeName, EdgeNameProto, PropertyName, PropertyNameProto, SerDeError, TenantId, Uid, UidProto,
    UuidProto,
};

verus! {

/// Wire form: an update of a string property.
#[derive(Clone, Debug)]
pub struct StringPropertyUpdateProto {
    pub uid: Option<UidProto>,
    pub property_name: Option<PropertyNameProto>,
}

impl StringPropertyUpdateProto {
    /// Both fields are present and valid.
    pub open spec fn is_valid(self) -> bool {
        &&& self.uid matches Some(u) && u.value != 0
        &&& self.property_name matches Some(n) && n.value@.len() != 0
    }
}

/// An update of a string property of one node.
#[derive(Clone, Debug, PartialEq, Eq, Hash)]
pub struct StringPropertyUpdate {
    pub uid: Uid,
    pub property_name: PropertyName,
}

impl StringPropertyUpdate {
    pub fn try_from(proto: StringPropertyUpdateProto) -> (r: Result<Self, SerDeError>)
        ensures
            r is Ok <==> proto.is_valid(),
            r matches Ok(v) ==> v.uid.value == proto.uid->0.value && v.property_name.value@
                == proto.property_name->0.value@,
            !(proto.uid matches Some(u) && u.value != 0) ==> r == Result::<
                Self,
                SerDeError,
            >::Err(SerDeError::MissingField("uid")),
            (proto.uid matches Some(u) && u.value != 0) && !(proto.property_name matches Some(n)
                && n.value@.len() != 0) ==> r == Result::<Self, SerDeError>::Err(
                SerDeError::MissingField("property_name"),
            ),
    {
        let uid_proto = match proto.uid {
            Some(u) => u,
            None => {
                return Err(SerDeError::MissingField("uid"));
            },
        };
        let uid = match Uid::try_from(uid_proto) {
            Ok(u) => u,
            Err(e) => {
                return Err(e);
            },
        };
        let name_proto = match proto.property_name {
            Some(n) => n,
            None => {
                return Err(SerDeError::MissingField("property_name"));
            },
        };
        let property_name = match PropertyName::try_from(name_proto) {
            Ok(n) => n,
            Err(e) => {
                return Err(e);
            },
        };
        Ok(StringPropertyUpdate { uid, property_name })
    }
}

impl StringPropertyUpdateProto {
    pub fn from(value: StringPropertyUpdate) -> (r: Self)
        ensures
            r.uid == Some(UidProto { value: value.uid.value }),
            r.property_name matches Some(n) && n.value@ == value.property_name.value@,
    {
        StringPropertyUpdateProto {
            uid: Some(UidProto::from(value.uid)),
            property_name: Some(PropertyNameProto::from(value.property_name)),
        }
    }
}

/// Wire form: an update of an unsigned 64-bit property.
#[derive(Clone, Debug)]
pub struct UInt64PropertyUpdateProto {
    pub uid: Option<UidProto>,
    pub property_name: Option<PropertyNameProto>,
}

impl UInt64PropertyUpdateProto {
    /// Both fields are present and valid.
    pub open spec fn is_valid(self) -> bool {
        &&& self.uid matches Some(u) && u.value != 0
        &&& self.property_name matches Some(n) && n.value@.len() != 0
    }
}

/// An update of an unsigned 64-bit property of one node.
#[derive(Clone, Debug, PartialEq, Eq, Hash)]
pub struct UInt64PropertyUpdate {
    pub uid: Uid,
    pub property_name: PropertyName,
}

impl UInt64PropertyUpdate {
    pub fn try_from(proto: UInt64PropertyUpdateProto) -> (r: Result<Self, SerDeError>)
        ensures
            r is Ok <==> proto.is_valid(),
            r matches Ok(v) ==> v.uid.value == proto.uid->0.value && v.property_name.value@
                == proto.property_name->0.value@,
            !(proto.uid matches Some(u) && u.value != 0) ==> r == Result::<
                Self,
                SerDeError,
            >::Err(SerDeError::MissingField("uid")),
            (proto.uid matches Some(u) && u.value != 0) && !(proto.property_name matches Some(n)
                && n.value@.len() != 0) ==> r == Result::<Self, SerDeError>::Err(
                SerDeError::MissingField("property_name"),
            ),
    {
        let uid_proto = match proto.uid {
            Some(u) => u,
            None => {
                return Err(SerDeError::MissingField("uid"));
            },
        };
        let uid = match Uid::try_from(uid_proto) {
            Ok(u) => u,
            Err(e) => {
                return Err(e);
            },
        };
        let name_proto = match proto.property_name {
            Some(n) => n,
            None => {
                return Err(SerDeError::MissingField("property_name"));
            },
        };
        let property_name = match PropertyName::try_from(name_proto) {
            Ok(n) => n,
            Err(e) => {
                return Err(e);
            },
        };
        Ok(UInt64PropertyUpdate { uid, property_name })
    }
}

impl UInt64PropertyUpdateProto {
    pub fn from(value: UInt64PropertyUpdate) -> (r: Self)
        ensures
            r.uid == Some(UidProto { value: value.uid.value }),
            r.property_name matches Some(n) && n.value@ == value.property_name.value@,
    {
        UInt64PropertyUpdateProto {
            uid: Some(UidProto::from(value.uid)),
            property_name: Some(PropertyNameProto::from(value.property_name)),
        }
    }
}

/// Wire form: an update of a signed 64-bit property.
#[derive(Clone, Debug)]
pub struct Int64PropertyUpdateProto {
    pub uid: Option<UidProto>,
    pub property_name: Option<PropertyNameProto>,
}

impl Int64PropertyUpdateProto {
    /// Both fields are present and valid.
    pub open spec fn is_valid(self) -> bool {
        &&& self.uid matches Some(u) && u.value != 0
        &&& self.property_name matches Some(n) && n.value@.len() != 0
    }
}

/// An update of a signed 64-bit property of one node.
#[derive(Clone, Debug, PartialEq, Eq, Hash)]
pub struct Int64PropertyUpdate {
    pub uid: Uid,
    pub property_name: PropertyName,
}

impl Int64PropertyUpdate {
    pub fn try_from(proto: Int64PropertyUpdateProto) -> (r: Result<Self, SerDeError>)
        ensures
            r is Ok <==> proto.is_valid(),
            r matches Ok(v) ==> v.uid.value == proto.uid->0.value && v.property_name.value@
                == proto.property_name->0.value@,
            !(proto.uid matches Some(u) && u.value != 0) ==> r == Result::<
                Self,
                SerDeError,
            >::Err(SerDeError::MissingField("uid")),
            (proto.uid matches Some(u) && u.value != 0) && !(proto.property_name matches Some(n)
                && n.value@.len() != 0) ==> r == Result::<Self, SerDeError>::Err(
                SerDeError::MissingField("property_name"),
            ),
    {
        let uid_proto = match proto.uid {
            Some(u) => u,
            None => {
                return Err(SerDeError::MissingField("uid"));
            },
        };
        let uid = match Uid::try_from(uid_proto) {
            Ok(u) => u,
            Err(e) => {
                return Err(e);
            },
        };
        let name_proto = match proto.property_name {
            Some(n) => n,
            None => {
                return Err(SerDeError::MissingField("property_name"));
            },
        };
        let property_name = match PropertyName::try_from(name_proto) {
            Ok(n) => n,
            Err(e) => {
                return Err(e);
            },
        };
        Ok(Int64PropertyUpdate { uid, property_name })
    }
}

impl Int64PropertyUpdateProto {
    pub fn from(value: Int64PropertyUpdate) -> (r: Self)
        ensures
            r.uid == Some(UidProto { value: value.uid.value }),
            r.property_name matches Some(n) && n.value@ == value.property_name.value@,
    {
        Int64PropertyUpdateProto {
            uid: Some(UidProto::from(value.uid)),
            property_name: Some(PropertyNameProto::from(value.property_name)),
        }
    }
}

/// Wire form: an update of an edge.
#[derive(Clone, Debug)]
pub struct EdgeUpdateProto {
    pub src_uid: Option<UidProto>,
    pub dst_uid: Option<UidProto>,
    pub forward_edge_name: Option<EdgeNameProto>,
    pub reverse_edge_name: Option<EdgeNameProto>,
}

impl EdgeUpdateProto {
    pub open spec fn src_ok(self) -> bool {
        self.src_uid matches Some(u) && u.value != 0
    }

    pub open spec fn dst_ok(self) -> bool {
        self.dst_uid matches Some(u) && u.value != 0
    }

    pub open spec fn forward_ok(self) -> bool {
        self.forward_edge_name matches Some(n) && n.value@.len() != 0
    }

    pub open spec fn reverse_ok(self) -> bool {
        self.reverse_edge_name matches Some(n) && n.value@.len() != 0
    }

    /// All four fields are present and valid.
    pub open spec fn is_valid(self) -> bool {
        &&& self.src_ok()
        &&& self.dst_ok()
        &&& self.forward_ok()
        &&& self.reverse_ok()
    }
}

/// An update of one edge, in both directions.
#[derive(Clone, Debug, PartialEq, Eq, Hash)]
pub struct EdgeUpdate {
    pub src_uid: Uid,
    pub dst_uid: Uid,
    pub forward_edge_name: EdgeName,
    pub reverse_edge_name: EdgeName,
}

impl EdgeUpdate {
    pub fn try_from(proto: EdgeUpdateProto) -> (r: Result<Self, SerDeError>)
        ensures
            r is Ok <==> proto.is_valid(),
            r matches Ok(v) ==> {
                &&& v.src_uid.value == proto.src_uid->0.value
                &&& v.dst_uid.value == proto.dst_uid->0.value
                &&& v.forward_edge_name.value@ == proto.forward_edge_name->0.value@
                &&& v.reverse_edge_name.value@ == proto.reverse_edge_name->0.value@
            },
            proto.src_uid is None ==> r == Result::<Self, SerDeError>::Err(
                SerDeError::MissingField("EdgeUpdate.forward_edge_name"),
            ),
            proto.src_uid matches Some(u) && u.value == 0 ==> r == Result::<Self, SerDeError>::Err(
                SerDeError::MissingField("uid"),
            ),
            proto.src_ok() && proto.dst_uid is None ==> r == Result::<Self, SerDeError>::Err(
                SerDeError::MissingField("EdgeUpdate.reverse_edge_name"),
            ),
            proto.src_ok() && (proto.dst_uid matches Some(u) && u.value == 0) ==> r == Result::<
                Self,
                SerDeError,
            >::Err(SerDeError::MissingField("uid")),
            proto.src_ok() && proto.dst_ok() && proto.forward_edge_name is None ==> r == Result::<
                Self,
                SerDeError,
            >::Err(SerDeError::MissingField("EdgeUpdate.forward_edge_name")),
            proto.src_ok() && proto.dst_ok() && (proto.forward_edge_name matches Some(n)
                && n.value@.len() == 0) ==> r == Result::<Self, SerDeError>::Err(
                SerDeError::MissingField("edge_name"),
            ),
            proto.src_ok() && proto.dst_ok() && proto.forward_ok() && proto.reverse_edge_name
                is None ==> r == Result::<Self, SerDeError>::Err(
                SerDeError::MissingField("EdgeUpdate.reverse_edge_name"),
            ),
            proto.src_ok() && proto.dst_ok() && proto.forward_ok() && (proto.reverse_edge_name
                matches Some(n) && n.value@.len() == 0) ==> r == Result::<Self, SerDeError>::Err(
                SerDeError::MissingField("edge_name"),
            ),
    {
        let src_proto = match proto.src_uid {
            Some(u) => u,
            None => {
                return Err(SerDeError::MissingField("EdgeUpdate.forward_edge_name"));
            },
        };
        let src_uid = match Uid::try_from(src_proto) {
            Ok(u) => u,
            Err(e) => {
                return Err(e);
            },
        };
        let dst_proto = match proto.dst_uid {
            Some(u) => u,
            None => {
                return Err(SerDeError::MissingField("EdgeUpdate.reverse_edge_name"));
            },
        };
        let dst_uid = match Uid::try_from(dst_proto) {
            Ok(u) => u,
            Err(e) => {
                return Err(e);
            },
        };
        let forward_proto = match proto.forward_edge_name {
            Some(n) => n,
            None => {
                return Err(SerDeError::MissingField("EdgeUpdate.forward_edge_name"));
            },
        };
        let forward_edge_name = match EdgeName::try_from(forward_proto) {
            Ok(n) => n,
            Err(e) => {
                return Err(e);
            },
        };
        let reverse_proto = match proto.reverse_edge_name {
            Some(n) => n,
            None => {
                return Err(SerDeError::MissingField("EdgeUpdate.reverse_edge_name"));
            },
        };
        let reverse_edge_name = match EdgeName::try_from(reverse_proto) {
            Ok(n) => n,
            Err(e) => {
                return Err(e);
            },
        };
        Ok(EdgeUpdate { src_uid, dst_uid, forward_edge_name, reverse_edge_name })
    }
}

impl EdgeUpdateProto {
    pub fn from(value: EdgeUpdate) -> (r: Self)
        ensures
            r.src_uid == Some(UidProto { value: value.src_uid.value }),
            r.dst_uid == Some(UidProto { value: value.dst_uid.value }),
            r.forward_edge_name matches Some(n) && n.value@ == value.forward_edge_name.value@,
            r.reverse_edge_name matches Some(n) && n.value@ == value.reverse_edge_name.value@,
    {
        EdgeUpdateProto {
            src_uid: Some(UidProto::from(value.src_uid)),
            dst_uid: Some(UidProto::from(value.dst_uid)),
            forward_edge_name: Some(EdgeNameProto::from(value.forward_edge_name)),
            reverse_edge_name: Some(EdgeNameProto::from(value.reverse_edge_name)),
        }
    }
}

/// Wire form: the variants of an update.
#[derive(Clone, Debug)]
pub enum UpdateInnerProto {
    StringProperty(StringPropertyUpdateProto),
    Uint64Property(UInt64PropertyUpdateProto),
    Int64Property(Int64PropertyUpdateProto),
    Edge(EdgeUpdateProto),
}

/// Wire form: an update, whose variant may be absent.
#[derive(Clone, Debug)]
pub struct UpdateProto {
    pub inner: Option<UpdateInnerProto>,
}

impl UpdateProto {
    /// A variant is present and its fields are valid.
    pub open spec fn is_valid(self) -> bool {
        match self.inner {
            Some(UpdateInnerProto::StringProperty(u)) => u.is_valid(),
            Some(UpdateInnerProto::Uint64Property(u)) => u.is_valid(),
            Some(UpdateInnerProto::Int64Property(u)) => u.is_valid(),
            Some(UpdateInnerProto::Edge(u)) => u.is_valid(),
            None => false,
        }
    }
}

/// One update that an analyzer is asked to evaluate.
#[derive(Clone, Debug, PartialEq, Eq, Hash)]
pub enum Update {
    StringProperty(StringPropertyUpdate),
    Uint64Property(UInt64PropertyUpdate),
    Int64Property(Int64PropertyUpdate),
    Edge(EdgeUpdate),
}

impl Update {
    pub fn try_from(value: UpdateProto) -> (r: Result<Self, SerDeError>)
        ensures
            r is Ok <==> value.is_valid(),
            r matches Ok(v) ==> match value.inner {
                Some(UpdateInnerProto::StringProperty(u)) => v matches Update::StringProperty(_),
                Some(UpdateInnerProto::Uint64Property(u)) => v matches Update::Uint64Property(_),
                Some(UpdateInnerProto::Int64Property(u)) => v matches Update::Int64Property(_),
                Some(UpdateInnerProto::Edge(u)) => v matches Update::Edge(_),
                None => false,
            },
            value.inner is None ==> r == Result::<Self, SerDeError>::Err(
                SerDeError::UnknownVariant("Update"),
            ),
    {
        match value.inner {
            Some(UpdateInnerProto::StringProperty(update)) => {
                match StringPropertyUpdate::try_from(update) {
                    Ok(u) => Ok(Update::StringProperty(u)),
                    Err(e) => Err(e),
                }
            },
            Some(UpdateInnerProto::Uint64Property(update)) => {
                match UInt64PropertyUpdate::try_from(update) {
                    Ok(u) => Ok(Update::Uint64Property(u)),
                    Err(e) => Err(e),
                }
            },
            Some(UpdateInnerProto::Int64Property(update)) => {
                match Int64PropertyUpdate::try_from(update) {
                    Ok(u) => Ok(Update::Int64Property(u)),
                    Err(e) => Err(e),
                }
            },
            Some(UpdateInnerProto::Edge(update)) => {
                match EdgeUpdate::try_from(update) {
                    Ok(u) => Ok(Update::Edge(u)),
                    Err(e) => Err(e),
                }
            },
            None => Err(SerDeError::UnknownVariant("Update")),
        }
    }
}

impl UpdateProto {
    pub fn from(value: Update) -> (r: Self)
        ensures
            match value {
                Update::StringProperty(_) => r.inner matches Some(
                    UpdateInnerProto::StringProperty(_),
                ),
                Update::Uint64Property(_) => r.inner matches Some(
                    UpdateInnerProto::Uint64Property(_),
                ),
                Update::Int64Property(_) => r.inner matches Some(
                    UpdateInnerProto::Int64Property(_),
                ),
                Update::Edge(_) => r.inner matches Some(UpdateInnerProto::Edge(_)),
            },
    {
        match value {
            Update::StringProperty(update) => UpdateProto {
                inner: Some(UpdateInnerProto::StringProperty(StringPropertyUpdateProto::from(
                    update,
                ))),
            },
            Update::Uint64Property(update) => UpdateProto {
                inner: Some(UpdateInnerProto::Uint64Property(UInt64PropertyUpdateProto::from(
                    update,
                ))),
            },
            Update::Int64Property(update) => UpdateProto {
                inner: Some(UpdateInnerProto::Int64Property(Int64PropertyUpdateProto::from(
                    update,
                ))),
            },
            Update::Edge(update) => UpdateProto {
                inner: Some(UpdateInnerProto::Edge(EdgeUpdateProto::from(update))),
            },
        }
    }
}

/// Wire form: a reference to a lens.
#[derive(Clone, Debug)]
pub struct LensRefProto {
    pub lens_namespace: String,
    pub lens_name: String,
}

/// A reference to a lens grouping related findings.
#[derive(Clone, Debug, PartialEq, Eq, Hash)]
pub struct LensRef {
    pub lens_namespace: String,
    pub lens_name: String,
}

impl LensRef {
    /// The conversion never fails: both fields are carried over as they are.
    pub fn try_from(value: LensRefProto) -> (r: Result<Self, SerDeError>)
        ensures
            r matches Ok(v) && v.lens_namespace@ == value.lens_namespace@ && v.lens_name@
                == value.lens_name@,
    {
        Ok(LensRef { lens_namespace: value.lens_namespace, lens_name: value.lens_name })
    }
}

impl LensRefProto {
    pub fn from(value: LensRef) -> (r: Self)
        ensures
            r.lens_namespace@ == value.lens_namespace@,
            r.lens_name@ == value.lens_name@,
    {
        LensRefProto { lens_namespace: value.lens_namespace, lens_name: value.lens_name }
    }
}

/// Wire form: the name of an analyzer.
#[derive(Clone, Debug)]
pub struct AnalyzerNameProto {
    pub value: String,
}

/// The name of an analyzer plugin.
#[derive(Clone, Debug, PartialEq, Eq, Hash)]
pub struct AnalyzerName {
    pub value: String,
}

impl AnalyzerName {
    /// The conversion never fails: the name is carried over as it is.
    pub fn try_from(value: AnalyzerNameProto) -> (r: Result<Self, SerDeError>)
        ensures
            r matches Ok(v) && v.value@ == value.value@,
    {
        Ok(AnalyzerName { value: value.value })
    }
}

impl AnalyzerNameProto {
    pub fn from(value: AnalyzerName) -> (r: Self)
        ensures
            r.value@ == value.value@,
    {
        AnalyzerNameProto { value: value.value }
    }
}

/// The matched subgraph attached to an execution hit. Its structure belongs
/// to the graph-query service; the analyzer messages only carry it along.
#[derive(Clone, Debug, PartialEq, Eq)]
pub struct GraphView {}

/// An analyzer matched: the subgraph, where it is rooted, the lenses it
/// belongs to, and how it scores. `time_of_match` is seconds since the epoch.
#[derive(Clone, Debug)]
pub struct ExecutionHit {
    pub graph_view: GraphView,
    pub root_uid: Uid,
    pub lens_refs: Vec<LensRef>,
    pub analyzer_name: AnalyzerName,
    pub time_of_match: u64,
    pub idempotency_key: u64,
    pub score: i32,
}

/// An analyzer evaluated the update and found nothing.
#[derive(Clone, Debug, PartialEq, Eq)]
pub struct ExecutionMiss {}

/// The outcome of running an analyzer on one update.
#[derive(Clone, Debug)]
pub enum ExecutionResult {
    ExecutionHit(ExecutionHit),
    ExecutionMiss(ExecutionMiss),
}

/// A request to run an analyzer on one update for one tenant.
#[derive(Clone, Debug)]
pub struct RunAnalyzerRequest {
    pub tenant_id: TenantId,
    pub update: Update,
}

/// The analyzer's answer to a [`RunAnalyzerRequest`].
#[derive(Clone, Debug)]
pub struct RunAnalyzerResponse {
    pub execution_result: ExecutionResult,
}

} // verus!
