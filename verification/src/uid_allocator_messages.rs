//! The uid-allocator messages: a request for a block of node identifiers for
//! one tenant, and the allocation handed back, with their wire forms.

use vstd::prelude::*;

use crate::common::{SerDeError, TenantId, UuidProto};

verus! {

/// Wire form of an allocation.
#[derive(Clone, Copy, Debug, PartialEq, Eq, Structural)]
pub struct AllocationProto {
    pub start: u64,
    pub offset: u32,
}

/// A block of allocated identifiers: the values from `start` up to (and
/// excluding) `offset`, walked by [`Allocation::next`].
#[derive(Clone, Copy, Debug, PartialEq, Eq, Structural)]
pub struct Allocation {
    pub start: u64,
    pub offset: u32,
}

impl Allocation {
    /// The conversion never fails: both fields are carried over as they are.
    pub fn try_from(proto: AllocationProto) -> (r: Result<Self, SerDeError>)
        ensures
            r == Result::<Self, SerDeError>::Ok(
                Allocation { start: proto.start, offset: proto.offset },
            ),
    {
        Ok(Allocation { start: proto.start, offset: proto.offset })
    }

    /// Hand out the next identifier of the block: `start`, advancing it by
    /// one, until `start` has reached the end marker `offset`.
    pub fn next(&mut self) -> (r: Option<u64>)
        requires
            old(self).start == old(self).offset as u64 || old(self).start < u64::MAX,
        ensures
            old(self).start == old(self).offset as u64 ==> r is None && *final(self) == *old(
                self,
            ),
            old(self).start != old(self).offset as u64 ==> {
                &&& r == Some(old(self).start)
                &&& final(self).start == old(self).start + 1
                &&& final(self).offset == old(self).offset
            },
    {
        if self.start == (self.offset as u64) {
            None
        } else {
            let result = self.start;
            self.start = self.start + 1;
            Some(result)
        }
    }
}

impl AllocationProto {
    pub fn from(allocation: Allocation) -> (r: Self)
        ensures
            r == (AllocationProto { start: allocation.start, offset: allocation.offset }),
    {
        AllocationProto { start: allocation.start, offset: allocation.offset }
    }
}

/// Wire form of a request for identifiers.
#[derive(Clone, Copy, Debug, PartialEq, Eq, Structural)]
pub struct AllocateIdsRequestProto {
    pub count: u32,
    pub tenant_id: Option<UuidProto>,
}

/// A request for a block of `count` identifiers for one tenant.
#[derive(Clone, Copy, Debug, PartialEq, Eq, Structural)]
pub struct AllocateIdsRequest {
    pub count: u32,
    pub tenant_id: TenantId,
}

impl AllocateIdsRequest {
    pub fn try_from(proto: AllocateIdsRequestProto) -> (r: Result<Self, SerDeError>)
        ensures
            r is Ok <==> proto.tenant_id is Some,
            r matches Ok(v) ==> {
                &&& v.count == proto.count
                &&& v.tenant_id == (TenantId { msb: proto.tenant_id->0.msb, lsb: proto.tenant_id->0.lsb })
            },
            proto.tenant_id is None ==> r == Result::<Self, SerDeError>::Err(
                SerDeError::MissingField("tenant_id"),
            ),
    {
        let tenant_proto = match proto.tenant_id {
            Some(t) => t,
            None => {
                return Err(SerDeError::MissingField("tenant_id"));
            },
        };
        Ok(AllocateIdsRequest { count: proto.count, tenant_id: TenantId::from_proto(tenant_proto) })
    }
}

impl AllocateIdsRequestProto {
    pub fn from(request: AllocateIdsRequest) -> (r: Self)
        ensures
            r.count == request.count,
            r.tenant_id == Some(
                UuidProto { msb: request.tenant_id.msb, lsb: request.tenant_id.lsb },
            ),
    {
        AllocateIdsRequestProto {
            count: request.count,
            tenant_id: Some(request.tenant_id.into_proto()),
        }
    }
}

/// Wire form of the allocator's answer.
#[derive(Clone, Copy, Debug, PartialEq, Eq, Structural)]
pub struct AllocateIdsResponseProto {
    pub allocation: Option<AllocationProto>,
}

/// The allocator's answer: the allocated block.
#[derive(Clone, Copy, Debug, PartialEq, Eq, Structural)]
pub struct AllocateIdsResponse {
    pub allocation: Allocation,
}

impl AllocateIdsResponse {
    pub fn try_from(proto: AllocateIdsResponseProto) -> (r: Result<Self, SerDeError>)
        ensures
            r is Ok <==> proto.allocation is Some,
            r matches Ok(v) ==> {
                &&& v.allocation == (Allocation { start: proto.allocation->0.start, offset: proto.allocation->0.offset })
            },
            proto.allocation is None ==> r == Result::<Self, SerDeError>::Err(
                SerDeError::MissingField("allocation"),
            ),
    {
        let allocation_proto = match proto.allocation {
            Some(a) => a,
            None => {
                return Err(SerDeError::MissingField("allocation"));
            },
        };
        let allocation = match Allocation::try_from(allocation_proto) {
            Ok(a) => a,
            Err(e) => {
                return Err(e);
            },
        };
        Ok(AllocateIdsResponse { allocation })
    }
}

impl AllocateIdsResponseProto {
    pub fn from(response: AllocateIdsResponse) -> (r: Self)
        ensures
            r.allocation == Some(
                AllocationProto { start: response.allocation.start, offset: response.allocation.offset },
            ),
    {
        AllocateIdsResponseProto { allocation: Some(AllocationProto::from(response.allocation)) }
    }
}

} // verus!
