//! Conversion tests for the service messages: every required field that can
//! be missing or invalid, and the values that survive a round trip.

use plugin_work_queue::analyzer_messages::{
    AnalyzerName, AnalyzerNameProto, EdgeUpdate, EdgeUpdateProto, ExecutionHit, ExecutionMiss,
    ExecutionResult, GraphView, Int64PropertyUpdate, Int64PropertyUpdateProto, LensRef,
    LensRefProto, RunAnalyzerRequest, RunAnalyzerResponse, StringPropertyUpdate,
    StringPropertyUpdateProto, UInt64PropertyUpdate, UInt64PropertyUpdateProto, Update,
    UpdateInnerProto, UpdateProto,
};
use plugin_work_queue::common::{
    EdgeNameProto, PropertyNameProto, SerDeError, TenantId, Uid, UidProto, UuidProto,
};
use plugin_work_queue::schema_messages::{
    DeploySchemaRequest, DeploySchemaRequestProto, DeploySchemaResponse, DeploySchemaResponseProto,
    EdgeCardinality, EdgeCardinalityProto, GetEdgeSchemaRequest, GetEdgeSchemaRequestProto,
    GetEdgeSchemaResponse, GetEdgeSchemaResponseProto, SchemaType, SchemaTypeProto,
};
use plugin_work_queue::uid_allocator_messages::{
    AllocateIdsRequest, AllocateIdsRequestProto, AllocateIdsResponse, AllocateIdsResponseProto,
    Allocation, AllocationProto,
};

fn uid(value: u64) -> Option<UidProto> {
    Some(UidProto { value })
}

fn property(name: &str) -> Option<PropertyNameProto> {
    Some(PropertyNameProto { value: name.to_owned() })
}

fn edge(name: &str) -> Option<EdgeNameProto> {
    Some(EdgeNameProto { value: name.to_owned() })
}

#[test]
fn uid_conversion_rejects_zero() {
    assert_eq!(
        Uid::try_from(UidProto { value: 0 }),
        Err(SerDeError::MissingField("uid"))
    );
    assert_eq!(Uid::try_from(UidProto { value: 5 }), Ok(Uid { value: 5 }));
}

#[test]
fn string_property_update_requires_all_fields() {
    let ok = StringPropertyUpdate::try_from(StringPropertyUpdateProto {
        uid: uid(10),
        property_name: property("process_name"),
    })
    .expect("valid update converts");
    assert_eq!(ok.uid.value, 10);
    assert_eq!(ok.property_name.value, "process_name");

    let missing_uid = StringPropertyUpdate::try_from(StringPropertyUpdateProto {
        uid: None,
        property_name: property("process_name"),
    });
    assert_eq!(missing_uid, Err(SerDeError::MissingField("uid")));

    let zero_uid = StringPropertyUpdate::try_from(StringPropertyUpdateProto {
        uid: uid(0),
        property_name: property("process_name"),
    });
    assert_eq!(zero_uid, Err(SerDeError::MissingField("uid")));

    let missing_name = StringPropertyUpdate::try_from(StringPropertyUpdateProto {
        uid: uid(10),
        property_name: None,
    });
    assert_eq!(missing_name, Err(SerDeError::MissingField("property_name")));

    let empty_name = StringPropertyUpdate::try_from(StringPropertyUpdateProto {
        uid: uid(10),
        property_name: property(""),
    });
    assert_eq!(empty_name, Err(SerDeError::MissingField("property_name")));
}

#[test]
fn uint64_property_update_round_trips() {
    let native = UInt64PropertyUpdate::try_from(UInt64PropertyUpdateProto {
        uid: uid(3),
        property_name: property("pid"),
    })
    .unwrap();
    let wire = UInt64PropertyUpdateProto::from(native.clone());
    let back = UInt64PropertyUpdate::try_from(wire).unwrap();
    assert_eq!(back, native);
}

#[test]
fn int64_property_update_round_trips() {
    let native = Int64PropertyUpdate::try_from(Int64PropertyUpdateProto {
        uid: uid(4),
        property_name: property("exit_code"),
    })
    .unwrap();
    let wire = Int64PropertyUpdateProto::from(native.clone());
    let back = Int64PropertyUpdate::try_from(wire).unwrap();
    assert_eq!(back, native);
}

#[test]
fn edge_update_requires_all_four_fields() {
    let full = EdgeUpdateProto {
        src_uid: uid(1),
        dst_uid: uid(2),
        forward_edge_name: edge("children"),
        reverse_edge_name: edge("parent"),
    };
    let native = EdgeUpdate::try_from(full).expect("valid edge update converts");
    assert_eq!(native.src_uid.value, 1);
    assert_eq!(native.dst_uid.value, 2);
    assert_eq!(native.forward_edge_name.value, "children");
    assert_eq!(native.reverse_edge_name.value, "parent");

    let missing_src = EdgeUpdateProto {
        src_uid: None,
        dst_uid: uid(2),
        forward_edge_name: edge("children"),
        reverse_edge_name: edge("parent"),
    };
    assert!(EdgeUpdate::try_from(missing_src).is_err());

    let missing_reverse = EdgeUpdateProto {
        src_uid: uid(1),
        dst_uid: uid(2),
        forward_edge_name: edge("children"),
        reverse_edge_name: None,
    };
    assert!(EdgeUpdate::try_from(missing_reverse).is_err());
}

#[test]
fn update_variant_is_preserved() {
    let wire = UpdateProto {
        inner: Some(UpdateInnerProto::Edge(EdgeUpdateProto {
            src_uid: uid(1),
            dst_uid: uid(2),
            forward_edge_name: edge("children"),
            reverse_edge_name: edge("parent"),
        })),
    };
    let native = Update::try_from(wire).unwrap();
    assert!(matches!(native, Update::Edge(_)));
    let back = UpdateProto::from(native);
    assert!(matches!(back.inner, Some(UpdateInnerProto::Edge(_))));
}

#[test]
fn update_without_variant_is_unknown() {
    assert_eq!(
        Update::try_from(UpdateProto { inner: None }),
        Err(SerDeError::UnknownVariant("Update"))
    );
}

#[test]
fn lens_ref_and_analyzer_name_pass_through() {
    let lens = LensRef::try_from(LensRefProto {
        lens_namespace: "corp".to_owned(),
        lens_name: "suspicious-hosts".to_owned(),
    })
    .unwrap();
    assert_eq!(lens.lens_namespace, "corp");
    assert_eq!(lens.lens_name, "suspicious-hosts");
    let wire = LensRefProto::from(lens);
    assert_eq!(wire.lens_namespace, "corp");

    let name = AnalyzerName::try_from(AnalyzerNameProto { value: "ssh-anomaly".to_owned() })
        .unwrap();
    assert_eq!(name.value, "ssh-anomaly");
    assert_eq!(AnalyzerNameProto::from(name).value, "ssh-anomaly");
}

#[test]
fn schema_type_rejects_unspecified() {
    assert_eq!(
        SchemaType::try_from(SchemaTypeProto::GraphqlV0),
        Ok(SchemaType::GraphqlV0)
    );
    assert_eq!(
        SchemaType::try_from(SchemaTypeProto::Unspecified),
        Err(SerDeError::UnknownVariant("SchemaType"))
    );
}

#[test]
fn deploy_schema_request_validates_in_order() {
    let tenant = Some(UuidProto { msb: 7, lsb: 9 });
    let ok = DeploySchemaRequest::try_from(DeploySchemaRequestProto {
        tenant_id: tenant,
        schema_type: SchemaTypeProto::GraphqlV0,
        schema: b"type Process { pid: Int }".to_vec(),
        schema_version: 3,
    })
    .expect("valid request converts");
    assert_eq!(ok.tenant_id, TenantId { msb: 7, lsb: 9 });
    assert_eq!(ok.schema_version, 3);
    assert_eq!(ok.schema_type, SchemaType::GraphqlV0);

    let unspecified = DeploySchemaRequest::try_from(DeploySchemaRequestProto {
        tenant_id: tenant,
        schema_type: SchemaTypeProto::Unspecified,
        schema: b"s".to_vec(),
        schema_version: 0,
    });
    assert_eq!(unspecified, Err(SerDeError::UnknownVariant("SchemaType")));

    let empty_schema = DeploySchemaRequest::try_from(DeploySchemaRequestProto {
        tenant_id: tenant,
        schema_type: SchemaTypeProto::GraphqlV0,
        schema: Vec::new(),
        schema_version: 0,
    });
    match empty_schema {
        Err(SerDeError::InvalidField { field_name, assertion }) => {
            assert_eq!(field_name, "schema");
            assert_eq!(assertion, "must not be empty");
        }
        other => panic!("expected an invalid-field error, got {:?}", other),
    }

    let missing_tenant = DeploySchemaRequest::try_from(DeploySchemaRequestProto {
        tenant_id: None,
        schema_type: SchemaTypeProto::GraphqlV0,
        schema: b"s".to_vec(),
        schema_version: 0,
    });
    assert_eq!(
        missing_tenant,
        Err(SerDeError::MissingField("DeploySchemaRequest.tenant_id"))
    );
}

#[test]
fn deploy_schema_response_is_empty() {
    assert_eq!(
        DeploySchemaResponse::try_from(DeploySchemaResponseProto {}),
        Ok(DeploySchemaResponse {})
    );
    let _ = DeploySchemaResponseProto::from(DeploySchemaResponse {});
}

#[test]
fn get_edge_schema_request_requires_every_field() {
    let ok = GetEdgeSchemaRequest::try_from(GetEdgeSchemaRequestProto {
        tenant_id: Some(UuidProto { msb: 1, lsb: 2 }),
        node_type: Some(plugin_work_queue::common::NodeTypeProto { value: "Process".to_owned() }),
        edge_name: edge("children"),
    })
    .expect("valid request converts");
    assert_eq!(ok.node_type.value, "Process");
    assert_eq!(ok.edge_name.value, "children");

    let missing_tenant = GetEdgeSchemaRequest::try_from(GetEdgeSchemaRequestProto {
        tenant_id: None,
        node_type: Some(plugin_work_queue::common::NodeTypeProto { value: "Process".to_owned() }),
        edge_name: edge("children"),
    });
    assert_eq!(
        missing_tenant,
        Err(SerDeError::MissingField("GetEdgeSchemaRequest.tenant_id"))
    );
}

#[test]
fn edge_cardinality_conversions() {
    assert_eq!(
        EdgeCardinality::try_from(EdgeCardinalityProto::ToOne),
        Ok(EdgeCardinality::ToOne)
    );
    assert_eq!(
        EdgeCardinality::try_from(EdgeCardinalityProto::ToMany),
        Ok(EdgeCardinality::ToMany)
    );
    assert_eq!(
        EdgeCardinality::try_from(EdgeCardinalityProto::Unspecified),
        Err(SerDeError::UnknownVariant("EdgeCardinality"))
    );
    assert_eq!(EdgeCardinalityProto::from(EdgeCardinality::ToOne), EdgeCardinalityProto::ToOne);
}

#[test]
fn get_edge_schema_response_round_trips() {
    let native = GetEdgeSchemaResponse::try_from(GetEdgeSchemaResponseProto {
        reverse_edge_name: edge("parent"),
        cardinality: EdgeCardinalityProto::ToMany,
        reverse_cardinality: EdgeCardinalityProto::ToOne,
    })
    .unwrap();
    assert_eq!(native.cardinality, EdgeCardinality::ToMany);
    assert_eq!(native.reverse_cardinality, EdgeCardinality::ToOne);
    let wire = GetEdgeSchemaResponseProto::from(native.clone());
    let back = GetEdgeSchemaResponse::try_from(wire).unwrap();
    assert_eq!(back, native);

    let unspecified = GetEdgeSchemaResponse::try_from(GetEdgeSchemaResponseProto {
        reverse_edge_name: edge("parent"),
        cardinality: EdgeCardinalityProto::Unspecified,
        reverse_cardinality: EdgeCardinalityProto::ToOne,
    });
    assert_eq!(unspecified, Err(SerDeError::UnknownVariant("EdgeCardinality")));
}

#[test]
fn allocation_iterates_start_to_offset() {
    let mut allocation = Allocation { start: 5, offset: 8 };
    assert_eq!(allocation.next(), Some(5));
    assert_eq!(allocation.next(), Some(6));
    assert_eq!(allocation.next(), Some(7));
    assert_eq!(allocation.next(), None);
    assert_eq!(allocation.next(), None);
}

#[test]
fn allocation_conversions_carry_both_fields() {
    let native = Allocation::try_from(AllocationProto { start: 100, offset: 110 }).unwrap();
    assert_eq!(native, Allocation { start: 100, offset: 110 });
    assert_eq!(
        AllocationProto::from(native),
        AllocationProto { start: 100, offset: 110 }
    );
}

#[test]
fn allocate_ids_request_requires_tenant() {
    let ok = AllocateIdsRequest::try_from(AllocateIdsRequestProto {
        count: 1000,
        tenant_id: Some(UuidProto { msb: 3, lsb: 4 }),
    })
    .unwrap();
    assert_eq!(ok.count, 1000);
    assert_eq!(ok.tenant_id, TenantId { msb: 3, lsb: 4 });
    assert_eq!(
        AllocateIdsRequest::try_from(AllocateIdsRequestProto { count: 1, tenant_id: None }),
        Err(SerDeError::MissingField("tenant_id"))
    );
    let wire = AllocateIdsRequestProto::from(ok);
    assert_eq!(wire.tenant_id, Some(UuidProto { msb: 3, lsb: 4 }));
}

#[test]
fn allocate_ids_response_requires_allocation() {
    let ok = AllocateIdsResponse::try_from(AllocateIdsResponseProto {
        allocation: Some(AllocationProto { start: 0, offset: 100 }),
    })
    .unwrap();
    assert_eq!(ok.allocation, Allocation { start: 0, offset: 100 });
    assert_eq!(
        AllocateIdsResponse::try_from(AllocateIdsResponseProto { allocation: None }),
        Err(SerDeError::MissingField("allocation"))
    );
    assert_eq!(
        AllocateIdsResponseProto::from(ok).allocation,
        Some(AllocationProto { start: 0, offset: 100 })
    );
}

#[test]
fn execution_results_carry_their_outcome() {
    let hit = ExecutionHit {
        graph_view: GraphView {},
        root_uid: Uid { value: 12 },
        lens_refs: vec![LensRef {
            lens_namespace: "corp".to_owned(),
            lens_name: "hosts".to_owned(),
        }],
        analyzer_name: AnalyzerName { value: "ssh-anomaly".to_owned() },
        time_of_match: 1_650_000_000,
        idempotency_key: 99,
        score: 75,
    };
    let response = RunAnalyzerResponse { execution_result: ExecutionResult::ExecutionHit(hit) };
    match &response.execution_result {
        ExecutionResult::ExecutionHit(h) => {
            assert_eq!(h.root_uid.value, 12);
            assert_eq!(h.score, 75);
            assert_eq!(h.lens_refs.len(), 1);
        }
        ExecutionResult::ExecutionMiss(_) => panic!("expected a hit"),
    }
    let miss = RunAnalyzerResponse {
        execution_result: ExecutionResult::ExecutionMiss(ExecutionMiss {}),
    };
    assert!(matches!(miss.execution_result, ExecutionResult::ExecutionMiss(_)));
    let request = RunAnalyzerRequest {
        tenant_id: TenantId { msb: 1, lsb: 2 },
        update: Update::StringProperty(
            StringPropertyUpdate::try_from(StringPropertyUpdateProto {
                uid: uid(10),
                property_name: property("process_name"),
            })
            .unwrap(),
        ),
    };
    assert_eq!(request.tenant_id, TenantId { msb: 1, lsb: 2 });
}

#[test]
fn edge_update_error_messages_name_the_edge_fields() {
    let missing_src = EdgeUpdate::try_from(EdgeUpdateProto {
        src_uid: None,
        dst_uid: uid(2),
        forward_edge_name: edge("children"),
        reverse_edge_name: edge("parent"),
    });
    assert_eq!(
        missing_src,
        Err(SerDeError::MissingField("EdgeUpdate.forward_edge_name"))
    );
    let zero_dst = EdgeUpdate::try_from(EdgeUpdateProto {
        src_uid: uid(1),
        dst_uid: uid(0),
        forward_edge_name: edge("children"),
        reverse_edge_name: edge("parent"),
    });
    assert_eq!(zero_dst, Err(SerDeError::MissingField("uid")));
}

#[test]
fn get_edge_schema_request_names_the_missing_field() {
    let missing_node_type = GetEdgeSchemaRequest::try_from(GetEdgeSchemaRequestProto {
        tenant_id: Some(UuidProto { msb: 1, lsb: 2 }),
        node_type: None,
        edge_name: edge("children"),
    });
    assert_eq!(
        missing_node_type,
        Err(SerDeError::MissingField("GetEdgeSchemaRequest.node_type"))
    );
    let missing_edge = GetEdgeSchemaRequest::try_from(GetEdgeSchemaRequestProto {
        tenant_id: Some(UuidProto { msb: 1, lsb: 2 }),
        node_type: Some(plugin_work_queue::common::NodeTypeProto { value: "Process".to_owned() }),
        edge_name: None,
    });
    assert_eq!(
        missing_edge,
        Err(SerDeError::MissingField("GetEdgeSchemaRequest.edge_name"))
    );
}

#[test]
fn get_edge_schema_response_requires_the_reverse_edge_name() {
    let missing_reverse = GetEdgeSchemaResponse::try_from(GetEdgeSchemaResponseProto {
        reverse_edge_name: None,
        cardinality: EdgeCardinalityProto::ToMany,
        reverse_cardinality: EdgeCardinalityProto::ToOne,
    });
    assert_eq!(
        missing_reverse,
        Err(SerDeError::MissingField("GetEdgeSchemaResponse.reverse_edge_name"))
    );
}
