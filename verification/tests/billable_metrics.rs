use meteroid::billable_metrics::{
    billable_metric_row, list_billable_metrics_response, BillableMetricNew, BillableMetricRowNew,
    BillingMetricAggregateEnum, InsertAction, InsertEvent, InsertFlow, InsertState, InsertedMetric,
    RowFailure, StoreError, UnitConversionRoundingEnum,
};
use meteroid::eventbus::{Event, EventBusError};
use meteroid::pagination::PaginatedVec;

type Failure = &'static str;
type Record = &'static str;

fn metric() -> InsertedMetric<Record> {
    InsertedMetric { id: 7, tenant_id: 3, created_by: 11, record: "metric 7" }
}

fn request(matrix: Option<Result<&'static str, Failure>>) -> BillableMetricNew<Result<&'static str, Failure>> {
    BillableMetricNew {
        name: "API calls".to_string(),
        description: Some("calls to the API".to_string()),
        code: "api_calls".to_string(),
        aggregation_type: BillingMetricAggregateEnum::Sum,
        aggregation_key: Some("count".to_string()),
        unit_conversion_factor: Some(1000),
        unit_conversion_rounding: Some(UnitConversionRoundingEnum::Up),
        segmentation_matrix: matrix,
        usage_group_key: None,
        created_by: 11,
        tenant_id: 3,
        family_local_id: "fam".to_string(),
        product_id: Some(5),
    }
}

fn awaiting_row() -> InsertState<Failure, Record> {
    InsertState::AwaitingRow { product_family_id: 99, family_local_id: "fam".to_string(), tenant_id: 3 }
}

#[test]
fn prepared_row_has_fresh_v7_id_and_found_family() {
    let row = awaiting_row().prepare_row(request(Some(Ok("{}"))), "bm_9".to_string()).unwrap().unwrap();
    let id = uuid::Uuid::from_u128(row.id);
    assert_eq!(id.get_version_num(), 7);
    assert_eq!(id.get_variant(), uuid::Variant::RFC4122);
    assert_eq!(row, billable_metric_row(request(Some(Ok("{}"))), 99, row.id, "bm_9".to_string()).unwrap());
    let other = awaiting_row().prepare_row(request(None), "bm_10".to_string()).unwrap().unwrap();
    assert_ne!(other.id, row.id);
}

#[test]
fn row_is_prepared_only_for_the_looked_up_request() {
    let mut other_tenant = request(None);
    other_tenant.tenant_id = 4;
    assert!(awaiting_row().prepare_row(other_tenant, "bm".to_string()).is_none());
    let mut other_family = request(None);
    other_family.family_local_id = "other".to_string();
    assert!(awaiting_row().prepare_row(other_family, "bm".to_string()).is_none());
    assert!(InsertState::<Failure, Record>::AwaitingInsert.prepare_row(request(None), "bm".to_string()).is_none());
    assert_eq!(awaiting_row().prepare_row(request(Some(Err("matrix"))), "bm".to_string()), Some(Err("matrix")));
}

#[test]
fn row_is_built_from_request_family_and_ids() {
    let row = billable_metric_row(request(Some(Ok("{\"single\":{}}"))), 99, 7, "bm_1".to_string()).unwrap();
    assert_eq!(
        row,
        BillableMetricRowNew {
            id: 7,
            local_id: "bm_1".to_string(),
            name: "API calls".to_string(),
            description: Some("calls to the API".to_string()),
            code: "api_calls".to_string(),
            aggregation_type: BillingMetricAggregateEnum::Sum,
            aggregation_key: Some("count".to_string()),
            unit_conversion_factor: Some(1000),
            unit_conversion_rounding: Some(UnitConversionRoundingEnum::Up),
            segmentation_matrix: Some("{\"single\":{}}"),
            usage_group_key: None,
            created_by: 11,
            tenant_id: 3,
            product_family_id: 99,
            product_id: Some(5),
        }
    );
    let plain = billable_metric_row(request(None), 99, 8, "bm_2".to_string()).unwrap();
    assert_eq!(plain.segmentation_matrix, None);
    assert_eq!(plain.id, 8);
}

#[test]
fn unserializable_matrix_fails_the_row() {
    assert_eq!(billable_metric_row(request(Some(Err("bad matrix"))), 99, 7, "bm_1".to_string()), Err("bad matrix"));
}

#[test]
fn listing_keeps_the_page() {
    let page = PaginatedVec { items: vec![1, 2, 3], total_pages: 2, total_results: 5 };
    let res = list_billable_metrics_response::<u8, Failure>(Ok(page)).unwrap();
    assert_eq!(res, PaginatedVec { items: vec![1, 2, 3], total_pages: 2, total_results: 5 });
    assert_eq!(list_billable_metrics_response::<u8, Failure>(Err("db")), Err(StoreError::Database("db")));
}

#[test]
fn successful_insertion_runs_every_step() {
    let (s, a) = InsertFlow::start::<_, Failure, Record>(&request(None));
    assert_eq!(s, InsertState::AwaitingConnection { family_local_id: "fam".to_string(), tenant_id: 3 });
    assert_eq!(a, InsertAction::AcquireConnection);
    let (s, a) = InsertFlow::step(s, InsertEvent::ConnectionAcquired(Ok(())));
    assert_eq!(a, InsertAction::FindFamily { family_local_id: "fam".to_string(), tenant_id: 3 });
    let (s, a) = InsertFlow::step(s, InsertEvent::FamilyFound(Ok(99)));
    assert_eq!(a, InsertAction::PrepareRow { product_family_id: 99 });
    let row = s.prepare_row(request(Some(Ok("{}"))), "bm_1".to_string()).unwrap().unwrap();
    assert_eq!(row.product_family_id, 99);
    assert_eq!(row.tenant_id, 3);
    let (s, a) = InsertFlow::step(s, InsertEvent::RowPrepared(Ok(())));
    assert_eq!(a, InsertAction::InsertRow);
    let (s, a) = InsertFlow::step(s, InsertEvent::RowInserted(Ok(metric())));
    assert_eq!(a, InsertAction::RegisterMeter { tenant_id: 3 });
    assert_eq!(s.metric_to_register(), Some(&metric()));
    let (s, a) = InsertFlow::step(s, InsertEvent::MeterRegistered(Ok(())));
    assert_eq!(a, InsertAction::Commit);
    assert_eq!(s.metric_to_register(), None);
    let (s, a) = InsertFlow::step(s, InsertEvent::Committed(Ok(())));
    assert_eq!(a, InsertAction::Publish(Event::billable_metric_created(11, 7, 3)));
    let (s, a) = InsertFlow::step(s, InsertEvent::Published(Ok(())));
    assert_eq!(a, InsertAction::Finish(Ok(metric())));
    assert_eq!(s, InsertState::Finished);
}

#[test]
fn failed_publish_is_ignored() {
    let s = InsertState::<Failure, Record>::AwaitingPublish { metric: metric() };
    let (s, a) = InsertFlow::step(s, InsertEvent::Published(Err(EventBusError::PublishFailed)));
    assert_eq!(a, InsertAction::Finish(Ok(metric())));
    assert_eq!(s, InsertState::Finished);
}

#[test]
fn connection_failure_ends_insertion() {
    let (s, _) = InsertFlow::start::<_, Failure, Record>(&request(None));
    let (s, a) = InsertFlow::step(s, InsertEvent::ConnectionAcquired(Err("pool")));
    assert_eq!(a, InsertAction::Finish(Err(StoreError::Database("pool"))));
    assert_eq!(s, InsertState::Finished);
}

#[test]
fn missing_family_ends_insertion() {
    let (s, a) = InsertFlow::step(InsertState::<Failure, Record>::AwaitingFamily { family_local_id: "fam".to_string(), tenant_id: 3 }, InsertEvent::FamilyFound(Err("not found")));
    assert_eq!(a, InsertAction::Finish(Err(StoreError::Database("not found"))));
    assert_eq!(s, InsertState::Finished);
}

#[test]
fn serialization_failure_is_a_serde_error() {
    let (_, a) = InsertFlow::step(awaiting_row(), InsertEvent::RowPrepared(Err("matrix")));
    match a {
        InsertAction::Finish(Err(e)) => {
            assert_eq!(e, StoreError::SerdeError("matrix"));
            assert_eq!(e.context(), Some("Failed to serialize segmentation_matrix"));
        }
        other => panic!("unexpected {:?}", other),
    }
}

#[test]
fn refused_meter_rolls_back() {
    let s = InsertState::<Failure, Record>::AwaitingMeter { metric: metric() };
    let (s, a) = InsertFlow::step(s, InsertEvent::MeterRegistered(Err("refused")));
    assert_eq!(a, InsertAction::RollBack);
    let (s, a) = InsertFlow::step(s, InsertEvent::RolledBack(Ok(())));
    match a {
        InsertAction::Finish(Err(e)) => {
            assert_eq!(e.context(), Some("Failed to register meter"));
            assert_eq!(e, StoreError::MeteringServiceError("refused"));
        }
        other => panic!("unexpected {:?}", other),
    }
    assert_eq!(s, InsertState::Finished);
}

#[test]
fn failed_insert_rolls_back_and_failed_rollback_is_reported() {
    let (s, a) = InsertFlow::step(
        InsertState::<Failure, Record>::AwaitingInsert,
        InsertEvent::RowInserted(Err(RowFailure::Insert("dup"))),
    );
    assert_eq!(a, InsertAction::RollBack);
    let (_, a) = InsertFlow::step(s, InsertEvent::RolledBack(Err("rollback")));
    assert_eq!(a, InsertAction::Finish(Err(StoreError::Database("rollback"))));
}

#[test]
fn unreadable_row_is_a_conversion_error() {
    let (s, a) = InsertFlow::step(
        InsertState::<Failure, Record>::AwaitingInsert,
        InsertEvent::RowInserted(Err(RowFailure::Conversion("bad row"))),
    );
    assert_eq!(a, InsertAction::RollBack);
    let (_, a) = InsertFlow::step(s, InsertEvent::RolledBack(Ok(())));
    match a {
        InsertAction::Finish(Err(e)) => {
            assert_eq!(e.context(), None);
            assert_eq!(e, StoreError::Conversion("bad row"));
        }
        other => panic!("unexpected {:?}", other),
    }
}

#[test]
fn failed_commit_ends_insertion() {
    let s = InsertState::<Failure, Record>::AwaitingCommit { metric: metric() };
    let (_, a) = InsertFlow::step(s, InsertEvent::Committed(Err("commit")));
    assert_eq!(a, InsertAction::Finish(Err(StoreError::Database("commit"))));
}

#[test]
fn unexpected_outcome_changes_nothing() {
    let waiting = || InsertState::<Failure, Record>::AwaitingFamily { family_local_id: "fam".to_string(), tenant_id: 3 };
    let (s, a) = InsertFlow::step(waiting(), InsertEvent::Committed(Ok(())));
    assert_eq!(a, InsertAction::Wait);
    assert_eq!(s, waiting());
    let (s, a) = InsertFlow::step(InsertState::<Failure, Record>::Finished, InsertEvent::Published(Ok(())));
    assert_eq!(a, InsertAction::Wait);
    assert_eq!(s, InsertState::Finished);
}

#[test]
fn database_error_has_no_context() {
    assert_eq!(StoreError::Database("x").context(), None);
}
