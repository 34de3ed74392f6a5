//! Inserting a billable metric: the new row, and the steps of the insertion
//! as a state machine.
//!
//! Inserting a billable metric takes a database connection, looks up the
//! product family that the metric belongs to, prepares the new row (fresh
//! ids, the serialized segmentation matrix), inserts the row and registers
//! the metric with the metering service inside one transaction, and finally
//! announces the new metric on the event bus. Each of these is outside work;
//! [`InsertFlow`] decides, from the outcome of each step, which step comes
//! next and how the insertion ends. [`billable_metric_row`] builds the row.

use vstd::prelude::*;
use crate::eventbus::{Event, EventBusError};
use crate::pagination::PaginatedVec;

verus! {

/// How a metric aggregates the usage events it counts.
#[derive(Debug, Clone, Copy, PartialEq, Eq, Structural)]
pub enum BillingMetricAggregateEnum {
    Count,
    Latest,
    Max,
    Min,
    Mean,
    Sum,
    CountDistinct,
}

/// How converted usage quantities are rounded.
#[derive(Debug, Clone, Copy, PartialEq, Eq, Structural)]
pub enum UnitConversionRoundingEnum {
    Up,
    Down,
    Nearest,
    NearestHalf,
    NearestTenth,
    /// No rounding.
    NoRounding,
}

/// A request for a new billable metric; `S` is its segmentation matrix.
#[derive(Debug, PartialEq, Eq)]
pub struct BillableMetricNew<S> {
    pub name: String,
    pub description: Option<String>,
    pub code: String,
    pub aggregation_type: BillingMetricAggregateEnum,
    pub aggregation_key: Option<String>,
    pub unit_conversion_factor: Option<i32>,
    pub unit_conversion_rounding: Option<UnitConversionRoundingEnum>,
    pub segmentation_matrix: Option<S>,
    pub usage_group_key: Option<String>,
    pub created_by: u128,
    pub tenant_id: u128,
    pub family_local_id: String,
    pub product_id: Option<u128>,
}

/// The row inserted for a new billable metric; `J` is the serialized
/// segmentation matrix.
#[derive(Debug, PartialEq, Eq)]
pub struct BillableMetricRowNew<J> {
    pub id: u128,
    pub local_id: String,
    pub name: String,
    pub description: Option<String>,
    pub code: String,
    pub aggregation_type: BillingMetricAggregateEnum,
    pub aggregation_key: Option<String>,
    pub unit_conversion_factor: Option<i32>,
    pub unit_conversion_rounding: Option<UnitConversionRoundingEnum>,
    pub segmentation_matrix: Option<J>,
    pub usage_group_key: Option<String>,
    pub created_by: u128,
    pub tenant_id: u128,
    pub product_family_id: u128,
    pub product_id: Option<u128>,
}

/// The row for `new` in the product family `product_family_id`, with the
/// fresh ids `id` and `local_id`, where its segmentation matrix, if any,
/// serialized.
pub open spec fn row_of<J, F>(
    new: BillableMetricNew<Result<J, F>>,
    product_family_id: u128,
    id: u128,
    local_id: String,
) -> BillableMetricRowNew<J> {
    BillableMetricRowNew {
        id,
        local_id,
        name: new.name,
        description: new.description,
        code: new.code,
        aggregation_type: new.aggregation_type,
        aggregation_key: new.aggregation_key,
        unit_conversion_factor: new.unit_conversion_factor,
        unit_conversion_rounding: new.unit_conversion_rounding,
        segmentation_matrix: match new.segmentation_matrix {
            Some(Ok(j)) => Some(j),
            _ => None,
        },
        usage_group_key: new.usage_group_key,
        created_by: new.created_by,
        tenant_id: new.tenant_id,
        product_family_id,
        product_id: new.product_id,
    }
}

/// Builds the row of a new billable metric from the request (its
/// segmentation matrix already serialized, or the serializer's failure), the
/// id of its product family and the fresh ids; fails with the serializer's
/// failure where the matrix did not serialize.
pub fn billable_metric_row<J, F>(
    new: BillableMetricNew<Result<J, F>>,
    product_family_id: u128,
    id: u128,
    local_id: String,
) -> (res: Result<BillableMetricRowNew<J>, F>)
    ensures
        new.segmentation_matrix matches Some(Err(f)) ==> res == Err::<BillableMetricRowNew<J>, F>(f),
        !(new.segmentation_matrix matches Some(Err(_))) ==> res == Ok::<BillableMetricRowNew<J>, F>(
            row_of(new, product_family_id, id, local_id),
        ),
        res matches Ok(row) ==> row.id == id && row.local_id == local_id && row.product_family_id
            == product_family_id && row.name == new.name && row.description == new.description && row.code
                == new.code && row.aggregation_type == new.aggregation_type && row.aggregation_key
                == new.aggregation_key && row.unit_conversion_factor == new.unit_conversion_factor
                && row.unit_conversion_rounding == new.unit_conversion_rounding
                && row.usage_group_key == new.usage_group_key && row.created_by == new.created_by
                && row.tenant_id == new.tenant_id && row.product_id == new.product_id && (
            new.segmentation_matrix matches Some(Ok(j)) ==> row.segmentation_matrix == Some(j)) && (
            new.segmentation_matrix is None ==> row.segmentation_matrix is None),
{
    let BillableMetricNew {
        name,
        description,
        code,
        aggregation_type,
        aggregation_key,
        unit_conversion_factor,
        unit_conversion_rounding,
        segmentation_matrix,
        usage_group_key,
        created_by,
        tenant_id,
        family_local_id,
        product_id,
    } = new;
    let segmentation_matrix = match segmentation_matrix {
        Some(Ok(j)) => Some(j),
        Some(Err(f)) => return Err(f),
        None => None,
    };
    Ok(
        BillableMetricRowNew {
            id,
            local_id,
            name,
            description,
            code,
            aggregation_type,
            aggregation_key,
            unit_conversion_factor,
            unit_conversion_rounding,
            segmentation_matrix,
            usage_group_key,
            created_by,
            tenant_id,
            product_family_id,
            product_id,
        },
    )
}

/// An inserted billable metric, read back from its row: the metric `record`
/// and the ids that the insertion uses, which are those of the record.
#[derive(Debug, PartialEq, Eq)]
pub struct InsertedMetric<M> {
    pub id: u128,
    pub tenant_id: u128,
    pub created_by: u128,
    pub record: M,
}

/// How a store operation failed; `F` is the failure that the outside work
/// reports.
#[derive(Debug, PartialEq, Eq)]
pub enum StoreError<F> {
    /// A failure of the database, passed on as it came.
    Database(F),
    /// The inserted row could not be read back as a metric.
    Conversion(F),
    /// The segmentation matrix could not be serialized.
    SerdeError(F),
    /// The metering service refused the new metric.
    MeteringServiceError(F),
}

impl<F> StoreError<F> {
    /// The message that the error is reported with, where it adds one.
    pub fn context(&self) -> (res: Option<&'static str>)
        ensures
            match self {
                StoreError::Database(_) => res is None,
                StoreError::Conversion(_) => res is None,
                StoreError::SerdeError(_) => res matches Some(m) && m@
                    == "Failed to serialize segmentation_matrix"@,
                StoreError::MeteringServiceError(_) => res matches Some(m) && m@
                    == "Failed to register meter"@,
            },
    {
        match self {
            StoreError::Database(_) => None,
            StoreError::Conversion(_) => None,
            StoreError::SerdeError(_) => Some("Failed to serialize segmentation_matrix"),
            StoreError::MeteringServiceError(_) => Some("Failed to register meter"),
        }
    }
}

/// How inserting the row failed: in the database, or in reading the
/// inserted row back as a metric.
#[derive(Debug, PartialEq, Eq)]
pub enum RowFailure<F> {
    Insert(F),
    Conversion(F),
}

/// The answer to a listing of billable metrics: the page as the database
/// gave it, or its failure.
pub fn list_billable_metrics_response<T, E>(listed: Result<PaginatedVec<T>, E>) -> (res: Result<
    PaginatedVec<T>,
    StoreError<E>,
>)
    ensures
        listed matches Ok(page) ==> res == Ok::<PaginatedVec<T>, StoreError<E>>(page),
        listed matches Err(e) ==> res == Err::<PaginatedVec<T>, StoreError<E>>(StoreError::Database(e)),
{
    match listed {
        Ok(page) => Ok(PaginatedVec {
            items: page.items,
            total_pages: page.total_pages,
            total_results: page.total_results,
        }),
        Err(e) => Err(StoreError::Database(e)),
    }
}

/// Where an insertion stands: which outcome it waits for.
#[derive(Debug, PartialEq, Eq)]
pub enum InsertState<F, M> {
    AwaitingConnection { family_local_id: String, tenant_id: u128 },
    AwaitingFamily { family_local_id: String, tenant_id: u128 },
    AwaitingRow { product_family_id: u128, family_local_id: String, tenant_id: u128 },
    AwaitingInsert,
    AwaitingMeter { metric: InsertedMetric<M> },
    AwaitingCommit { metric: InsertedMetric<M> },
    AwaitingRollback { error: StoreError<F> },
    AwaitingPublish { metric: InsertedMetric<M> },
    Finished,
}

impl<F, M> InsertState<F, M> {
    /// The metric to hand to the metering service, while the insertion waits
    /// for its registration.
    pub fn metric_to_register(&self) -> (res: Option<&InsertedMetric<M>>)
        ensures
            self matches InsertState::AwaitingMeter { metric } ==> res == Some(metric),
            !(self is AwaitingMeter) ==> res is None,
    {
        match self {
            InsertState::AwaitingMeter { metric } => Some(metric),
            _ => None,
        }
    }

    /// Prepares the row of `new` while the insertion waits for it: with a
    /// fresh version-7 UUID, the local id `local_id`, and the product family
    /// that the lookup found. Only the request that the lookup was made for
    /// (the same family local id and tenant) gets a row; for any other
    /// request, or in any other state, `None`.
    pub fn prepare_row<J, E>(&self, new: BillableMetricNew<Result<J, E>>, local_id: String) -> (res:
        Option<Result<BillableMetricRowNew<J>, E>>)
        ensures
            res is Some <==> (self matches InsertState::AwaitingRow { family_local_id, tenant_id, .. }
                && new.family_local_id@ == family_local_id@ && new.tenant_id == tenant_id),
            new.segmentation_matrix matches Some(Err(f)) ==> (res is Some ==> res == Some(
                Err::<BillableMetricRowNew<J>, E>(f),
            )),
            res matches Some(Ok(row)) ==> (self matches InsertState::AwaitingRow {
                product_family_id,
                ..
            } && is_uuid_v7(row.id) && row == row_of(new, *product_family_id, row.id, local_id)),
            !(new.segmentation_matrix matches Some(Err(_))) ==> (res is Some ==> res matches Some(
                Ok(_),
            )),
            res matches Some(Ok(row)) ==> row.local_id == local_id && row.name == new.name && row.description == new.description && row.code
                == new.code && row.aggregation_type == new.aggregation_type && row.aggregation_key
                == new.aggregation_key && row.unit_conversion_factor == new.unit_conversion_factor
                && row.unit_conversion_rounding == new.unit_conversion_rounding
                && row.usage_group_key == new.usage_group_key && row.created_by == new.created_by
                && row.tenant_id == new.tenant_id && row.product_id == new.product_id && (
            new.segmentation_matrix matches Some(Ok(j)) ==> row.segmentation_matrix == Some(j)) && (
            new.segmentation_matrix is None ==> row.segmentation_matrix is None),
            res matches Some(Ok(row)) ==> self matches InsertState::AwaitingRow {
                product_family_id,
                ..
            } && row.product_family_id == *product_family_id,
    {
        match self {
            InsertState::AwaitingRow { product_family_id, family_local_id, tenant_id } => {
                if new.family_local_id == *family_local_id && new.tenant_id == *tenant_id {
                    let id = fresh_uuid_v7();
                    Some(billable_metric_row(new, *product_family_id, id, local_id))
                } else {
                    None
                }
            },
            _ => None,
        }
    }
}

/// Whether `id` is a version-7 UUID of the RFC variant: its version field
/// (bits 76 to 79) holds 7 and its variant field (bits 62 and 63) holds `10`.
pub open spec fn is_uuid_v7(id: u128) -> bool {
    (id >> 76u128) & 0xfu128 == 7 && (id >> 62u128) & 0x3u128 == 2
}

/// A fresh UUID from `uuid::Uuid::now_v7`, as its 128-bit value.
///
/// Trusted: `now_v7` builds a version-7 UUID of the RFC variant (it writes 7
/// into the version field and `10` into the variant field); the rest of its
/// bits come from the clock and from random bytes and are not stated.
/// `now_v7` panics where the operating system gives no random bytes.
#[verifier::external_body]
fn fresh_uuid_v7() -> (res: u128)
    ensures
        is_uuid_v7(res),
{
    uuid::Uuid::now_v7().as_u128()
}

/// The outcome of a step of outside work.
#[derive(Debug, PartialEq, Eq)]
pub enum InsertEvent<F, M> {
    /// A database connection was taken from the pool, or not.
    ConnectionAcquired(Result<(), F>),
    /// The product family was found, with its id, or the lookup failed.
    FamilyFound(Result<u128, F>),
    /// The new row was prepared, or its segmentation matrix did not serialize.
    RowPrepared(Result<(), F>),
    /// The row was inserted and read back as a metric, or not.
    RowInserted(Result<InsertedMetric<M>, RowFailure<F>>),
    /// The metering service registered the metric, or refused it.
    MeterRegistered(Result<(), F>),
    /// The transaction was committed, or the commit failed.
    Committed(Result<(), F>),
    /// The transaction was rolled back, or the rollback failed.
    RolledBack(Result<(), F>),
    /// The event bus took the announcement, or not.
    Published(Result<(), EventBusError>),
}

/// The next step of outside work, or the end of the insertion.
#[derive(Debug, PartialEq, Eq)]
pub enum InsertAction<F, M> {
    /// Take a connection from the pool.
    AcquireConnection,
    /// Look up the product family by its local id within the tenant.
    FindFamily { family_local_id: String, tenant_id: u128 },
    /// Prepare the new row for the given product family: fresh ids, the
    /// serialized segmentation matrix, and [`billable_metric_row`].
    PrepareRow { product_family_id: u128 },
    /// Open a transaction and insert the prepared row.
    InsertRow,
    /// Register the metric that [`InsertState::metric_to_register`] gives
    /// with the metering service, for the tenant.
    RegisterMeter { tenant_id: u128 },
    /// Commit the transaction.
    Commit,
    /// Roll the transaction back.
    RollBack,
    /// Publish the event on the bus.
    Publish(Event),
    /// The insertion is over, with this result.
    Finish(Result<InsertedMetric<M>, StoreError<F>>),
    /// The event did not belong to the current step: nothing to do.
    Wait,
}

/// The transitions of the insertion: the state and action that follow an
/// outcome in a state. An outcome that the state does not wait for changes
/// nothing.
pub open spec fn insert_transition<F, M>(state: InsertState<F, M>, event: InsertEvent<F, M>) -> (
    InsertState<F, M>,
    InsertAction<F, M>,
) {
    match (state, event) {
        (
            InsertState::AwaitingConnection { family_local_id, tenant_id },
            InsertEvent::ConnectionAcquired(r),
        ) => match r {
            Ok(_) => (
                InsertState::AwaitingFamily { family_local_id, tenant_id },
                InsertAction::FindFamily { family_local_id, tenant_id },
            ),
            Err(f) => (InsertState::Finished, InsertAction::Finish(Err(StoreError::Database(f)))),
        },
        (
            InsertState::AwaitingFamily { family_local_id, tenant_id },
            InsertEvent::FamilyFound(r),
        ) => match r {
            Ok(product_family_id) => (
                InsertState::AwaitingRow { product_family_id, family_local_id, tenant_id },
                InsertAction::PrepareRow { product_family_id },
            ),
            Err(f) => (InsertState::Finished, InsertAction::Finish(Err(StoreError::Database(f)))),
        },
        (InsertState::AwaitingRow { .. }, InsertEvent::RowPrepared(r)) => match r {
            Ok(_) => (InsertState::AwaitingInsert, InsertAction::InsertRow),
            Err(f) => (InsertState::Finished, InsertAction::Finish(Err(StoreError::SerdeError(f)))),
        },
        (InsertState::AwaitingInsert, InsertEvent::RowInserted(r)) => match r {
            Ok(metric) => (
                InsertState::AwaitingMeter { metric },
                InsertAction::RegisterMeter { tenant_id: metric.tenant_id },
            ),
            Err(RowFailure::Insert(f)) => (
                InsertState::AwaitingRollback { error: StoreError::Database(f) },
                InsertAction::RollBack,
            ),
            Err(RowFailure::Conversion(f)) => (
                InsertState::AwaitingRollback { error: StoreError::Conversion(f) },
                InsertAction::RollBack,
            ),
        },
        (InsertState::AwaitingMeter { metric }, InsertEvent::MeterRegistered(r)) => match r {
            Ok(_) => (InsertState::AwaitingCommit { metric }, InsertAction::Commit),
            Err(f) => (
                InsertState::AwaitingRollback { error: StoreError::MeteringServiceError(f) },
                InsertAction::RollBack,
            ),
        },
        (InsertState::AwaitingCommit { metric }, InsertEvent::Committed(r)) => match r {
            Ok(_) => (
                InsertState::AwaitingPublish { metric },
                InsertAction::Publish(created_event(metric)),
            ),
            Err(f) => (InsertState::Finished, InsertAction::Finish(Err(StoreError::Database(f)))),
        },
        (InsertState::AwaitingRollback { error }, InsertEvent::RolledBack(r)) => match r {
            Ok(_) => (InsertState::Finished, InsertAction::Finish(Err(error))),
            Err(f) => (InsertState::Finished, InsertAction::Finish(Err(StoreError::Database(f)))),
        },
        (InsertState::AwaitingPublish { metric }, InsertEvent::Published(_)) => (
            InsertState::Finished,
            InsertAction::Finish(Ok(metric)),
        ),
        (s, _) => (s, InsertAction::Wait),
    }
}

/// The announcement of a newly inserted metric.
pub open spec fn created_event<M>(metric: InsertedMetric<M>) -> Event {
    Event {
        actor: Some(metric.created_by),
        tenant_id: Some(metric.tenant_id),
        data: crate::eventbus::EventData::BillableMetricCreated { billable_metric_id: metric.id },
    }
}

/// Where the insertion of a metric of the product family `family_local_id`
/// in `tenant_id` starts, and what it asks for first.
pub open spec fn insert_start<F, M>(family_local_id: String, tenant_id: u128) -> (
    InsertState<F, M>,
    InsertAction<F, M>,
) {
    (InsertState::AwaitingConnection { family_local_id, tenant_id }, InsertAction::AcquireConnection)
}

/// The insertion of a billable metric, step by step.
pub struct InsertFlow;

impl InsertFlow {
    /// Starts the insertion of the metric that `new` asks for, in the
    /// product family that it names by local id, in its tenant: first a
    /// connection is needed.
    pub fn start<S, F, M>(new: &BillableMetricNew<S>) -> (res: (InsertState<F, M>, InsertAction<F, M>))
        ensures
            res == insert_start::<F, M>(new.family_local_id, new.tenant_id),
    {
        (
            InsertState::AwaitingConnection {
                family_local_id: new.family_local_id.clone(),
                tenant_id: new.tenant_id,
            },
            InsertAction::AcquireConnection,
        )
    }

    /// The state and the action that follow `event` in `state`.
    pub fn step<F, M>(state: InsertState<F, M>, event: InsertEvent<F, M>) -> (res: (
        InsertState<F, M>,
        InsertAction<F, M>,
    ))
        ensures
            res == insert_transition(state, event),
    {
        match (state, event) {
            (
                InsertState::AwaitingConnection { family_local_id, tenant_id },
                InsertEvent::ConnectionAcquired(r),
            ) => match r {
                Ok(_) => {
                    let lookup_key = family_local_id.clone();
                    (
                        InsertState::AwaitingFamily { family_local_id, tenant_id },
                        InsertAction::FindFamily { family_local_id: lookup_key, tenant_id },
                    )
                },
                Err(f) => (InsertState::Finished, InsertAction::Finish(Err(StoreError::Database(f)))),
            },
            (
                InsertState::AwaitingFamily { family_local_id, tenant_id },
                InsertEvent::FamilyFound(r),
            ) => match r {
                Ok(product_family_id) => (
                    InsertState::AwaitingRow { product_family_id, family_local_id, tenant_id },
                    InsertAction::PrepareRow { product_family_id },
                ),
                Err(f) => (InsertState::Finished, InsertAction::Finish(Err(StoreError::Database(f)))),
            },
            (InsertState::AwaitingRow { .. }, InsertEvent::RowPrepared(r)) => match r {
                Ok(_) => (InsertState::AwaitingInsert, InsertAction::InsertRow),
                Err(f) => (
                    InsertState::Finished,
                    InsertAction::Finish(Err(StoreError::SerdeError(f))),
                ),
            },
            (InsertState::AwaitingInsert, InsertEvent::RowInserted(r)) => match r {
                Ok(metric) => {
                    let tenant_id = metric.tenant_id;
                    (InsertState::AwaitingMeter { metric }, InsertAction::RegisterMeter { tenant_id })
                },
                Err(RowFailure::Insert(f)) => (
                    InsertState::AwaitingRollback { error: StoreError::Database(f) },
                    InsertAction::RollBack,
                ),
                Err(RowFailure::Conversion(f)) => (
                    InsertState::AwaitingRollback { error: StoreError::Conversion(f) },
                    InsertAction::RollBack,
                ),
            },
            (InsertState::AwaitingMeter { metric }, InsertEvent::MeterRegistered(r)) => match r {
                Ok(_) => (InsertState::AwaitingCommit { metric }, InsertAction::Commit),
                Err(f) => (
                    InsertState::AwaitingRollback { error: StoreError::MeteringServiceError(f) },
                    InsertAction::RollBack,
                ),
            },
            (InsertState::AwaitingCommit { metric }, InsertEvent::Committed(r)) => match r {
                Ok(_) => {
                    let announcement = Event::billable_metric_created(
                        metric.created_by,
                        metric.id,
                        metric.tenant_id,
                    );
                    (InsertState::AwaitingPublish { metric }, InsertAction::Publish(announcement))
                },
                Err(f) => (InsertState::Finished, InsertAction::Finish(Err(StoreError::Database(f)))),
            },
            (InsertState::AwaitingRollback { error }, InsertEvent::RolledBack(r)) => match r {
                Ok(_) => (InsertState::Finished, InsertAction::Finish(Err(error))),
                Err(f) => (InsertState::Finished, InsertAction::Finish(Err(StoreError::Database(f)))),
            },
            (InsertState::AwaitingPublish { metric }, InsertEvent::Published(_)) => (
                InsertState::Finished,
                InsertAction::Finish(Ok(metric)),
            ),
            (s, _) => (s, InsertAction::Wait),
        }
    }
}

/// The state reached and the actions asked for when `events` come in, in
/// order, from `state`.
pub open spec fn run_insert<F, M>(state: InsertState<F, M>, events: Seq<InsertEvent<F, M>>) -> (
    InsertState<F, M>,
    Seq<InsertAction<F, M>>,
)
    decreases events.len(),
{
    if events.len() == 0 {
        (state, seq![])
    } else {
        let (next, action) = insert_transition(state, events[0]);
        let (last, actions) = run_insert(next, events.drop_first());
        (last, seq![action] + actions)
    }
}

/// The announcement is asked for only once the transaction is committed, and
/// it names the creator, the id and the tenant of the inserted metric.
pub proof fn publish_only_after_commit<F, M>(state: InsertState<F, M>, event: InsertEvent<F, M>)
    ensures
        insert_transition(state, event).1 matches InsertAction::Publish(announced) ==> (
        state matches InsertState::AwaitingCommit { metric } && event matches InsertEvent::Committed(
            Ok(_),
        ) && announced == created_event(metric)),
{
}

/// Whether the bus takes the announcement or not, the insertion ends with
/// the inserted metric.
pub proof fn publish_outcome_is_ignored<F, M>(metric: InsertedMetric<M>, outcome: Result<(), EventBusError>)
    ensures
        insert_transition(InsertState::<F, M>::AwaitingPublish { metric }, InsertEvent::Published(outcome))
            == (InsertState::<F, M>::Finished, InsertAction::<F, M>::Finish(Ok(metric))),
{
}

/// A finished insertion stays finished and asks for nothing more.
pub proof fn finished_is_final<F, M>(event: InsertEvent<F, M>)
    ensures
        insert_transition(InsertState::<F, M>::Finished, event) == (
            InsertState::<F, M>::Finished,
            InsertAction::<F, M>::Wait,
        ),
{
}

/// An insertion ends exactly when a step answers with its result.
pub proof fn finish_ends_the_insertion<F, M>(state: InsertState<F, M>, event: InsertEvent<F, M>)
    ensures
        insert_transition(state, event).1 is Finish <==> (insert_transition(state, event).0
            is Finished && !(state is Finished)),
{
}

/// An outcome that the current step does not wait for changes nothing.
pub proof fn unexpected_outcome_changes_nothing<F, M>(state: InsertState<F, M>, event: InsertEvent<F, M>)
    requires
        insert_transition(state, event).1 is Wait,
    ensures
        insert_transition(state, event).0 == state,
{
}

/// When every step succeeds, the insertion looks up the family, prepares,
/// inserts and registers the metric, commits, announces it, and ends with it.
pub proof fn successful_insertion<F, M>(
    family_local_id: String,
    tenant_id: u128,
    product_family_id: u128,
    metric: InsertedMetric<M>,
    published: Result<(), EventBusError>,
)
    ensures
        run_insert(
            InsertState::<F, M>::AwaitingConnection { family_local_id, tenant_id },
            seq![
                InsertEvent::<F, M>::ConnectionAcquired(Ok(())),
                InsertEvent::FamilyFound(Ok(product_family_id)),
                InsertEvent::RowPrepared(Ok(())),
                InsertEvent::RowInserted(Ok(metric)),
                InsertEvent::MeterRegistered(Ok(())),
                InsertEvent::Committed(Ok(())),
                InsertEvent::Published(published),
            ],
        ) == (
            InsertState::<F, M>::Finished,
            seq![
                InsertAction::<F, M>::FindFamily { family_local_id, tenant_id },
                InsertAction::PrepareRow { product_family_id },
                InsertAction::InsertRow,
                InsertAction::RegisterMeter { tenant_id: metric.tenant_id },
                InsertAction::Commit,
                InsertAction::Publish(created_event(metric)),
                InsertAction::Finish(Ok(metric)),
            ],
        ),
{
    reveal_with_fuel(run_insert, 8);
    let events = seq![
        InsertEvent::<F, M>::ConnectionAcquired(Ok(())),
        InsertEvent::FamilyFound(Ok(product_family_id)),
        InsertEvent::RowPrepared(Ok(())),
        InsertEvent::RowInserted(Ok(metric)),
        InsertEvent::MeterRegistered(Ok(())),
        InsertEvent::Committed(Ok(())),
        InsertEvent::Published(published),
    ];
    assert(events.drop_first() =~= events.subrange(1, 7));
    assert(events.subrange(1, 7).drop_first() =~= events.subrange(2, 7));
    assert(events.subrange(2, 7).drop_first() =~= events.subrange(3, 7));
    assert(events.subrange(3, 7).drop_first() =~= events.subrange(4, 7));
    assert(events.subrange(4, 7).drop_first() =~= events.subrange(5, 7));
    assert(events.subrange(5, 7).drop_first() =~= events.subrange(6, 7));
    assert(events.subrange(6, 7).drop_first() =~= Seq::<InsertEvent<F, M>>::empty());
    assert(run_insert(InsertState::<F, M>::Finished, Seq::<InsertEvent<F, M>>::empty()).1 =~= seq![]);
    let tail = run_insert(InsertState::<F, M>::AwaitingPublish { metric }, events.subrange(6, 7));
    assert(tail.1 =~= seq![InsertAction::<F, M>::Finish(Ok(metric))]);
    let t5 = run_insert(InsertState::<F, M>::AwaitingCommit { metric }, events.subrange(5, 7));
    assert(t5.1 =~= seq![InsertAction::<F, M>::Publish(created_event(metric)), InsertAction::Finish(Ok(metric))]);
    let t4 = run_insert(InsertState::<F, M>::AwaitingMeter { metric }, events.subrange(4, 7));
    assert(t4.1 =~= seq![InsertAction::<F, M>::Commit, InsertAction::Publish(created_event(metric)), InsertAction::Finish(Ok(metric))]);
    let t3 = run_insert(InsertState::<F, M>::AwaitingInsert, events.subrange(3, 7));
    assert(t3.1 =~= seq![
        InsertAction::<F, M>::RegisterMeter { tenant_id: metric.tenant_id },
        InsertAction::Commit,
        InsertAction::Publish(created_event(metric)),
        InsertAction::Finish(Ok(metric)),
    ]);
    let t2 = run_insert(
        InsertState::<F, M>::AwaitingRow { product_family_id, family_local_id, tenant_id },
        events.subrange(2, 7),
    );
    assert(t2.1 =~= seq![
        InsertAction::<F, M>::InsertRow,
        InsertAction::RegisterMeter { tenant_id: metric.tenant_id },
        InsertAction::Commit,
        InsertAction::Publish(created_event(metric)),
        InsertAction::Finish(Ok(metric)),
    ]);
    let t1 = run_insert(
        InsertState::<F, M>::AwaitingFamily { family_local_id, tenant_id },
        events.subrange(1, 7),
    );
    assert(t1.1 =~= seq![
        InsertAction::<F, M>::PrepareRow { product_family_id },
        InsertAction::InsertRow,
        InsertAction::RegisterMeter { tenant_id: metric.tenant_id },
        InsertAction::Commit,
        InsertAction::Publish(created_event(metric)),
        InsertAction::Finish(Ok(metric)),
    ]);
}

/// When the metering service refuses the metric, the transaction is rolled
/// back, nothing is announced, and the insertion fails with the metering
/// error.
pub proof fn refused_meter_rolls_back<F, M>(metric: InsertedMetric<M>, refusal: F)
    ensures
        run_insert(
            InsertState::<F, M>::AwaitingMeter { metric },
            seq![InsertEvent::<F, M>::MeterRegistered(Err(refusal)), InsertEvent::RolledBack(Ok(()))],
        ) == (
            InsertState::<F, M>::Finished,
            seq![
                InsertAction::<F, M>::RollBack,
                InsertAction::Finish(Err(StoreError::MeteringServiceError(refusal))),
            ],
        ),
{
    reveal_with_fuel(run_insert, 3);
    let events = seq![InsertEvent::<F, M>::MeterRegistered(Err(refusal)), InsertEvent::RolledBack(Ok(()))];
    assert(events.drop_first() =~= seq![InsertEvent::<F, M>::RolledBack(Ok(()))]);
    assert(seq![InsertEvent::<F, M>::RolledBack(Ok(()))].drop_first() =~= Seq::<InsertEvent<F, M>>::empty());
    let t1 = run_insert(
        InsertState::<F, M>::AwaitingRollback { error: StoreError::MeteringServiceError(refusal) },
        seq![InsertEvent::<F, M>::RolledBack(Ok(()))],
    );
    assert(t1.1 =~= seq![InsertAction::<F, M>::Finish(Err(StoreError::MeteringServiceError(refusal)))]);
}

/// The family is looked up by the request's local id within the request's
/// tenant, and once it is found the insertion waits for the row of that same
/// request, in the family found.
pub proof fn lookup_follows_request<S, F, M>(new: BillableMetricNew<S>, product_family_id: u128)
    ensures
        run_insert(
            insert_start::<F, M>(new.family_local_id, new.tenant_id).0,
            seq![
                InsertEvent::<F, M>::ConnectionAcquired(Ok(())),
                InsertEvent::FamilyFound(Ok(product_family_id)),
            ],
        ) == (
            InsertState::<F, M>::AwaitingRow {
                product_family_id,
                family_local_id: new.family_local_id,
                tenant_id: new.tenant_id,
            },
            seq![
                InsertAction::<F, M>::FindFamily {
                    family_local_id: new.family_local_id,
                    tenant_id: new.tenant_id,
                },
                InsertAction::PrepareRow { product_family_id },
            ],
        ),
{
    reveal_with_fuel(run_insert, 3);
    let events = seq![
        InsertEvent::<F, M>::ConnectionAcquired(Ok(())),
        InsertEvent::FamilyFound(Ok(product_family_id)),
    ];
    assert(events.drop_first() =~= seq![InsertEvent::<F, M>::FamilyFound(Ok(product_family_id))]);
    assert(seq![InsertEvent::<F, M>::FamilyFound(Ok(product_family_id))].drop_first()
        =~= Seq::<InsertEvent<F, M>>::empty());
    let t1 = run_insert(
        InsertState::<F, M>::AwaitingFamily {
            family_local_id: new.family_local_id,
            tenant_id: new.tenant_id,
        },
        seq![InsertEvent::<F, M>::FamilyFound(Ok(product_family_id))],
    );
    assert(t1.1 =~= seq![InsertAction::<F, M>::PrepareRow { product_family_id }]);
}

/// Every field of the row of a request is the request's own, apart from the
/// ids, which are the fresh ones, the product family, which is the one found,
/// and the segmentation matrix, which is the request's in serialized form.
pub proof fn row_copies_request<J, F>(
    new: BillableMetricNew<Result<J, F>>,
    product_family_id: u128,
    id: u128,
    local_id: String,
)
    ensures
        ({
            let row = row_of(new, product_family_id, id, local_id);
            &&& row.id == id
            &&& row.local_id == local_id
            &&& row.product_family_id == product_family_id
            &&& row.name == new.name
            &&& row.description == new.description
            &&& row.code == new.code
            &&& row.aggregation_type == new.aggregation_type
            &&& row.aggregation_key == new.aggregation_key
            &&& row.unit_conversion_factor == new.unit_conversion_factor
            &&& row.unit_conversion_rounding == new.unit_conversion_rounding
            &&& row.usage_group_key == new.usage_group_key
            &&& row.created_by == new.created_by
            &&& row.tenant_id == new.tenant_id
            &&& row.product_id == new.product_id
            &&& new.segmentation_matrix matches Some(Ok(j)) ==> row.segmentation_matrix == Some(j)
            &&& new.segmentation_matrix is None ==> row.segmentation_matrix is None
        }),
{
}

/// A row insert that the database refuses rolls the transaction back and,
/// once rolled back, ends the insertion with that database failure; a row
/// that cannot be read back ends it with a conversion failure. Nothing is
/// announced either way.
pub proof fn refused_insert_rolls_back<F, M>(failure: F)
    ensures
        run_insert(
            InsertState::<F, M>::AwaitingInsert,
            seq![
                InsertEvent::<F, M>::RowInserted(Err(RowFailure::Insert(failure))),
                InsertEvent::RolledBack(Ok(())),
            ],
        ) == (
            InsertState::<F, M>::Finished,
            seq![
                InsertAction::<F, M>::RollBack,
                InsertAction::Finish(Err(StoreError::Database(failure))),
            ],
        ),
        run_insert(
            InsertState::<F, M>::AwaitingInsert,
            seq![
                InsertEvent::<F, M>::RowInserted(Err(RowFailure::Conversion(failure))),
                InsertEvent::RolledBack(Ok(())),
            ],
        ) == (
            InsertState::<F, M>::Finished,
            seq![
                InsertAction::<F, M>::RollBack,
                InsertAction::Finish(Err(StoreError::Conversion(failure))),
            ],
        ),
{
    reveal_with_fuel(run_insert, 3);
    let tail = seq![InsertEvent::<F, M>::RolledBack(Ok(()))];
    assert(tail.drop_first() =~= Seq::<InsertEvent<F, M>>::empty());
    let e1 = seq![InsertEvent::<F, M>::RowInserted(Err(RowFailure::Insert(failure))), InsertEvent::RolledBack(Ok(()))];
    let e2 = seq![InsertEvent::<F, M>::RowInserted(Err(RowFailure::Conversion(failure))), InsertEvent::RolledBack(Ok(()))];
    assert(e1.drop_first() =~= tail);
    assert(e2.drop_first() =~= tail);
    let t1 = run_insert(InsertState::<F, M>::AwaitingRollback { error: StoreError::Database(failure) }, tail);
    assert(t1.1 =~= seq![InsertAction::<F, M>::Finish(Err(StoreError::Database(failure)))]);
    let t2 = run_insert(InsertState::<F, M>::AwaitingRollback { error: StoreError::Conversion(failure) }, tail);
    assert(t2.1 =~= seq![InsertAction::<F, M>::Finish(Err(StoreError::Conversion(failure)))]);
}

/// Whatever the current step, a failure ends the insertion with the error
/// that names its source: the database for the connection, the lookup, the
/// insert, the commit and the rollback; the serializer for the row; the
/// metering service for the meter.
pub proof fn failures_keep_their_source<F, M>(state: InsertState<F, M>, failure: F)
    ensures
        state is AwaitingConnection ==> insert_transition(
            state,
            InsertEvent::<F, M>::ConnectionAcquired(Err(failure)),
        ).1 == InsertAction::<F, M>::Finish(Err(StoreError::Database(failure))),
        state is AwaitingFamily ==> insert_transition(
            state,
            InsertEvent::<F, M>::FamilyFound(Err(failure)),
        ).1 == InsertAction::<F, M>::Finish(Err(StoreError::Database(failure))),
        state is AwaitingRow ==> insert_transition(
            state,
            InsertEvent::<F, M>::RowPrepared(Err(failure)),
        ).1 == InsertAction::<F, M>::Finish(Err(StoreError::SerdeError(failure))),
        state is AwaitingInsert ==> insert_transition(
            state,
            InsertEvent::<F, M>::RowInserted(Err(RowFailure::Insert(failure))),
        ).0 == (InsertState::<F, M>::AwaitingRollback { error: StoreError::Database(failure) }),
        state is AwaitingInsert ==> insert_transition(
            state,
            InsertEvent::<F, M>::RowInserted(Err(RowFailure::Conversion(failure))),
        ).0 == (InsertState::<F, M>::AwaitingRollback { error: StoreError::Conversion(failure) }),
        state is AwaitingMeter ==> insert_transition(
            state,
            InsertEvent::<F, M>::MeterRegistered(Err(failure)),
        ).0 == (InsertState::<F, M>::AwaitingRollback {
            error: StoreError::MeteringServiceError(failure),
        }),
        state is AwaitingCommit ==> insert_transition(
            state,
            InsertEvent::<F, M>::Committed(Err(failure)),
        ).1 == InsertAction::<F, M>::Finish(Err(StoreError::Database(failure))),
        state is AwaitingRollback ==> insert_transition(
            state,
            InsertEvent::<F, M>::RolledBack(Err(failure)),
        ).1 == InsertAction::<F, M>::Finish(Err(StoreError::Database(failure))),
{
}

/// The announcement of an inserted metric names its creator as the actor,
/// its tenant, and its id.
pub proof fn announcement_names_the_metric<F, M>(metric: InsertedMetric<M>)
    ensures
        insert_transition(
            InsertState::<F, M>::AwaitingCommit { metric },
            InsertEvent::<F, M>::Committed(Ok(())),
        ).1 matches InsertAction::Publish(announced) && announced.actor == Some(metric.created_by)
            && announced.tenant_id == Some(metric.tenant_id) && announced.data == (
        crate::eventbus::EventData::BillableMetricCreated { billable_metric_id: metric.id }),
        insert_transition(
            InsertState::<F, M>::AwaitingInsert,
            InsertEvent::<F, M>::RowInserted(Ok(metric)),
        ) == (InsertState::<F, M>::AwaitingMeter { metric }, InsertAction::<F, M>::RegisterMeter {
            tenant_id: metric.tenant_id,
        }),
{
}

} // verus!
