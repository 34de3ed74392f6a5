//! The decisions of the product-family REST handlers: what each asks of the
//! store, and how each answers with what the store gave back.

use vstd::prelude::*;
use crate::pagination::PaginatedVec;

verus! {

/// A product family named by its id or by an alias.
#[derive(Debug, PartialEq, Eq)]
pub enum AliasOr {
    Id(u128),
    Alias(String),
}

/// The errors that the handlers decide themselves.
#[derive(Debug, PartialEq, Eq, Structural)]
pub enum RestApiError {
    /// The store failed while listing.
    StoreError,
}

/// The order in which a listing is asked for.
#[derive(Debug, PartialEq, Eq, Structural)]
pub enum OrderByRequest {
    IdAsc,
}

/// The body of a listing response: the page and the number of results in all.
#[derive(Debug)]
pub struct PaginatedResponse<T> {
    pub data: Vec<T>,
    pub total: u64,
}

/// What the listing handler asks the store for.
#[derive(Debug)]
pub struct ListProductFamilies<P> {
    pub tenant_id: u128,
    pub pagination: P,
    pub order_by: OrderByRequest,
    pub search: Option<String>,
}

/// The HTTP status of a successful creation.
pub const CREATED: u16 = 201;

/// The store query of a listing: the caller's tenant, the requested page,
/// ascending ids, and the search text.
pub fn list_product_families_query<P>(tenant_id: u128, pagination: P, search: Option<String>) -> (res:
    ListProductFamilies<P>)
    ensures
        res.tenant_id == tenant_id,
        res.pagination == pagination,
        res.order_by == OrderByRequest::IdAsc,
        res.search == search,
{
    ListProductFamilies { tenant_id, pagination, order_by: OrderByRequest::IdAsc, search }
}

/// The answer to a listing: the page and the total number of results, or a
/// store error whatever the store reported.
pub fn list_product_families_response<T, E>(listed: Result<PaginatedVec<T>, E>) -> (res: Result<
    PaginatedResponse<T>,
    RestApiError,
>)
    ensures
        listed is Err ==> res == Err::<PaginatedResponse<T>, RestApiError>(RestApiError::StoreError),
        listed matches Ok(page) ==> res matches Ok(body) && body.data@ == page.items@ && body.total
            == page.total_results,
{
    match listed {
        Ok(page) => Ok(PaginatedResponse { data: page.items, total: page.total_results }),
        Err(_) => Err(RestApiError::StoreError),
    }
}

/// The answer to a creation: the created family with status 201, or the
/// store's error as it came.
pub fn create_product_family_response<T, E>(created: Result<T, E>) -> (res: Result<(u16, T), E>)
    ensures
        created matches Ok(family) ==> res == Ok::<(u16, T), E>((CREATED, family)),
        created matches Err(e) ==> res == Err::<(u16, T), E>(e),
{
    match created {
        Ok(family) => Ok((CREATED, family)),
        Err(e) => Err(e),
    }
}

/// How the store is asked for one product family.
#[derive(Debug, PartialEq, Eq)]
pub enum ProductFamilyLookup {
    /// By its id, within the caller's tenant.
    ById(u128),
    /// By its alias, within the caller's tenant.
    ByAlias(String),
}

/// The store lookup for a product family named by id or by alias: an id is
/// looked up as an id and an alias as an alias.
pub fn product_family_lookup(id_or_alias: AliasOr) -> (res: ProductFamilyLookup)
    ensures
        id_or_alias matches AliasOr::Id(id) ==> res == ProductFamilyLookup::ById(id),
        id_or_alias matches AliasOr::Alias(alias) ==> res == ProductFamilyLookup::ByAlias(alias),
{
    match id_or_alias {
        AliasOr::Id(id) => ProductFamilyLookup::ById(id),
        AliasOr::Alias(alias) => ProductFamilyLookup::ByAlias(alias),
    }
}

/// The answer to a lookup of one product family: the family that the store
/// found, or the store's error as it came.
pub fn get_product_family_response<T, E>(found: Result<T, E>) -> (res: Result<T, E>)
    ensures
        found matches Ok(family) ==> res == Ok::<T, E>(family),
        found matches Err(e) ==> res == Err::<T, E>(e),
{
    match found {
        Ok(family) => Ok(family),
        Err(e) => Err(e),
    }
}

} // verus!
