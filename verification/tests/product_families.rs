use meteroid::pagination::PaginatedVec;
use meteroid::product_families::{
    create_product_family_response, get_product_family_response, list_product_families_query, list_product_families_response,
    product_family_lookup, AliasOr, OrderByRequest, ProductFamilyLookup, RestApiError, CREATED,
};

#[test]
fn listing_asks_for_ascending_ids() {
    let q = list_product_families_query(5, (0usize, 10usize), Some("abc".to_string()));
    assert_eq!(q.tenant_id, 5);
    assert_eq!(q.pagination, (0, 10));
    assert_eq!(q.order_by, OrderByRequest::IdAsc);
    assert_eq!(q.search, Some("abc".to_string()));
}

#[test]
fn listing_answers_with_page_and_total() {
    let page = PaginatedVec { items: vec!["a", "b"], total_pages: 4, total_results: 31 };
    let body = list_product_families_response::<_, ()>(Ok(page)).unwrap();
    assert_eq!(body.data, vec!["a", "b"]);
    assert_eq!(body.total, 31);
}

#[test]
fn listing_failure_is_a_store_error() {
    let res = list_product_families_response::<u8, &str>(Err("db down"));
    assert_eq!(res.unwrap_err(), RestApiError::StoreError);
}

#[test]
fn creation_answers_201() {
    assert_eq!(CREATED, 201);
    assert_eq!(create_product_family_response::<_, ()>(Ok("fam")), Ok((201, "fam")));
    assert_eq!(create_product_family_response::<&str, _>(Err("conflict")), Err("conflict"));
}

#[test]
fn ids_and_aliases_are_looked_up_as_such() {
    assert_eq!(product_family_lookup(AliasOr::Id(42)), ProductFamilyLookup::ById(42));
    assert_eq!(
        product_family_lookup(AliasOr::Alias("main".to_string())),
        ProductFamilyLookup::ByAlias("main".to_string())
    );
}

#[test]
fn lookup_answers_with_what_the_store_found() {
    assert_eq!(get_product_family_response::<_, ()>(Ok("fam")), Ok("fam"));
    assert_eq!(get_product_family_response::<&str, _>(Err("missing")), Err("missing"));
}
