use listshare_auth::endpoints::{
    numeric_identifier, patch_entry_plan, post_entry_on_membership, post_entry_start, require_access,
    require_row, user_lookup_for, user_lookup_plan, PatchColumn, PatchEntryFields, PostEntryAction,
    Refusal, UserLookup,
};
use listshare_auth::password::StoreFailure;

fn no_fields() -> PatchEntryFields {
    PatchEntryFields { product: false, amount: false, unit: false, note: false, bought: None }
}

#[test]
fn post_into_foreign_group_is_not_found() {
    assert_eq!(post_entry_start(Some(9)), PostEntryAction::CheckMembership(9));
    let action = post_entry_on_membership(Ok(false));
    assert_eq!(action, PostEntryAction::Refuse(Refusal::NotFound));
    assert_eq!(Refusal::NotFound.status(), 404);
}

#[test]
fn post_into_own_group_inserts() {
    assert_eq!(post_entry_on_membership(Ok(true)), PostEntryAction::Insert);
}

#[test]
fn post_without_group_inserts_at_once() {
    assert_eq!(post_entry_start(None), PostEntryAction::Insert);
}

#[test]
fn post_with_store_failure_is_internal_error() {
    assert_eq!(post_entry_on_membership(Err(StoreFailure)), PostEntryAction::Refuse(Refusal::Internal));
    assert_eq!(Refusal::Internal.status(), 500);
}

#[test]
fn access_checks_map_to_refusals() {
    assert_eq!(require_access(Ok(true)), Ok(()));
    assert_eq!(require_access(Ok(false)), Err(Refusal::NotFound));
    assert_eq!(require_access(Err(StoreFailure)), Err(Refusal::Internal));
}

#[test]
fn rows_map_to_refusals() {
    assert_eq!(require_row(Ok(Some(5u8))), Ok(5u8));
    assert_eq!(require_row::<u8>(Ok(None)), Err(Refusal::NotFound));
    assert_eq!(require_row::<u8>(Err(StoreFailure)), Err(Refusal::Internal));
}

#[test]
fn empty_patch_is_bad_request() {
    assert!(no_fields().is_empty());
    assert_eq!(patch_entry_plan(&no_fields()), Err(Refusal::BadRequest));
    assert_eq!(Refusal::BadRequest.status(), 400);
}

#[test]
fn patch_assigns_supplied_fields_in_order() {
    let fields = PatchEntryFields { product: true, amount: false, unit: true, note: true, bought: Some(true) };
    assert!(!fields.is_empty());
    assert_eq!(
        patch_entry_plan(&fields),
        Ok(vec![PatchColumn::Product, PatchColumn::Unit, PatchColumn::Note, PatchColumn::BoughtNow])
    );
    let fields = PatchEntryFields { amount: true, bought: Some(false), ..no_fields() };
    assert_eq!(patch_entry_plan(&fields), Ok(vec![PatchColumn::Amount, PatchColumn::BoughtClear]));
    let fields = PatchEntryFields { bought: Some(false), ..no_fields() };
    assert!(!fields.is_empty());
}

#[test]
fn numeric_identifiers() {
    assert_eq!(numeric_identifier("42"), Some(42));
    assert_eq!(numeric_identifier("-7"), Some(-7));
    assert_eq!(numeric_identifier("+5"), Some(5));
    assert_eq!(numeric_identifier("007"), Some(7));
    assert_eq!(numeric_identifier("9223372036854775807"), Some(i64::MAX));
    assert_eq!(numeric_identifier("-9223372036854775808"), Some(i64::MIN));
    assert_eq!(numeric_identifier("9223372036854775808"), None);
    assert_eq!(numeric_identifier(""), None);
    assert_eq!(numeric_identifier("-"), None);
    assert_eq!(numeric_identifier("alice"), None);
    assert_eq!(numeric_identifier("12a"), None);
    assert_eq!(numeric_identifier(" 1"), None);
}

#[test]
fn user_lookup_only_reaches_own_user() {
    assert_eq!(user_lookup_plan(3, "4"), UserLookup::NotFound);
    assert_eq!(user_lookup_plan(3, "3"), UserLookup::Query(Some(3)));
    assert_eq!(user_lookup_plan(3, "alice"), UserLookup::Query(None));
    assert_eq!(user_lookup_for(3, Some(8)), UserLookup::NotFound);
    assert_eq!(user_lookup_for(3, None), UserLookup::Query(None));
}
