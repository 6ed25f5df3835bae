use marketplace::models::product::{ProductDetails, ProductReturn};
use marketplace::models::user::{AuthUser, MinUserReturnDto, UserRecord};
use marketplace::services::product_service::{
    advance, check_update, read_product, Outcome, Pending, ProductService, ProductServiceError,
    Progress,
};
use marketplace::store::{NewProduct, ProductRecord, StoreReply, StoreRequest};
use sea_orm::prelude::Decimal;
use sea_orm::DbErr;

fn details() -> ProductDetails {
    ProductDetails {
        description: "Barely used road bike".to_string(),
        title: "Road bike".to_string(),
        price: Decimal::new(34950, 2),
        country: "DE".to_string(),
        state: "Bavaria".to_string(),
        city: "Munich".to_string(),
        zip: "80331".to_string(),
        latitude: Some(Decimal::new(481351, 4)),
        longitude: None,
    }
}

fn other_details() -> ProductDetails {
    ProductDetails {
        description: "Now with lights".to_string(),
        title: "Road bike, serviced".to_string(),
        price: Decimal::new(399, 0),
        country: "AT".to_string(),
        state: "Tyrol".to_string(),
        city: "Innsbruck".to_string(),
        zip: "6020".to_string(),
        latitude: None,
        longitude: Some(Decimal::new(113933, 4)),
    }
}

fn alice() -> AuthUser {
    AuthUser { user: UserRecord { id: 3, username: "alice".to_string() } }
}

fn bob() -> AuthUser {
    AuthUser { user: UserRecord { id: 4, username: "bob".to_string() } }
}

fn stored_bike() -> ProductRecord {
    ProductRecord {
        id: 11,
        created_by: 3,
        product_title: "Road bike".to_string(),
        description: "Barely used road bike".to_string(),
        price: Decimal::new(34950, 2),
        location_country: "DE".to_string(),
        location_state: "Bavaria".to_string(),
        location_city: "Munich".to_string(),
        location_zip: "80331".to_string(),
        location_latitude: Some(Decimal::new(481351, 4)),
        location_longitude: None,
    }
}

fn failure(reason: &str) -> DbErr {
    DbErr::Custom(reason.to_string())
}

#[test]
fn new_service_is_idle() {
    assert_eq!(ProductService::new().pending, Pending::Idle);
}

#[test]
fn create_maps_every_detail_to_its_column() {
    let mut service = ProductService::new();
    let request = service.create_new_product(details(), alice());
    assert_eq!(
        request,
        StoreRequest::InsertProduct(NewProduct {
            created_by: 3,
            product_title: "Road bike".to_string(),
            description: "Barely used road bike".to_string(),
            price: Decimal::new(34950, 2),
            location_country: "DE".to_string(),
            location_state: "Bavaria".to_string(),
            location_city: "Munich".to_string(),
            location_zip: "80331".to_string(),
            location_latitude: Some(Decimal::new(481351, 4)),
            location_longitude: None,
        })
    );
    assert_eq!(service.pending, Pending::Create);
}

#[test]
fn create_returns_the_id_that_the_store_assigned() {
    let mut service = ProductService::new();
    service.create_new_product(details(), alice());
    let progress = service.resume(StoreReply::Inserted(stored_bike()));
    assert_eq!(progress, Progress::Done(Outcome::Created(11)));
    assert_eq!(service.pending, Pending::Idle);
}

#[test]
fn create_reports_a_store_failure() {
    let mut service = ProductService::new();
    service.create_new_product(details(), alice());
    let progress = service.resume(StoreReply::Failed(failure("insert refused")));
    assert_eq!(
        progress,
        Progress::Done(Outcome::Failed(ProductServiceError::OrmError(failure("insert refused"))))
    );
    assert_eq!(service.pending, Pending::Idle);
}

#[test]
fn get_asks_for_the_product_with_its_owner() {
    let mut service = ProductService::new();
    assert_eq!(service.get_product_by_id(11), StoreRequest::FindProductWithOwner(11));
    assert_eq!(service.pending, Pending::Get { id: 11 });
}

#[test]
fn get_returns_the_listing_with_its_owner() {
    let mut service = ProductService::new();
    service.get_product_by_id(11);
    let progress =
        service.resume(StoreReply::ProductWithOwner(Some((stored_bike(), Some(alice().user)))));
    assert_eq!(
        progress,
        Progress::Done(Outcome::Found(ProductReturn {
            title: "Road bike".to_string(),
            description: "Barely used road bike".to_string(),
            price: Decimal::new(34950, 2),
            created_by: MinUserReturnDto { id: 3, username: "alice".to_string() },
        }))
    );
}

#[test]
fn get_of_a_missing_product_is_not_found() {
    let mut service = ProductService::new();
    service.get_product_by_id(99);
    assert_eq!(
        service.resume(StoreReply::ProductWithOwner(None)),
        Progress::Done(Outcome::Failed(ProductServiceError::NotFound(99)))
    );
}

#[test]
fn get_of_a_product_without_owner_is_unknown() {
    let mut service = ProductService::new();
    service.get_product_by_id(11);
    assert_eq!(
        service.resume(StoreReply::ProductWithOwner(Some((stored_bike(), None)))),
        Progress::Done(Outcome::Failed(ProductServiceError::Unknown))
    );
}

#[test]
fn get_reports_a_store_failure() {
    let mut service = ProductService::new();
    service.get_product_by_id(11);
    assert_eq!(
        service.resume(StoreReply::Failed(failure("timeout"))),
        Progress::Done(Outcome::Failed(ProductServiceError::OrmError(failure("timeout"))))
    );
}

#[test]
fn read_product_covers_the_three_answers() {
    assert_eq!(read_product(5, None), Err(ProductServiceError::NotFound(5)));
    assert_eq!(read_product(11, Some((stored_bike(), None))), Err(ProductServiceError::Unknown));
    assert_eq!(
        read_product(11, Some((stored_bike(), Some(bob().user)))),
        Ok(ProductReturn {
            title: "Road bike".to_string(),
            description: "Barely used road bike".to_string(),
            price: Decimal::new(34950, 2),
            created_by: MinUserReturnDto { id: 4, username: "bob".to_string() },
        })
    );
}

#[test]
fn update_by_the_owner_fetches_then_overwrites() {
    let mut service = ProductService::new();
    let first = service.update_product_by_id(11, other_details(), alice());
    assert_eq!(first, StoreRequest::FindProductWithOwner(11));

    let second =
        service.resume(StoreReply::ProductWithOwner(Some((stored_bike(), Some(alice().user)))));
    assert_eq!(second, Progress::Ask(StoreRequest::FindProduct(11)));

    let third = service.resume(StoreReply::Product(Some(stored_bike())));
    assert_eq!(
        third,
        Progress::Ask(StoreRequest::UpdateProduct(ProductRecord {
            id: 11,
            created_by: 3,
            product_title: "Road bike, serviced".to_string(),
            description: "Now with lights".to_string(),
            price: Decimal::new(399, 0),
            location_country: "AT".to_string(),
            location_state: "Tyrol".to_string(),
            location_city: "Innsbruck".to_string(),
            location_zip: "6020".to_string(),
            location_latitude: None,
            location_longitude: Some(Decimal::new(113933, 4)),
        }))
    );
    assert_eq!(service.pending, Pending::UpdateWrite);

    assert_eq!(service.resume(StoreReply::Updated), Progress::Done(Outcome::Updated));
    assert_eq!(service.pending, Pending::Idle);
}

#[test]
fn update_by_another_user_is_not_allowed_and_asks_for_nothing_more() {
    let mut service = ProductService::new();
    service.update_product_by_id(11, other_details(), bob());
    let progress =
        service.resume(StoreReply::ProductWithOwner(Some((stored_bike(), Some(alice().user)))));
    assert_eq!(progress, Progress::Done(Outcome::Failed(ProductServiceError::NotAllowed)));
    assert_eq!(service.pending, Pending::Idle);
}

#[test]
fn update_of_a_missing_product_is_not_found() {
    let mut service = ProductService::new();
    service.update_product_by_id(50, other_details(), alice());
    assert_eq!(
        service.resume(StoreReply::ProductWithOwner(None)),
        Progress::Done(Outcome::Failed(ProductServiceError::NotFound(50)))
    );
}

#[test]
fn update_of_a_product_without_owner_is_unknown() {
    let mut service = ProductService::new();
    service.update_product_by_id(11, other_details(), alice());
    assert_eq!(
        service.resume(StoreReply::ProductWithOwner(Some((stored_bike(), None)))),
        Progress::Done(Outcome::Failed(ProductServiceError::Unknown))
    );
}

#[test]
fn update_of_a_product_that_vanished_is_not_found() {
    let mut service = ProductService::new();
    service.update_product_by_id(11, other_details(), alice());
    service.resume(StoreReply::ProductWithOwner(Some((stored_bike(), Some(alice().user)))));
    assert_eq!(
        service.resume(StoreReply::Product(None)),
        Progress::Done(Outcome::Failed(ProductServiceError::NotFound(11)))
    );
}

#[test]
fn update_reports_a_store_failure_at_every_step() {
    let mut service = ProductService::new();
    service.update_product_by_id(11, other_details(), alice());
    assert_eq!(
        service.resume(StoreReply::Failed(failure("first"))),
        Progress::Done(Outcome::Failed(ProductServiceError::OrmError(failure("first"))))
    );

    service.update_product_by_id(11, other_details(), alice());
    service.resume(StoreReply::ProductWithOwner(Some((stored_bike(), Some(alice().user)))));
    assert_eq!(
        service.resume(StoreReply::Failed(failure("second"))),
        Progress::Done(Outcome::Failed(ProductServiceError::OrmError(failure("second"))))
    );

    service.update_product_by_id(11, other_details(), alice());
    service.resume(StoreReply::ProductWithOwner(Some((stored_bike(), Some(alice().user)))));
    service.resume(StoreReply::Product(Some(stored_bike())));
    assert_eq!(
        service.resume(StoreReply::Failed(failure("third"))),
        Progress::Done(Outcome::Failed(ProductServiceError::OrmError(failure("third"))))
    );
}

#[test]
fn update_compares_the_caller_with_the_creator_of_the_row() {
    let mut service = ProductService::new();
    service.update_product_by_id(11, other_details(), bob());
    let progress =
        service.resume(StoreReply::ProductWithOwner(Some((stored_bike(), Some(bob().user)))));
    assert_eq!(progress, Progress::Done(Outcome::Failed(ProductServiceError::NotAllowed)));
    assert_eq!(service.pending, Pending::Idle);
}

#[test]
fn update_of_an_orphaned_product_by_another_user_is_not_allowed() {
    let mut service = ProductService::new();
    service.update_product_by_id(11, other_details(), bob());
    let progress = service.resume(StoreReply::ProductWithOwner(Some((stored_bike(), None))));
    assert_eq!(progress, Progress::Done(Outcome::Failed(ProductServiceError::NotAllowed)));
    assert_eq!(service.pending, Pending::Idle);
}

#[test]
fn check_update_covers_the_four_answers() {
    assert_eq!(check_update(5, 3, None), Err(ProductServiceError::NotFound(5)));
    assert_eq!(
        check_update(11, 4, Some((stored_bike(), Some(alice().user)))),
        Err(ProductServiceError::NotAllowed)
    );
    assert_eq!(
        check_update(11, 4, Some((stored_bike(), None))),
        Err(ProductServiceError::NotAllowed)
    );
    assert_eq!(check_update(11, 3, Some((stored_bike(), None))), Err(ProductServiceError::Unknown));
    assert_eq!(check_update(11, 3, Some((stored_bike(), Some(alice().user)))), Ok(()));
}

#[test]
fn delete_by_the_owner_fetches_then_deletes() {
    let mut service = ProductService::new();
    assert_eq!(service.delete_product_by_id(11, alice()), StoreRequest::FindProduct(11));
    assert_eq!(service.pending, Pending::DeleteFetch { id: 11, user_id: 3 });
    assert_eq!(
        service.resume(StoreReply::Product(Some(stored_bike()))),
        Progress::Ask(StoreRequest::DeleteProduct(11))
    );
    assert_eq!(service.resume(StoreReply::Deleted), Progress::Done(Outcome::Deleted));
    assert_eq!(service.pending, Pending::Idle);
}

#[test]
fn delete_by_another_user_is_not_allowed_and_asks_for_nothing_more() {
    let mut service = ProductService::new();
    service.delete_product_by_id(11, bob());
    assert_eq!(
        service.resume(StoreReply::Product(Some(stored_bike()))),
        Progress::Done(Outcome::Failed(ProductServiceError::NotAllowed))
    );
    assert_eq!(service.pending, Pending::Idle);
}

#[test]
fn delete_of_a_missing_product_is_not_found() {
    let mut service = ProductService::new();
    service.delete_product_by_id(77, alice());
    assert_eq!(
        service.resume(StoreReply::Product(None)),
        Progress::Done(Outcome::Failed(ProductServiceError::NotFound(77)))
    );
}

#[test]
fn delete_reports_a_store_failure_at_every_step() {
    let mut service = ProductService::new();
    service.delete_product_by_id(11, alice());
    assert_eq!(
        service.resume(StoreReply::Failed(failure("select"))),
        Progress::Done(Outcome::Failed(ProductServiceError::OrmError(failure("select"))))
    );

    service.delete_product_by_id(11, alice());
    service.resume(StoreReply::Product(Some(stored_bike())));
    assert_eq!(
        service.resume(StoreReply::Failed(failure("delete"))),
        Progress::Done(Outcome::Failed(ProductServiceError::OrmError(failure("delete"))))
    );
}

#[test]
fn reply_without_a_request_is_unknown() {
    let mut service = ProductService::new();
    assert_eq!(
        service.resume(StoreReply::Updated),
        Progress::Done(Outcome::Failed(ProductServiceError::Unknown))
    );
    assert_eq!(
        service.resume(StoreReply::Failed(failure("stray"))),
        Progress::Done(Outcome::Failed(ProductServiceError::Unknown))
    );
}

#[test]
fn reply_of_the_wrong_kind_is_unknown() {
    let mut service = ProductService::new();
    service.create_new_product(details(), alice());
    assert_eq!(
        service.resume(StoreReply::Deleted),
        Progress::Done(Outcome::Failed(ProductServiceError::Unknown))
    );
    assert_eq!(service.pending, Pending::Idle);

    service.get_product_by_id(11);
    assert_eq!(
        service.resume(StoreReply::Product(Some(stored_bike()))),
        Progress::Done(Outcome::Failed(ProductServiceError::Unknown))
    );

    service.delete_product_by_id(11, alice());
    assert_eq!(
        service.resume(StoreReply::Inserted(stored_bike())),
        Progress::Done(Outcome::Failed(ProductServiceError::Unknown))
    );
}

#[test]
fn advance_is_the_transition_behind_resume() {
    let (next, progress) =
        advance(Pending::DeleteFetch { id: 11, user_id: 3 }, StoreReply::Product(Some(stored_bike())));
    assert_eq!(next, Pending::DeleteWrite);
    assert_eq!(progress, Progress::Ask(StoreRequest::DeleteProduct(11)));

    let (next, progress) = advance(
        Pending::UpdateFetch { id: 11, changes: other_details() },
        StoreReply::Product(None),
    );
    assert_eq!(next, Pending::Idle);
    assert_eq!(progress, Progress::Done(Outcome::Failed(ProductServiceError::NotFound(11))));
}

#[test]
fn a_new_operation_replaces_one_that_was_left_unfinished() {
    let mut service = ProductService::new();
    service.update_product_by_id(11, other_details(), alice());
    service.get_product_by_id(12);
    assert_eq!(service.pending, Pending::Get { id: 12 });
    assert_eq!(
        service.resume(StoreReply::ProductWithOwner(None)),
        Progress::Done(Outcome::Failed(ProductServiceError::NotFound(12)))
    );
}

#[test]
fn request_without_a_connection_is_an_internal_failure() {
    let guard = ProductService::from_request(Err(marketplace::db::DbError::MissingUrl));
    assert_eq!(
        guard,
        Err((500, ProductServiceError::DbError(marketplace::db::DbError::MissingUrl)))
    );
    let guard = ProductService::from_request(Err(marketplace::db::DbError::Connection(
        failure("refused"),
    )));
    assert_eq!(
        guard,
        Err((
            500,
            ProductServiceError::DbError(marketplace::db::DbError::Connection(failure("refused")))
        ))
    );
}

#[test]
fn request_with_a_connection_gets_an_idle_service() {
    assert_eq!(ProductService::from_request(Ok(())), Ok(ProductService::new()));
}

#[test]
fn outcome_of_a_create_is_the_id_or_the_error() {
    assert_eq!(Outcome::Created(8).into_created(), Ok(8));
    assert_eq!(
        Outcome::Failed(ProductServiceError::OrmError(failure("x"))).into_created(),
        Err(ProductServiceError::OrmError(failure("x")))
    );
    assert_eq!(Outcome::Deleted.into_created(), Err(ProductServiceError::Unknown));
}

#[test]
fn outcome_of_a_read_is_the_listing_or_the_error() {
    let listing = ProductReturn {
        title: "Road bike".to_string(),
        description: "Barely used road bike".to_string(),
        price: Decimal::new(34950, 2),
        created_by: MinUserReturnDto { id: 3, username: "alice".to_string() },
    };
    assert_eq!(Outcome::Found(listing.clone()).into_found(), Ok(listing));
    assert_eq!(
        Outcome::Failed(ProductServiceError::NotFound(2)).into_found(),
        Err(ProductServiceError::NotFound(2))
    );
    assert_eq!(Outcome::Created(1).into_found(), Err(ProductServiceError::Unknown));
}

#[test]
fn outcome_of_an_update_or_a_delete_is_empty_or_the_error() {
    assert_eq!(Outcome::Updated.into_updated(), Ok(()));
    assert_eq!(Outcome::Deleted.into_deleted(), Ok(()));
    assert_eq!(
        Outcome::Failed(ProductServiceError::NotAllowed).into_updated(),
        Err(ProductServiceError::NotAllowed)
    );
    assert_eq!(
        Outcome::Failed(ProductServiceError::NotAllowed).into_deleted(),
        Err(ProductServiceError::NotAllowed)
    );
    assert_eq!(Outcome::Deleted.into_updated(), Err(ProductServiceError::Unknown));
    assert_eq!(Outcome::Updated.into_deleted(), Err(ProductServiceError::Unknown));
}
