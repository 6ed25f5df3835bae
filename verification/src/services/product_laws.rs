//! What the product service achieves when it is driven against a store
//! that behaves as the tables of the schema do.

use crate::models::product::{ProductDetails, ProductReturn};
use crate::models::user::{AuthUser, MinUserReturnDto};
use crate::services::product_service::{
    begin, overwritten, step, Operation, Outcome, Pending, ProductServiceError, Progress,
};
use crate::store::{StoreReply, StoreRequest, Tables};
use vstd::prelude::*;

verus! {

/// Executes `request` on `tables`, resumes the service with the answer, and
/// goes on like that until the operation is over. Returns how it ended and
/// what the store holds then. `fresh` is the id that the store gives to an
/// inserted row. No operation makes more than `fuel` = 3 requests.
pub open spec fn drive(
    pending: Pending,
    request: StoreRequest,
    tables: Tables,
    fresh: i64,
    fuel: nat,
) -> (Outcome, Tables)
    decreases fuel,
{
    if fuel == 0 {
        (Outcome::Failed(ProductServiceError::Unknown), tables)
    } else {
        let moved = step(pending, tables.answer(request, fresh));
        let tables_after = tables.after(request, fresh);
        match moved.1 {
            Progress::Ask(next) => drive(moved.0, next, tables_after, fresh, (fuel - 1) as nat),
            Progress::Done(outcome) => (outcome, tables_after),
        }
    }
}

/// Runs one whole operation on `tables`.
pub open spec fn run(operation: Operation, tables: Tables, fresh: i64) -> (Outcome, Tables) {
    drive(begin(operation).0, begin(operation).1, tables, fresh, 3)
}

/// A product that a user of the store creates is stored under the id that
/// the store assigns, and a read of that id returns the title, the
/// description and the price that were sent, together with the creator's
/// row of the user table.
pub proof fn law_created_product_can_be_read(
    tables: Tables,
    create: ProductDetails,
    creating_user: AuthUser,
    fresh: i64,
)
    requires
        tables.users.dom().contains(creating_user.user.id),
        !tables.products.dom().contains(fresh),
    ensures
        ({
            let created = run(Operation::Create { create, creating_user }, tables, fresh);
            let read = run(Operation::Get { id: fresh }, created.1, fresh);
            let creator = tables.users[creating_user.user.id];
            &&& created.0 == Outcome::Created(fresh)
            &&& read.1 == created.1
            &&& read.0 == Outcome::Found(
                ProductReturn {
                    title: create.title,
                    description: create.description,
                    price: create.price,
                    created_by: MinUserReturnDto { id: creator.id, username: creator.username },
                },
            )
        }),
{
    reveal_with_fuel(drive, 4);
}

/// In a store that keeps the constraints of its schema, the owner that a
/// read of a created product names is the user who created it, and the
/// store keeps those constraints.
pub proof fn law_created_product_names_its_creator(
    tables: Tables,
    create: ProductDetails,
    creating_user: AuthUser,
    fresh: i64,
)
    requires
        tables.well_formed(),
        tables.users.dom().contains(creating_user.user.id),
        !tables.products.dom().contains(fresh),
    ensures
        ({
            let created = run(Operation::Create { create, creating_user }, tables, fresh);
            let read = run(Operation::Get { id: fresh }, created.1, fresh);
            &&& created.1.well_formed()
            &&& read.0 matches Outcome::Found(product) && product.created_by.id
                == creating_user.user.id
        }),
{
    reveal_with_fuel(drive, 4);
}

/// A created product holds every detail that was sent, each in its column,
/// and nothing else in the store changes.
pub proof fn law_create_stores_every_detail(
    tables: Tables,
    create: ProductDetails,
    creating_user: AuthUser,
    fresh: i64,
)
    requires
        tables.users.dom().contains(creating_user.user.id),
        !tables.products.dom().contains(fresh),
    ensures
        ({
            let after = run(Operation::Create { create, creating_user }, tables, fresh).1;
            let row = after.products[fresh];
            &&& after.products.dom() == tables.products.dom().insert(fresh)
            &&& after.products.remove(fresh) == tables.products
            &&& after.users == tables.users
            &&& row.id == fresh
            &&& row.created_by == creating_user.user.id
            &&& overwritten(row, create) == row
        }),
{
    reveal_with_fuel(drive, 4);
    let after = run(Operation::Create { create, creating_user }, tables, fresh).1;
    assert(after.products.remove(fresh) =~= tables.products);
}

/// A read, an update and a delete of an id under which the store holds no
/// product end with not-found for that id, and the store stays as it is.
pub proof fn law_missing_product_is_not_found(
    tables: Tables,
    id: i64,
    product: ProductDetails,
    user: AuthUser,
    fresh: i64,
)
    requires
        !tables.products.dom().contains(id),
    ensures
        run(Operation::Get { id }, tables, fresh) == (
            Outcome::Failed(ProductServiceError::NotFound(id)),
            tables,
        ),
        run(Operation::Update { id, product, user }, tables, fresh) == (
            Outcome::Failed(ProductServiceError::NotFound(id)),
            tables,
        ),
        run(Operation::Delete { id, user }, tables, fresh) == (
            Outcome::Failed(ProductServiceError::NotFound(id)),
            tables,
        ),
{
    reveal_with_fuel(drive, 4);
}

/// An update and a delete by a user who did not create the product end with
/// not-allowed, and the store stays as it is. This holds of every store,
/// also of one in which the creator's row is gone.
pub proof fn law_only_the_owner_changes_a_product(
    tables: Tables,
    id: i64,
    product: ProductDetails,
    user: AuthUser,
    fresh: i64,
)
    requires
        tables.products.dom().contains(id),
        tables.products[id].created_by != user.user.id,
    ensures
        run(Operation::Update { id, product, user }, tables, fresh) == (
            Outcome::Failed(ProductServiceError::NotAllowed),
            tables,
        ),
        run(Operation::Delete { id, user }, tables, fresh) == (
            Outcome::Failed(ProductServiceError::NotAllowed),
            tables,
        ),
{
    reveal_with_fuel(drive, 4);
}

/// A product whose creator's row is gone cannot be read, and its creator
/// cannot update it: both end with the unknown error, and the store stays
/// as it is.
pub proof fn law_orphaned_product_is_unknown_to_its_creator(
    tables: Tables,
    id: i64,
    product: ProductDetails,
    user: AuthUser,
    fresh: i64,
)
    requires
        tables.products.dom().contains(id),
        !tables.users.dom().contains(tables.products[id].created_by),
        tables.products[id].created_by == user.user.id,
    ensures
        run(Operation::Get { id }, tables, fresh) == (
            Outcome::Failed(ProductServiceError::Unknown),
            tables,
        ),
        run(Operation::Update { id, product, user }, tables, fresh) == (
            Outcome::Failed(ProductServiceError::Unknown),
            tables,
        ),
{
    reveal_with_fuel(drive, 4);
}

/// An update by the owner overwrites exactly the details of that product:
/// its id and its owner stay, and so does every other row.
pub proof fn law_owner_update_overwrites_details(
    tables: Tables,
    id: i64,
    product: ProductDetails,
    user: AuthUser,
    fresh: i64,
)
    requires
        tables.well_formed(),
        tables.products.dom().contains(id),
        tables.products[id].created_by == user.user.id,
    ensures
        run(Operation::Update { id, product, user }, tables, fresh) == (
            Outcome::Updated,
            Tables {
                products: tables.products.insert(id, overwritten(tables.products[id], product)),
                users: tables.users,
            },
        ),
{
    reveal_with_fuel(drive, 4);
}

/// A delete by the owner removes that product and nothing else.
pub proof fn law_owner_delete_removes_product(tables: Tables, id: i64, user: AuthUser, fresh: i64)
    requires
        tables.well_formed(),
        tables.products.dom().contains(id),
        tables.products[id].created_by == user.user.id,
    ensures
        run(Operation::Delete { id, user }, tables, fresh) == (
            Outcome::Deleted,
            Tables { products: tables.products.remove(id), users: tables.users },
        ),
{
    reveal_with_fuel(drive, 4);
}

/// No operation changes who owns a product: a product that is in the store
/// before and after has the same owner and the same id.
pub proof fn law_ownership_is_immutable(
    operation: Operation,
    tables: Tables,
    fresh: i64,
    id: i64,
)
    requires
        tables.well_formed(),
        tables.products.dom().contains(id),
        run(operation, tables, fresh).1.products.dom().contains(id),
    ensures
        run(operation, tables, fresh).1.products[id].created_by == tables.products[id].created_by,
        run(operation, tables, fresh).1.products[id].id == id,
        run(operation, tables, fresh).1.well_formed(),
{
    reveal_with_fuel(drive, 4);
}

/// The price that is sent with a create is the price that is stored and the
/// price that a read returns.
pub proof fn law_price_round_trips(
    tables: Tables,
    create: ProductDetails,
    creating_user: AuthUser,
    fresh: i64,
)
    requires
        tables.users.dom().contains(creating_user.user.id),
        !tables.products.dom().contains(fresh),
    ensures
        ({
            let created = run(Operation::Create { create, creating_user }, tables, fresh).1;
            &&& created.products[fresh].price == create.price
            &&& run(Operation::Get { id: fresh }, created, fresh).0 matches Outcome::Found(read)
                && read.price == create.price
        }),
{
    reveal_with_fuel(drive, 4);
}

/// The price that the owner sends with an update is the price that is stored
/// and the price that a read returns.
pub proof fn law_updated_price_round_trips(
    tables: Tables,
    id: i64,
    product: ProductDetails,
    user: AuthUser,
    fresh: i64,
)
    requires
        tables.well_formed(),
        tables.products.dom().contains(id),
        tables.products[id].created_by == user.user.id,
    ensures
        ({
            let updated = run(Operation::Update { id, product, user }, tables, fresh).1;
            &&& updated.products[id].price == product.price
            &&& run(Operation::Get { id }, updated, fresh).0 matches Outcome::Found(read)
                && read.price == product.price
        }),
{
    reveal_with_fuel(drive, 4);
}

/// The requests that the service makes from `pending` on when the store
/// answers with `replies` from the `k`-th on, one reply to each request in
/// turn, until the operation is over.
pub open spec fn asked_from(pending: Pending, replies: Seq<StoreReply>, k: int) -> Seq<
    StoreRequest,
>
    decreases replies.len() - k,
{
    if k < 0 || k >= replies.len() {
        Seq::empty()
    } else {
        let moved = step(pending, replies[k]);
        match moved.1 {
            Progress::Ask(request) => seq![request] + asked_from(moved.0, replies, k + 1),
            Progress::Done(_) => Seq::empty(),
        }
    }
}

/// The requests that `operation` makes after its first one when the store
/// answers with `replies`.
pub open spec fn asked(operation: Operation, replies: Seq<StoreReply>) -> Seq<StoreRequest> {
    asked_from(begin(operation).0, replies, 0)
}

/// Whether `request` changes or removes a stored product.
pub open spec fn changes_a_product(request: StoreRequest) -> bool {
    request is UpdateProduct || request is DeleteProduct
}

/// Whatever the store answers, a create and a read ask for nothing after
/// their first request, and so never change or remove a product.
pub proof fn law_create_and_read_make_one_request(
    create: ProductDetails,
    creating_user: AuthUser,
    id: i64,
    replies: Seq<StoreReply>,
)
    ensures
        asked(Operation::Create { create, creating_user }, replies).len() == 0,
        asked(Operation::Get { id }, replies).len() == 0,
{
    reveal_with_fuel(asked_from, 2);
}

/// Whatever the store answers, an update writes only after the store has
/// shown the caller to be the owner: the one write that it can ask for is
/// its third request, after a first reply with a row that the caller created
/// and with the caller's own row, and it overwrites the row of the second
/// reply with the details that were sent, under the id and the owner of that
/// row.
pub proof fn law_update_writes_only_for_the_owner(
    id: i64,
    product: ProductDetails,
    user: AuthUser,
    replies: Seq<StoreReply>,
    i: int,
)
    requires
        0 <= i < asked(Operation::Update { id, product, user }, replies).len(),
        changes_a_product(asked(Operation::Update { id, product, user }, replies)[i]),
    ensures
        i == 1,
        replies.len() >= 2,
        replies[0] matches StoreReply::ProductWithOwner(Some((checked, Some(_))))
            && checked.created_by == user.user.id,
        replies[1] matches StoreReply::Product(Some(stored)) && asked(
            Operation::Update { id, product, user },
            replies,
        )[i] == StoreRequest::UpdateProduct(overwritten(stored, product)),
{
    reveal_with_fuel(asked_from, 4);
}

/// Whatever the store answers, a delete removes only the row that the store
/// has shown to belong to the caller: the one delete that it can ask for is
/// its second request, for the id of the row of the first reply, whose owner
/// is the caller.
pub proof fn law_delete_removes_only_for_the_owner(
    id: i64,
    user: AuthUser,
    replies: Seq<StoreReply>,
    i: int,
)
    requires
        0 <= i < asked(Operation::Delete { id, user }, replies).len(),
        changes_a_product(asked(Operation::Delete { id, user }, replies)[i]),
    ensures
        i == 0,
        replies[0] matches StoreReply::Product(Some(stored)) && stored.created_by == user.user.id
            && asked(Operation::Delete { id, user }, replies)[i] == StoreRequest::DeleteProduct(
            stored.id,
        ),
{
    reveal_with_fuel(asked_from, 3);
}

} // verus!
