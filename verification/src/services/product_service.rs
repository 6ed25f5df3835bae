//! The product service: create, read, update and delete listings, where only
//! the owner of a listing may change or remove it.

use crate::db::{printed_as, DbError};
use crate::models::product::{ProductDetails, ProductReturn};
use crate::models::user::{AuthUser, MinUserReturnDto, UserRecord};
use crate::store::{NewProduct, ProductRecord, StoreReply, StoreRequest};
use crate::text::{
    int_text, int_to_text, json_member_text, json_object_with_member, json_plain,
    lemma_int_text_is_json_plain,
};
use sea_orm::DbErr;
use vstd::prelude::*;
use vstd::string::*;

verus! {

/// Why a product operation did not succeed.
#[derive(Debug, PartialEq)]
pub enum ProductServiceError {
    /// No connection to the database.
    DbError(DbError),
    /// The store failed to execute a statement.
    OrmError(DbErr),
    /// There is no product with this id.
    NotFound(i64),
    /// The caller does not own the product.
    NotAllowed,
    /// The stored data could not be turned into an answer.
    Unknown,
}

/// HTTP 403.
pub const STATUS_FORBIDDEN: u16 = 403;

/// HTTP 404.
pub const STATUS_NOT_FOUND: u16 = 404;

/// HTTP 500.
pub const STATUS_INTERNAL_SERVER_ERROR: u16 = 500;

/// The answer to a request that failed: a status and, where the client can
/// act on the failure, a JSON document that names it.
#[derive(Debug, Clone, PartialEq, Eq)]
pub struct ErrorResponse {
    pub status: u16,
    pub body: Option<String>,
}

impl ProductServiceError {
    /// Whether the client is told what went wrong. Failures inside the
    /// service are reported without detail.
    pub open spec fn client_facing(self) -> bool {
        self is NotFound || self is NotAllowed
    }

    /// The HTTP status that reports this error.
    pub open spec fn spec_status_code(self) -> u16 {
        match self {
            ProductServiceError::NotFound(_) => STATUS_NOT_FOUND,
            ProductServiceError::NotAllowed => STATUS_FORBIDDEN,
            _ => STATUS_INTERNAL_SERVER_ERROR,
        }
    }

    /// The HTTP status that reports this error.
    pub fn status_code(&self) -> (code: u16)
        ensures
            code == self.spec_status_code(),
    {
        match self {
            ProductServiceError::NotFound(_) => STATUS_NOT_FOUND,
            ProductServiceError::NotAllowed => STATUS_FORBIDDEN,
            _ => STATUS_INTERNAL_SERVER_ERROR,
        }
    }

    /// The message of an error that the service itself raises.
    pub open spec fn own_message(self) -> Seq<char>
        recommends
            self is NotFound || self is NotAllowed || self is Unknown,
    {
        match self {
            ProductServiceError::NotFound(id) => "Product with id "@ + int_text(id as int)
                + " not found"@,
            ProductServiceError::NotAllowed =>
                "You are not authorized to perform changes on this product"@,
            _ => "An unknown error occurred"@,
        }
    }

    /// `text` is the message of this error. An error that comes from the
    /// database layer or the store prints as its cause does.
    pub open spec fn prints_as(self, text: String) -> bool {
        match self {
            ProductServiceError::DbError(cause) => cause.prints_as(text),
            ProductServiceError::OrmError(cause) => printed_as(&cause, text),
            _ => text@ == self.own_message(),
        }
    }

    /// The message of this error.
    pub fn message(&self) -> (text: String)
        ensures
            self.prints_as(text),
    {
        match self {
            ProductServiceError::DbError(cause) => cause.message(),
            ProductServiceError::OrmError(cause) => cause.to_string(),
            ProductServiceError::NotFound(id) => {
                let mut text = "Product with id ".to_string();
                text.append(int_to_text(*id).as_str());
                text.append(" not found");
                text
            },
            ProductServiceError::NotAllowed =>
                "You are not authorized to perform changes on this product".to_string(),
            ProductServiceError::Unknown => "An unknown error occurred".to_string(),
        }
    }

    /// The body that reports this error: `{"error":"<message>"}` for the
    /// errors a client can act on, none for the others.
    pub open spec fn spec_body(self) -> Option<Seq<char>> {
        if self.client_facing() {
            Some(json_member_text("error"@, self.own_message()))
        } else {
            None
        }
    }

    /// The HTTP answer to a request that failed with this error.
    pub fn respond_to(&self) -> (response: ErrorResponse)
        ensures
            response.status == self.spec_status_code(),
            match response.body {
                Some(body) => self.spec_body() == Some(body@),
                None => self.spec_body() is None,
            },
    {
        let status = self.status_code();
        match self {
            ProductServiceError::NotFound(_) | ProductServiceError::NotAllowed => {
                let message = self.message();
                proof {
                    lemma_own_message_is_json_plain(*self);
                    reveal_strlit("error");
                }
                let body = json_object_with_member("error", message.as_str());
                ErrorResponse { status, body: Some(body) }
            },
            _ => ErrorResponse { status, body: None },
        }
    }
}

/// The service's own messages hold nothing that JSON would escape.
pub proof fn lemma_own_message_is_json_plain(error: ProductServiceError)
    requires
        error is NotFound || error is NotAllowed || error is Unknown,
    ensures
        json_plain(error.own_message()),
{
    reveal_strlit("Product with id ");
    reveal_strlit(" not found");
    reveal_strlit("You are not authorized to perform changes on this product");
    reveal_strlit("An unknown error occurred");
    if let ProductServiceError::NotFound(id) = error {
        lemma_int_text_is_json_plain(id as int);
    }
}

/// How an operation ended.
#[derive(Debug, PartialEq)]
pub enum Outcome {
    /// The product was created under this id.
    Created(i64),
    /// The product that was asked for.
    Found(ProductReturn),
    /// The product was overwritten.
    Updated,
    /// The product was removed.
    Deleted,
    /// Nothing was changed, for this reason.
    Failed(ProductServiceError),
}

impl Outcome {
    /// What a create returns: the id of the new product.
    pub open spec fn created(self) -> Result<i64, ProductServiceError> {
        match self {
            Outcome::Created(id) => Ok(id),
            Outcome::Failed(error) => Err(error),
            _ => Err(ProductServiceError::Unknown),
        }
    }

    /// What a read returns: the listing.
    pub open spec fn found(self) -> Result<ProductReturn, ProductServiceError> {
        match self {
            Outcome::Found(product) => Ok(product),
            Outcome::Failed(error) => Err(error),
            _ => Err(ProductServiceError::Unknown),
        }
    }

    /// What an update returns.
    pub open spec fn updated(self) -> Result<(), ProductServiceError> {
        match self {
            Outcome::Updated => Ok(()),
            Outcome::Failed(error) => Err(error),
            _ => Err(ProductServiceError::Unknown),
        }
    }

    /// What a delete returns.
    pub open spec fn deleted(self) -> Result<(), ProductServiceError> {
        match self {
            Outcome::Deleted => Ok(()),
            Outcome::Failed(error) => Err(error),
            _ => Err(ProductServiceError::Unknown),
        }
    }

    /// The result of a create that ended like this. An end that belongs to
    /// another operation is the unknown error.
    pub fn into_created(self) -> (result: Result<i64, ProductServiceError>)
        ensures
            result == self.created(),
    {
        match self {
            Outcome::Created(id) => Ok(id),
            Outcome::Failed(error) => Err(error),
            _ => Err(ProductServiceError::Unknown),
        }
    }

    /// The result of a read that ended like this. An end that belongs to
    /// another operation is the unknown error.
    pub fn into_found(self) -> (result: Result<ProductReturn, ProductServiceError>)
        ensures
            result == self.found(),
    {
        match self {
            Outcome::Found(product) => Ok(product),
            Outcome::Failed(error) => Err(error),
            _ => Err(ProductServiceError::Unknown),
        }
    }

    /// The result of an update that ended like this. An end that belongs to
    /// another operation is the unknown error.
    pub fn into_updated(self) -> (result: Result<(), ProductServiceError>)
        ensures
            result == self.updated(),
    {
        match self {
            Outcome::Updated => Ok(()),
            Outcome::Failed(error) => Err(error),
            _ => Err(ProductServiceError::Unknown),
        }
    }

    /// The result of a delete that ended like this. An end that belongs to
    /// another operation is the unknown error.
    pub fn into_deleted(self) -> (result: Result<(), ProductServiceError>)
        ensures
            result == self.deleted(),
    {
        match self {
            Outcome::Deleted => Ok(()),
            Outcome::Failed(error) => Err(error),
            _ => Err(ProductServiceError::Unknown),
        }
    }
}

/// What the service wants next.
#[derive(Debug, PartialEq)]
pub enum Progress {
    /// The store is to execute this request; its reply resumes the service.
    Ask(StoreRequest),
    /// The operation is over.
    Done(Outcome),
}

/// The reply that the service is waiting for, and what it has to remember
/// until the reply comes.
#[derive(Debug, PartialEq)]
pub enum Pending {
    /// No operation is under way.
    Idle,
    /// A create waits for its insert.
    Create,
    /// A read waits for the product and its owner.
    Get { id: i64 },
    /// An update waits for the product and its owner, to see whether the
    /// caller may change it.
    UpdateCheck { id: i64, changes: ProductDetails, user_id: i64 },
    /// An update waits for the row that it will overwrite.
    UpdateFetch { id: i64, changes: ProductDetails },
    /// An update waits for its write.
    UpdateWrite,
    /// A delete waits for the row, to see whether the caller may remove it.
    DeleteFetch { id: i64, user_id: i64 },
    /// A delete waits for its write.
    DeleteWrite,
}

/// The four operations of the service with their arguments.
pub enum Operation {
    Create { create: ProductDetails, creating_user: AuthUser },
    Get { id: i64 },
    Update { id: i64, product: ProductDetails, user: AuthUser },
    Delete { id: i64, user: AuthUser },
}

/// The row that a create inserts: the client's details under the columns of
/// the product table, owned by `owner`.
pub open spec fn new_product(create: ProductDetails, owner: i64) -> NewProduct {
    NewProduct {
        created_by: owner,
        product_title: create.title,
        description: create.description,
        price: create.price,
        location_country: create.country,
        location_state: create.state,
        location_city: create.city,
        location_zip: create.zip,
        location_latitude: create.latitude,
        location_longitude: create.longitude,
    }
}

/// The row that an update writes: `stored` with every column that a client
/// may set taken from `changes`. The id and the owner stay.
pub open spec fn overwritten(stored: ProductRecord, changes: ProductDetails) -> ProductRecord {
    ProductRecord {
        id: stored.id,
        created_by: stored.created_by,
        product_title: changes.title,
        description: changes.description,
        price: changes.price,
        location_country: changes.country,
        location_state: changes.state,
        location_city: changes.city,
        location_zip: changes.zip,
        location_latitude: changes.latitude,
        location_longitude: changes.longitude,
    }
}

/// What a read of product `id` returns when the joined select answered
/// `found`: not-found without a row, the unknown error for a row whose owner
/// the join did not find, and else the listing with its owner.
pub open spec fn read_outcome(
    id: i64,
    found: Option<(ProductRecord, Option<UserRecord>)>,
) -> Result<ProductReturn, ProductServiceError> {
    match found {
        None => Err(ProductServiceError::NotFound(id)),
        Some((_, None)) => Err(ProductServiceError::Unknown),
        Some((product, Some(owner))) => Ok(
            ProductReturn {
                title: product.product_title,
                description: product.description,
                price: product.price,
                created_by: MinUserReturnDto { id: owner.id, username: owner.username },
            },
        ),
    }
}

/// Whether `user_id` may update product `id` when the joined select
/// answered `found`: not-found without a row, not-allowed for a row that
/// another user created, whether or not the join found that user, and the
/// unknown error for the caller's own row whose owner the join did not find.
pub open spec fn update_check(
    id: i64,
    user_id: i64,
    found: Option<(ProductRecord, Option<UserRecord>)>,
) -> Result<(), ProductServiceError> {
    match found {
        None => Err(ProductServiceError::NotFound(id)),
        Some((product, owner)) => if product.created_by != user_id {
            Err(ProductServiceError::NotAllowed)
        } else if owner is None {
            Err(ProductServiceError::Unknown)
        } else {
            Ok(())
        },
    }
}

/// The state and the first request with which an operation begins.
pub open spec fn begin(operation: Operation) -> (Pending, StoreRequest) {
    match operation {
        Operation::Create { create, creating_user } => (
            Pending::Create,
            StoreRequest::InsertProduct(new_product(create, creating_user.user.id)),
        ),
        Operation::Get { id } => (Pending::Get { id }, StoreRequest::FindProductWithOwner(id)),
        Operation::Update { id, product, user } => (
            Pending::UpdateCheck { id, changes: product, user_id: user.user.id },
            StoreRequest::FindProductWithOwner(id),
        ),
        Operation::Delete { id, user } => (
            Pending::DeleteFetch { id, user_id: user.user.id },
            StoreRequest::FindProduct(id),
        ),
    }
}

/// The operation is over with `outcome`.
pub open spec fn done(outcome: Outcome) -> (Pending, Progress) {
    (Pending::Idle, Progress::Done(outcome))
}

/// The operation is over without success.
pub open spec fn failed(error: ProductServiceError) -> (Pending, Progress) {
    done(Outcome::Failed(error))
}

/// The transition of the service: from what it waits for and the reply that
/// came, to what it waits for next and what it wants.
///
/// A failed statement ends the operation with the store's error. A reply
/// that does not answer the request under way, or that comes when none is,
/// ends it with the unknown error.
pub open spec fn step(pending: Pending, reply: StoreReply) -> (Pending, Progress) {
    match pending {
        Pending::Idle => failed(ProductServiceError::Unknown),
        Pending::Create => match reply {
            StoreReply::Failed(cause) => failed(ProductServiceError::OrmError(cause)),
            StoreReply::Inserted(created) => done(Outcome::Created(created.id)),
            _ => failed(ProductServiceError::Unknown),
        },
        Pending::Get { id } => match reply {
            StoreReply::Failed(cause) => failed(ProductServiceError::OrmError(cause)),
            StoreReply::ProductWithOwner(found) => match read_outcome(id, found) {
                Ok(product) => done(Outcome::Found(product)),
                Err(error) => failed(error),
            },
            _ => failed(ProductServiceError::Unknown),
        },
        Pending::UpdateCheck { id, changes, user_id } => match reply {
            StoreReply::Failed(cause) => failed(ProductServiceError::OrmError(cause)),
            StoreReply::ProductWithOwner(found) => match update_check(id, user_id, found) {
                Ok(_) => (
                    Pending::UpdateFetch { id, changes },
                    Progress::Ask(StoreRequest::FindProduct(id)),
                ),
                Err(error) => failed(error),
            },
            _ => failed(ProductServiceError::Unknown),
        },
        Pending::UpdateFetch { id, changes } => match reply {
            StoreReply::Failed(cause) => failed(ProductServiceError::OrmError(cause)),
            StoreReply::Product(None) => failed(ProductServiceError::NotFound(id)),
            StoreReply::Product(Some(stored)) => (
                Pending::UpdateWrite,
                Progress::Ask(StoreRequest::UpdateProduct(overwritten(stored, changes))),
            ),
            _ => failed(ProductServiceError::Unknown),
        },
        Pending::UpdateWrite => match reply {
            StoreReply::Failed(cause) => failed(ProductServiceError::OrmError(cause)),
            StoreReply::Updated => done(Outcome::Updated),
            _ => failed(ProductServiceError::Unknown),
        },
        Pending::DeleteFetch { id, user_id } => match reply {
            StoreReply::Failed(cause) => failed(ProductServiceError::OrmError(cause)),
            StoreReply::Product(None) => failed(ProductServiceError::NotFound(id)),
            StoreReply::Product(Some(stored)) => if stored.created_by != user_id {
                failed(ProductServiceError::NotAllowed)
            } else {
                (Pending::DeleteWrite, Progress::Ask(StoreRequest::DeleteProduct(stored.id)))
            },
            _ => failed(ProductServiceError::Unknown),
        },
        Pending::DeleteWrite => match reply {
            StoreReply::Failed(cause) => failed(ProductServiceError::OrmError(cause)),
            StoreReply::Deleted => done(Outcome::Deleted),
            _ => failed(ProductServiceError::Unknown),
        },
    }
}

/// Turns the answer of the joined select for product `id` into what a read
/// returns.
pub fn read_product(id: i64, found: Option<(ProductRecord, Option<UserRecord>)>) -> (result: Result<
    ProductReturn,
    ProductServiceError,
>)
    ensures
        result == read_outcome(id, found),
{
    match found {
        None => Err(ProductServiceError::NotFound(id)),
        Some((_, None)) => Err(ProductServiceError::Unknown),
        Some((product, Some(owner))) => Ok(
            ProductReturn {
                title: product.product_title,
                description: product.description,
                price: product.price,
                created_by: MinUserReturnDto { id: owner.id, username: owner.username },
            },
        ),
    }
}

/// Decides from the answer of the joined select for product `id` whether
/// `user_id` may update it.
pub fn check_update(
    id: i64,
    user_id: i64,
    found: Option<(ProductRecord, Option<UserRecord>)>,
) -> (result: Result<(), ProductServiceError>)
    ensures
        result == update_check(id, user_id, found),
{
    match found {
        None => Err(ProductServiceError::NotFound(id)),
        Some((product, owner)) => if product.created_by != user_id {
            Err(ProductServiceError::NotAllowed)
        } else if owner.is_none() {
            Err(ProductServiceError::Unknown)
        } else {
            Ok(())
        },
    }
}

fn stop(outcome: Outcome) -> (moved: (Pending, Progress))
    ensures
        moved == done(outcome),
{
    (Pending::Idle, Progress::Done(outcome))
}

fn fail(error: ProductServiceError) -> (moved: (Pending, Progress))
    ensures
        moved == failed(error),
{
    stop(Outcome::Failed(error))
}

/// Makes one transition: see [`step`].
pub fn advance(pending: Pending, reply: StoreReply) -> (moved: (Pending, Progress))
    ensures
        moved == step(pending, reply),
{
    match pending {
        Pending::Idle => fail(ProductServiceError::Unknown),
        Pending::Create => match reply {
            StoreReply::Failed(cause) => fail(ProductServiceError::OrmError(cause)),
            StoreReply::Inserted(created) => stop(Outcome::Created(created.id)),
            _ => fail(ProductServiceError::Unknown),
        },
        Pending::Get { id } => match reply {
            StoreReply::Failed(cause) => fail(ProductServiceError::OrmError(cause)),
            StoreReply::ProductWithOwner(found) => match read_product(id, found) {
                Ok(product) => stop(Outcome::Found(product)),
                Err(error) => fail(error),
            },
            _ => fail(ProductServiceError::Unknown),
        },
        Pending::UpdateCheck { id, changes, user_id } => match reply {
            StoreReply::Failed(cause) => fail(ProductServiceError::OrmError(cause)),
            StoreReply::ProductWithOwner(found) => match check_update(id, user_id, found) {
                Ok(_) => (
                    Pending::UpdateFetch { id, changes },
                    Progress::Ask(StoreRequest::FindProduct(id)),
                ),
                Err(error) => fail(error),
            },
            _ => fail(ProductServiceError::Unknown),
        },
        Pending::UpdateFetch { id, changes } => match reply {
            StoreReply::Failed(cause) => fail(ProductServiceError::OrmError(cause)),
            StoreReply::Product(None) => fail(ProductServiceError::NotFound(id)),
            StoreReply::Product(Some(stored)) => {
                let row = ProductRecord {
                    id: stored.id,
                    created_by: stored.created_by,
                    product_title: changes.title,
                    description: changes.description,
                    price: changes.price,
                    location_country: changes.country,
                    location_state: changes.state,
                    location_city: changes.city,
                    location_zip: changes.zip,
                    location_latitude: changes.latitude,
                    location_longitude: changes.longitude,
                };
                (Pending::UpdateWrite, Progress::Ask(StoreRequest::UpdateProduct(row)))
            },
            _ => fail(ProductServiceError::Unknown),
        },
        Pending::UpdateWrite => match reply {
            StoreReply::Failed(cause) => fail(ProductServiceError::OrmError(cause)),
            StoreReply::Updated => stop(Outcome::Updated),
            _ => fail(ProductServiceError::Unknown),
        },
        Pending::DeleteFetch { id, user_id } => match reply {
            StoreReply::Failed(cause) => fail(ProductServiceError::OrmError(cause)),
            StoreReply::Product(None) => fail(ProductServiceError::NotFound(id)),
            StoreReply::Product(Some(stored)) => if stored.created_by != user_id {
                fail(ProductServiceError::NotAllowed)
            } else {
                (Pending::DeleteWrite, Progress::Ask(StoreRequest::DeleteProduct(stored.id)))
            },
            _ => fail(ProductServiceError::Unknown),
        },
        Pending::DeleteWrite => match reply {
            StoreReply::Failed(cause) => fail(ProductServiceError::OrmError(cause)),
            StoreReply::Deleted => stop(Outcome::Deleted),
            _ => fail(ProductServiceError::Unknown),
        },
    }
}

/// The product service of one request. It performs no I/O: each operation
/// hands out the first statement for the store, and [`ProductService::resume`]
/// takes every reply and says how to go on.
#[derive(Debug, PartialEq)]
pub struct ProductService {
    pub pending: Pending,
}

impl ProductService {
    /// A service with no operation under way.
    pub fn new() -> (service: Self)
        ensures
            service.pending == Pending::Idle,
    {
        ProductService { pending: Pending::Idle }
    }

    /// The service for one request, given how opening the connection to the
    /// database went: without a connection the request is answered with the
    /// status of an internal failure and the reason.
    pub fn from_request(connected: Result<(), DbError>) -> (guard: Result<
        ProductService,
        (u16, ProductServiceError),
    >)
        ensures
            guard == match connected {
                Ok(_) => Ok::<ProductService, (u16, ProductServiceError)>(
                    ProductService { pending: Pending::Idle },
                ),
                Err(cause) => Err((STATUS_INTERNAL_SERVER_ERROR, ProductServiceError::DbError(cause))),
            },
    {
        match connected {
            Ok(_) => Ok(ProductService::new()),
            Err(cause) => Err((STATUS_INTERNAL_SERVER_ERROR, ProductServiceError::DbError(cause))),
        }
    }

    /// Begins to create a product from `create`, owned by `creating_user`.
    /// Ends with [`Outcome::Created`] and the id that the store assigned.
    pub fn create_new_product(&mut self, create: ProductDetails, creating_user: AuthUser) -> (request:
        StoreRequest)
        ensures
            (final(self).pending, request) == begin(Operation::Create { create, creating_user }),
    {
        self.pending = Pending::Create;
        StoreRequest::InsertProduct(
            NewProduct {
                created_by: creating_user.user.id,
                product_title: create.title,
                description: create.description,
                price: create.price,
                location_country: create.country,
                location_state: create.state,
                location_city: create.city,
                location_zip: create.zip,
                location_latitude: create.latitude,
                location_longitude: create.longitude,
            },
        )
    }

    /// Begins to read product `id`. Ends with [`Outcome::Found`].
    pub fn get_product_by_id(&mut self, id: i64) -> (request: StoreRequest)
        ensures
            (final(self).pending, request) == begin(Operation::Get { id }),
    {
        self.pending = Pending::Get { id };
        StoreRequest::FindProductWithOwner(id)
    }

    /// Begins to overwrite product `id` with `product` on behalf of `user`.
    /// Ends with [`Outcome::Updated`] if `user` owns the product.
    pub fn update_product_by_id(&mut self, id: i64, product: ProductDetails, user: AuthUser) -> (request:
        StoreRequest)
        ensures
            (final(self).pending, request) == begin(Operation::Update { id, product, user }),
    {
        self.pending = Pending::UpdateCheck { id, changes: product, user_id: user.user.id };
        StoreRequest::FindProductWithOwner(id)
    }

    /// Begins to remove product `id` on behalf of `user`. Ends with
    /// [`Outcome::Deleted`] if `user` owns the product.
    pub fn delete_product_by_id(&mut self, id: i64, user: AuthUser) -> (request: StoreRequest)
        ensures
            (final(self).pending, request) == begin(Operation::Delete { id, user }),
    {
        self.pending = Pending::DeleteFetch { id, user_id: user.user.id };
        StoreRequest::FindProduct(id)
    }

    /// Takes the store's reply to the request that was handed out last and
    /// says how the operation goes on: see [`step`].
    pub fn resume(&mut self, reply: StoreReply) -> (progress: Progress)
        ensures
            (final(self).pending, progress) == step(old(self).pending, reply),
    {
        let mut pending = Pending::Idle;
        core::mem::swap(&mut self.pending, &mut pending);
        let (next, progress) = advance(pending, reply);
        self.pending = next;
        progress
    }
}

} // verus!
