//! The persistent store as the services see it: the rows they read and
//! write, the requests they make and the replies they are resumed with.

use crate::models::user::UserRecord;
use sea_orm::prelude::Decimal;
use sea_orm::DbErr;
use vstd::prelude::*;

verus! {

/// A row of the product table.
#[derive(Debug, Clone, PartialEq)]
pub struct ProductRecord {
    pub id: i64,
    pub created_by: i64,
    pub product_title: String,
    pub description: String,
    pub price: Decimal,
    pub location_country: String,
    pub location_state: String,
    pub location_city: String,
    pub location_zip: String,
    pub location_latitude: Option<Decimal>,
    pub location_longitude: Option<Decimal>,
}

/// A product row that is still to be inserted: every column but the id,
/// which the store assigns.
#[derive(Debug, Clone, PartialEq)]
pub struct NewProduct {
    pub created_by: i64,
    pub product_title: String,
    pub description: String,
    pub price: Decimal,
    pub location_country: String,
    pub location_state: String,
    pub location_city: String,
    pub location_zip: String,
    pub location_latitude: Option<Decimal>,
    pub location_longitude: Option<Decimal>,
}

/// One statement for the store to execute.
#[derive(Debug, PartialEq)]
pub enum StoreRequest {
    /// Insert the row and report it as stored.
    InsertProduct(NewProduct),
    /// Select the product with this id, joined with the user that its
    /// `created_by` column refers to.
    FindProductWithOwner(i64),
    /// Select the product with this id.
    FindProduct(i64),
    /// Overwrite the row that has the record's id with the record.
    UpdateProduct(ProductRecord),
    /// Delete the row with this id.
    DeleteProduct(i64),
}

/// What the store answered.
#[derive(Debug, PartialEq)]
pub enum StoreReply {
    /// The statement failed.
    Failed(DbErr),
    /// The row as it was inserted.
    Inserted(ProductRecord),
    /// The result of a joined select: the product, if there is one, and its
    /// owner, if the join found one.
    ProductWithOwner(Option<(ProductRecord, Option<UserRecord>)>),
    /// The result of a plain select.
    Product(Option<ProductRecord>),
    /// The update was executed.
    Updated,
    /// The delete was executed.
    Deleted,
}

/// The contents of the store, for stating what the services achieve: the
/// product and the user table, each as a map from the primary key to the row.
pub struct Tables {
    pub products: Map<i64, ProductRecord>,
    pub users: Map<i64, UserRecord>,
}

/// The row that an insert of `row` stores under the id `id`.
pub open spec fn stored(row: NewProduct, id: i64) -> ProductRecord {
    ProductRecord {
        id,
        created_by: row.created_by,
        product_title: row.product_title,
        description: row.description,
        price: row.price,
        location_country: row.location_country,
        location_state: row.location_state,
        location_city: row.location_city,
        location_zip: row.location_zip,
        location_latitude: row.location_latitude,
        location_longitude: row.location_longitude,
    }
}

impl Tables {
    /// The constraints of the schema: every row stands under its own id, and
    /// the owner of every product is a user.
    pub open spec fn well_formed(self) -> bool {
        &&& forall|id: i64| #[trigger]
            self.products.dom().contains(id) ==> self.products[id].id == id
        &&& forall|id: i64| #[trigger]
            self.products.dom().contains(id) ==> self.users.dom().contains(
                self.products[id].created_by,
            )
        &&& forall|id: i64| #[trigger] self.users.dom().contains(id) ==> self.users[id].id == id
    }

    /// The product with this id, if there is one.
    pub open spec fn product(self, id: i64) -> Option<ProductRecord> {
        if self.products.dom().contains(id) {
            Some(self.products[id])
        } else {
            None
        }
    }

    /// The user with this id, if there is one.
    pub open spec fn user(self, id: i64) -> Option<UserRecord> {
        if self.users.dom().contains(id) {
            Some(self.users[id])
        } else {
            None
        }
    }

    /// Whether the store executes `request`. It refuses an insert whose owner
    /// is no user and a write to a row that is not there. `fresh` is the id
    /// that the store would give to an inserted row.
    pub open spec fn accepts(self, request: StoreRequest, fresh: i64) -> bool {
        match request {
            StoreRequest::InsertProduct(row) => self.users.dom().contains(row.created_by)
                && !self.products.dom().contains(fresh),
            StoreRequest::UpdateProduct(row) => self.products.dom().contains(row.id)
                && self.users.dom().contains(row.created_by),
            StoreRequest::DeleteProduct(id) => self.products.dom().contains(id),
            _ => true,
        }
    }

    /// What a store with these contents answers to `request`.
    pub open spec fn answer(self, request: StoreRequest, fresh: i64) -> StoreReply {
        if !self.accepts(request, fresh) {
            StoreReply::Failed(arbitrary())
        } else {
            match request {
                StoreRequest::InsertProduct(row) => StoreReply::Inserted(stored(row, fresh)),
                StoreRequest::FindProductWithOwner(id) => StoreReply::ProductWithOwner(
                    match self.product(id) {
                        Some(product) => Some((product, self.user(product.created_by))),
                        None => None,
                    },
                ),
                StoreRequest::FindProduct(id) => StoreReply::Product(self.product(id)),
                StoreRequest::UpdateProduct(_) => StoreReply::Updated,
                StoreRequest::DeleteProduct(_) => StoreReply::Deleted,
            }
        }
    }

    /// The contents of the store after `request`.
    pub open spec fn after(self, request: StoreRequest, fresh: i64) -> Tables {
        if !self.accepts(request, fresh) {
            self
        } else {
            match request {
                StoreRequest::InsertProduct(row) => Tables {
                    products: self.products.insert(fresh, stored(row, fresh)),
                    users: self.users,
                },
                StoreRequest::UpdateProduct(row) => Tables {
                    products: self.products.insert(row.id, row),
                    users: self.users,
                },
                StoreRequest::DeleteProduct(id) => Tables {
                    products: self.products.remove(id),
                    users: self.users,
                },
                _ => self,
            }
        }
    }
}

/// The store keeps the constraints of its schema, whatever it is asked.
pub proof fn lemma_store_stays_well_formed(tables: Tables, request: StoreRequest, fresh: i64)
    requires
        tables.well_formed(),
    ensures
        tables.after(request, fresh).well_formed(),
{
}

} // verus!
