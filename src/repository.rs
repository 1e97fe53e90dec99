use vstd::prelude::*;
use crate::error::RepoError;
use crate::models::{
    CopyTradingPositionDbModel, CopyTradingPositionWhereDbModel, CopyTradingProviderDbModel,
    CopyTradingProviderUpdateDbModel, CopyTradingProviderWhereDbModel,
    CopyTradingSubscriptionDbModel, CopyTradingSubscriptionUpdateDbModel,
    CopyTradingSubscriptionWhereDbModel,
};
use crate::schema::{
    position_layout, position_schema, provider_layout, provider_schema, schema_agrees,
    subscription_layout, subscription_schema, verify_schema, TableSchema,
};
use crate::table::{batch_clashes, has_key, keys_unique, kept, query_result, updated, Table};

verus! {

/// The providers' table.
pub struct CopyTradingProviderDbRepository {
    service_name: String,
    table: Table<CopyTradingProviderDbModel>,
}

/// The subscriptions' table.
pub struct CopyTradingSubscriptionDbRepository {
    service_name: String,
    table: Table<CopyTradingSubscriptionDbModel>,
}

/// The positions' table.
pub struct CopyTradingPositionsDbRepository {
    service_name: String,
    table: Table<CopyTradingPositionDbModel>,
}

impl View for CopyTradingProviderDbRepository {
    type V = Seq<CopyTradingProviderDbModel>;

    closed spec fn view(&self) -> Seq<CopyTradingProviderDbModel> {
        self.table@
    }
}

impl View for CopyTradingSubscriptionDbRepository {
    type V = Seq<CopyTradingSubscriptionDbModel>;

    closed spec fn view(&self) -> Seq<CopyTradingSubscriptionDbModel> {
        self.table@
    }
}

impl View for CopyTradingPositionsDbRepository {
    type V = Seq<CopyTradingPositionDbModel>;

    closed spec fn view(&self) -> Seq<CopyTradingPositionDbModel> {
        self.table@
    }
}

impl CopyTradingProviderDbRepository {
    pub open spec fn wf(&self) -> bool {
        keys_unique(self@)
    }

    /// The service on whose behalf the table is used.
    pub closed spec fn service(&self) -> Seq<char> {
        self.service_name@
    }

    /// Attaches to the table once `live`, its layout as the store reports
    /// it, agrees with the provider descriptor.
    pub fn new(service_name: String, live: &TableSchema) -> (r: Result<Self, RepoError>)
        ensures
            match r {
                Ok(repo) => schema_agrees(provider_layout(), live@) && repo.wf() && repo@
                    == Seq::<CopyTradingProviderDbModel>::empty() && repo.service()
                    == service_name@,
                Err(e) => !schema_agrees(provider_layout(), live@) && e == RepoError::SchemaMismatch,
            },
    {
        let expected = provider_schema();
        match verify_schema(&expected, live) {
            Ok(()) => Ok(CopyTradingProviderDbRepository { service_name, table: Table::new() }),
            Err(e) => Err(e),
        }
    }

    pub fn service_name(&self) -> (r: &String)
        ensures
            r@ == self.service(),
    {
        &self.service_name
    }

    /// Adds one provider; fails when its id is taken.
    pub fn add_provider(&mut self, model: CopyTradingProviderDbModel) -> (r: Result<(), RepoError>)
        requires
            old(self).wf(),
        ensures
            final(self).wf(),
            final(self).service() == old(self).service(),
            has_key(old(self)@, model.id@) ==> r == Err::<(), RepoError>(RepoError::DuplicateKey)
                && final(self)@ == old(self)@,
            !has_key(old(self)@, model.id@) ==> r == Ok::<(), RepoError>(())
                && final(self)@ == old(self)@.push(model),
    {
        self.table.insert_one(model)
    }

    /// Sets the status of the provider with the given id; fails when no
    /// provider has it.
    pub fn update_provider(&mut self, update_model: CopyTradingProviderUpdateDbModel) -> (r: Result<(), RepoError>)
        requires
            old(self).wf(),
        ensures
            final(self).wf(),
            final(self).service() == old(self).service(),
            !has_key(old(self)@, update_model.id@) ==> r == Err::<(), RepoError>(RepoError::NotFound)
                && final(self)@ == old(self)@,
            has_key(old(self)@, update_model.id@) ==> r == Ok::<(), RepoError>(())
                && final(self)@ == updated(old(self)@, update_model),
    {
        self.table.update_one(&update_model)
    }

    /// The providers that `query` selects, or all of them.
    pub fn query_provider(&self, query: Option<CopyTradingProviderWhereDbModel>) -> (r: Vec<CopyTradingProviderDbModel>)
        ensures
            r@ == query_result(self@, query),
    {
        self.table.select_where(query.as_ref())
    }
}

impl CopyTradingSubscriptionDbRepository {
    pub open spec fn wf(&self) -> bool {
        keys_unique(self@)
    }

    /// The service on whose behalf the table is used.
    pub closed spec fn service(&self) -> Seq<char> {
        self.service_name@
    }

    /// Attaches to the table once `live`, its layout as the store reports
    /// it, agrees with the subscription descriptor.
    pub fn new(service_name: String, live: &TableSchema) -> (r: Result<Self, RepoError>)
        ensures
            match r {
                Ok(repo) => schema_agrees(subscription_layout(), live@) && repo.wf() && repo@
                    == Seq::<CopyTradingSubscriptionDbModel>::empty() && repo.service()
                    == service_name@,
                Err(e) => !schema_agrees(subscription_layout(), live@) && e == RepoError::SchemaMismatch,
            },
    {
        let expected = subscription_schema();
        match verify_schema(&expected, live) {
            Ok(()) => Ok(CopyTradingSubscriptionDbRepository { service_name, table: Table::new() }),
            Err(e) => Err(e),
        }
    }

    pub fn service_name(&self) -> (r: &String)
        ensures
            r@ == self.service(),
    {
        &self.service_name
    }

    /// Adds one subscription; fails when its id is taken.
    pub fn add_subscription(&mut self, model: CopyTradingSubscriptionDbModel) -> (r: Result<(), RepoError>)
        requires
            old(self).wf(),
        ensures
            final(self).wf(),
            final(self).service() == old(self).service(),
            has_key(old(self)@, model.id@) ==> r == Err::<(), RepoError>(RepoError::DuplicateKey)
                && final(self)@ == old(self)@,
            !has_key(old(self)@, model.id@) ==> r == Ok::<(), RepoError>(())
                && final(self)@ == old(self)@.push(model),
    {
        self.table.insert_one(model)
    }

    /// Sets status, coefficient and stop loss of the subscription with the
    /// given id; fails when no subscription has it.
    pub fn update_subscription(&mut self, update_model: CopyTradingSubscriptionUpdateDbModel) -> (r: Result<(), RepoError>)
        requires
            old(self).wf(),
        ensures
            final(self).wf(),
            final(self).service() == old(self).service(),
            !has_key(old(self)@, update_model.id@) ==> r == Err::<(), RepoError>(RepoError::NotFound)
                && final(self)@ == old(self)@,
            has_key(old(self)@, update_model.id@) ==> r == Ok::<(), RepoError>(())
                && final(self)@ == updated(old(self)@, update_model),
    {
        self.table.update_one(&update_model)
    }

    /// The subscriptions that `query` selects, or all of them.
    pub fn query_subscription(&self, query: Option<&CopyTradingSubscriptionWhereDbModel>) -> (r: Vec<CopyTradingSubscriptionDbModel>)
        ensures
            r@ == query_result(self@, match query {
                Some(q) => Some(*q),
                None => None,
            }),
    {
        self.table.select_where(query)
    }
}

impl CopyTradingPositionsDbRepository {
    pub open spec fn wf(&self) -> bool {
        keys_unique(self@)
    }

    /// The service on whose behalf the table is used.
    pub closed spec fn service(&self) -> Seq<char> {
        self.service_name@
    }

    /// Attaches to the table once `live`, its layout as the store reports
    /// it, agrees with the position descriptor.
    pub fn new(service_name: String, live: &TableSchema) -> (r: Result<Self, RepoError>)
        ensures
            match r {
                Ok(repo) => schema_agrees(position_layout(), live@) && repo.wf() && repo@
                    == Seq::<CopyTradingPositionDbModel>::empty() && repo.service()
                    == service_name@,
                Err(e) => !schema_agrees(position_layout(), live@) && e == RepoError::SchemaMismatch,
            },
    {
        let expected = position_schema();
        match verify_schema(&expected, live) {
            Ok(()) => Ok(CopyTradingPositionsDbRepository { service_name, table: Table::new() }),
            Err(e) => Err(e),
        }
    }

    pub fn service_name(&self) -> (r: &String)
        ensures
            r@ == self.service(),
    {
        &self.service_name
    }

    /// Adds all positions, or none when an id repeats within the batch or is
    /// already taken.
    pub fn add_positions(&mut self, positions: Vec<CopyTradingPositionDbModel>) -> (r: Result<(), RepoError>)
        requires
            old(self).wf(),
        ensures
            final(self).wf(),
            final(self).service() == old(self).service(),
            batch_clashes(old(self)@, positions@) ==> r == Err::<(), RepoError>(RepoError::DuplicateKey)
                && final(self)@ == old(self)@,
            !batch_clashes(old(self)@, positions@) ==> r == Ok::<(), RepoError>(())
                && final(self)@ == old(self)@ + positions@,
    {
        self.table.insert_bulk(positions)
    }

    /// Removes the positions that `query` selects; a query that constrains
    /// nothing is refused and nothing is removed.
    pub fn delete_positions(&mut self, query: CopyTradingPositionWhereDbModel) -> (r: Result<(), RepoError>)
        requires
            old(self).wf(),
        ensures
            final(self).wf(),
            final(self).service() == old(self).service(),
            query.id is None && query.source_position_id is None && query.subscription_id is None
                ==> r == Err::<(), RepoError>(RepoError::UnconstrainedDelete) && final(self)@ == old(self)@,
            !(query.id is None && query.source_position_id is None && query.subscription_id is None)
                ==> r == Ok::<(), RepoError>(()) && final(self)@ == kept(old(self)@, query),
    {
        self.table.delete_where(&query)
    }

    /// The positions that `query` selects, or all of them.
    pub fn query_positions(&self, query: Option<CopyTradingPositionWhereDbModel>) -> (r: Vec<CopyTradingPositionDbModel>)
        ensures
            r@ == query_result(self@, query),
    {
        self.table.select_where(query.as_ref())
    }
}

} // verus!
