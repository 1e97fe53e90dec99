use copy_trading_db::codec::{
    CopyTradingPositionType, CopyTradingProviderDbStatus, CopyTradingSubscriptionDbStatus,
};
use copy_trading_db::error::RepoError;
use copy_trading_db::models::{
    CopyTradingPositionDbModel, CopyTradingPositionWhereDbModel, CopyTradingProviderDbModel,
    CopyTradingProviderUpdateDbModel, CopyTradingProviderWhereDbModel,
    CopyTradingSubscriptionDbModel, CopyTradingSubscriptionUpdateDbModel,
    CopyTradingSubscriptionWhereDbModel,
};
use copy_trading_db::repository::{
    CopyTradingPositionsDbRepository, CopyTradingProviderDbRepository,
    CopyTradingSubscriptionDbRepository,
};
use copy_trading_db::schema::{
    position_schema, provider_schema, subscription_schema, verify_schema, ColumnType,
};

const T0: i64 = 1_700_000_000_000_000;

fn provider(id: &str, trader: &str, account: &str) -> CopyTradingProviderDbModel {
    CopyTradingProviderDbModel {
        id: id.to_string(),
        trader_id: trader.to_string(),
        account_id: account.to_string(),
        status: CopyTradingProviderDbStatus::Active,
        create_date: T0,
    }
}

fn position(id: &str, source: &str, subscription: &str) -> CopyTradingPositionDbModel {
    CopyTradingPositionDbModel {
        id: id.to_string(),
        provider_id: "p1".to_string(),
        subscription_id: subscription.to_string(),
        source_position_id: source.to_string(),
        position_type: CopyTradingPositionType::Market,
    }
}

fn subscription(id: &str, provider_id: &str) -> CopyTradingSubscriptionDbModel {
    CopyTradingSubscriptionDbModel {
        id: id.to_string(),
        provider_id: provider_id.to_string(),
        trader_id: "t2".to_string(),
        account_id: "a2".to_string(),
        status: CopyTradingSubscriptionDbStatus::Active,
        copy_trading_coefficient: 1.5f64.to_bits(),
        pl_force_stop_loss: None,
    }
}

fn providers() -> CopyTradingProviderDbRepository {
    CopyTradingProviderDbRepository::new("svc".to_string(), &provider_schema()).unwrap()
}

fn positions() -> CopyTradingPositionsDbRepository {
    CopyTradingPositionsDbRepository::new("svc".to_string(), &position_schema()).unwrap()
}

fn subscriptions() -> CopyTradingSubscriptionDbRepository {
    CopyTradingSubscriptionDbRepository::new("svc".to_string(), &subscription_schema()).unwrap()
}

fn by_provider_id(id: &str) -> CopyTradingProviderWhereDbModel {
    CopyTradingProviderWhereDbModel { id: Some(id.to_string()), trader_id: None, account_id: None }
}

fn by_subscription(id: &str) -> CopyTradingPositionWhereDbModel {
    CopyTradingPositionWhereDbModel { id: None, source_position_id: None, subscription_id: Some(id.to_string()) }
}

#[test]
fn provider_add_then_query_by_id_returns_it() {
    let mut repo = providers();
    let p = provider("p1", "t1", "a1");
    assert_eq!(repo.add_provider(p.clone()), Ok(()));
    assert_eq!(repo.query_provider(Some(by_provider_id("p1"))), vec![p]);
}

#[test]
fn provider_scenario_query_update_requery() {
    let mut repo = providers();
    let p = provider("p1", "t1", "a1");
    assert_eq!(repo.add_provider(p.clone()), Ok(()));
    let by_trader = CopyTradingProviderWhereDbModel { id: None, trader_id: Some("t1".to_string()), account_id: None };
    assert_eq!(repo.query_provider(Some(by_trader)), vec![p.clone()]);
    let upd = CopyTradingProviderUpdateDbModel { id: "p1".to_string(), status: CopyTradingProviderDbStatus::Paused };
    assert_eq!(repo.update_provider(upd), Ok(()));
    let rows = repo.query_provider(Some(by_provider_id("p1")));
    assert_eq!(rows.len(), 1);
    assert_eq!(rows[0].status, CopyTradingProviderDbStatus::Paused);
    assert_eq!(rows[0].create_date, T0);
    assert_eq!(rows[0].trader_id, "t1");
}

#[test]
fn provider_duplicate_id_is_rejected() {
    let mut repo = providers();
    assert_eq!(repo.add_provider(provider("p1", "t1", "a1")), Ok(()));
    assert_eq!(repo.add_provider(provider("p1", "t9", "a9")), Err(RepoError::DuplicateKey));
    let all = repo.query_provider(None);
    assert_eq!(all, vec![provider("p1", "t1", "a1")]);
}

#[test]
fn provider_update_of_missing_id_is_not_found() {
    let mut repo = providers();
    assert_eq!(repo.add_provider(provider("p1", "t1", "a1")), Ok(()));
    let upd = CopyTradingProviderUpdateDbModel { id: "nope".to_string(), status: CopyTradingProviderDbStatus::Disabled };
    assert_eq!(repo.update_provider(upd), Err(RepoError::NotFound));
    assert_eq!(repo.query_provider(None), vec![provider("p1", "t1", "a1")]);
    assert!(repo.query_provider(Some(by_provider_id("nope"))).is_empty());
}

#[test]
fn provider_filters_combine_with_and() {
    let mut repo = providers();
    assert_eq!(repo.add_provider(provider("p1", "t1", "a1")), Ok(()));
    assert_eq!(repo.add_provider(provider("p2", "t1", "a2")), Ok(()));
    assert_eq!(repo.add_provider(provider("p3", "t2", "a1")), Ok(()));
    let both = CopyTradingProviderWhereDbModel { id: None, trader_id: Some("t1".to_string()), account_id: Some("a1".to_string()) };
    assert_eq!(repo.query_provider(Some(both)), vec![provider("p1", "t1", "a1")]);
    let none = CopyTradingProviderWhereDbModel { id: None, trader_id: None, account_id: None };
    assert_eq!(repo.query_provider(Some(none)).len(), 3);
    assert_eq!(repo.query_provider(None).len(), 3);
}

#[test]
fn positions_scenario_bulk_add_then_delete_by_subscription() {
    let mut repo = positions();
    let batch = vec![position("x1", "s-a", "s1"), position("x2", "s-b", "s1"), position("x3", "s-c", "s1")];
    assert_eq!(repo.add_positions(batch.clone()), Ok(()));
    assert_eq!(repo.query_positions(Some(by_subscription("s1"))), batch);
    assert_eq!(repo.delete_positions(by_subscription("s1")), Ok(()));
    assert!(repo.query_positions(Some(by_subscription("s1"))).is_empty());
}

#[test]
fn positions_bulk_with_shared_id_fails_entirely() {
    let mut repo = positions();
    let batch = vec![position("x1", "s-a", "s1"), position("x1", "s-b", "s1")];
    assert_eq!(repo.add_positions(batch), Err(RepoError::DuplicateKey));
    assert!(repo.query_positions(None).is_empty());
}

#[test]
fn positions_bulk_clashing_with_stored_id_fails_entirely() {
    let mut repo = positions();
    assert_eq!(repo.add_positions(vec![position("x1", "s-a", "s1")]), Ok(()));
    let batch = vec![position("x2", "s-b", "s2"), position("x1", "s-c", "s2")];
    assert_eq!(repo.add_positions(batch), Err(RepoError::DuplicateKey));
    assert_eq!(repo.query_positions(None), vec![position("x1", "s-a", "s1")]);
}

#[test]
fn positions_unconstrained_delete_is_refused() {
    let mut repo = positions();
    assert_eq!(repo.add_positions(vec![position("x1", "s-a", "s1")]), Ok(()));
    let empty = CopyTradingPositionWhereDbModel { id: None, source_position_id: None, subscription_id: None };
    assert_eq!(repo.delete_positions(empty), Err(RepoError::UnconstrainedDelete));
    assert_eq!(repo.query_positions(None).len(), 1);
}

#[test]
fn positions_delete_by_id_list_and_source() {
    let mut repo = positions();
    let batch = vec![position("x1", "s-a", "s1"), position("x2", "s-b", "s1"), position("x3", "s-c", "s2")];
    assert_eq!(repo.add_positions(batch), Ok(()));
    let ids = CopyTradingPositionWhereDbModel { id: Some(vec!["x1".to_string(), "x3".to_string()]), source_position_id: None, subscription_id: None };
    assert_eq!(repo.delete_positions(ids), Ok(()));
    assert_eq!(repo.query_positions(None), vec![position("x2", "s-b", "s1")]);
    let src = CopyTradingPositionWhereDbModel { id: None, source_position_id: Some("s-b".to_string()), subscription_id: None };
    assert_eq!(repo.delete_positions(src), Ok(()));
    assert!(repo.query_positions(None).is_empty());
}

#[test]
fn positions_empty_id_list_selects_nothing() {
    let mut repo = positions();
    assert_eq!(repo.add_positions(vec![position("x1", "s-a", "s1")]), Ok(()));
    let ids = CopyTradingPositionWhereDbModel { id: Some(vec![]), source_position_id: None, subscription_id: None };
    assert!(repo.query_positions(Some(ids.clone())).is_empty());
    assert_eq!(repo.delete_positions(ids), Ok(()));
    assert_eq!(repo.query_positions(None).len(), 1);
}

#[test]
fn positions_empty_bulk_is_accepted() {
    let mut repo = positions();
    assert_eq!(repo.add_positions(vec![]), Ok(()));
    assert!(repo.query_positions(None).is_empty());
}

#[test]
fn subscription_update_and_query_by_provider() {
    let mut repo = subscriptions();
    assert_eq!(repo.add_subscription(subscription("s1", "p1")), Ok(()));
    assert_eq!(repo.add_subscription(subscription("s2", "p2")), Ok(()));
    assert_eq!(repo.add_subscription(subscription("s1", "p3")), Err(RepoError::DuplicateKey));
    let upd = CopyTradingSubscriptionUpdateDbModel {
        id: "s1".to_string(),
        status: CopyTradingSubscriptionDbStatus::Paused,
        copy_trading_coefficient: 2.0f64.to_bits(),
        pl_force_stop_loss: Some((-50.0f64).to_bits()),
    };
    assert_eq!(repo.update_subscription(upd), Ok(()));
    let q = CopyTradingSubscriptionWhereDbModel { id: None, provider_id: Some("p1".to_string()) };
    let rows = repo.query_subscription(Some(&q));
    assert_eq!(rows.len(), 1);
    assert_eq!(rows[0].status, CopyTradingSubscriptionDbStatus::Paused);
    assert_eq!(f64::from_bits(rows[0].copy_trading_coefficient), 2.0);
    assert_eq!(rows[0].pl_force_stop_loss.map(f64::from_bits), Some(-50.0));
    assert_eq!(rows[0].provider_id, "p1");
    let missing = CopyTradingSubscriptionUpdateDbModel {
        id: "s9".to_string(),
        status: CopyTradingSubscriptionDbStatus::Active,
        copy_trading_coefficient: 1.0f64.to_bits(),
        pl_force_stop_loss: None,
    };
    assert_eq!(repo.update_subscription(missing), Err(RepoError::NotFound));
    assert_eq!(repo.query_subscription(None).len(), 2);
}

#[test]
fn codec_round_trips_every_variant() {
    for v in [CopyTradingProviderDbStatus::Active, CopyTradingProviderDbStatus::Paused, CopyTradingProviderDbStatus::Disabled] {
        assert_eq!(CopyTradingProviderDbStatus::decode(v.encode()), Ok(v));
    }
    for v in [CopyTradingSubscriptionDbStatus::Active, CopyTradingSubscriptionDbStatus::Paused] {
        assert_eq!(CopyTradingSubscriptionDbStatus::decode(v.encode()), Ok(v));
    }
    for v in [CopyTradingPositionType::Market, CopyTradingPositionType::Pending] {
        assert_eq!(CopyTradingPositionType::decode(v.encode()), Ok(v));
    }
}

#[test]
fn codec_tokens_are_the_variant_names() {
    assert_eq!(CopyTradingProviderDbStatus::Disabled.encode(), "Disabled");
    assert_eq!(CopyTradingSubscriptionDbStatus::Paused.encode(), "Paused");
    assert_eq!(CopyTradingPositionType::Pending.encode(), "Pending");
}

#[test]
fn codec_rejects_unknown_tokens() {
    assert_eq!(CopyTradingProviderDbStatus::decode("active"), Err(RepoError::InvalidEnumValue));
    assert_eq!(CopyTradingProviderDbStatus::decode(""), Err(RepoError::InvalidEnumValue));
    assert_eq!(CopyTradingSubscriptionDbStatus::decode("Disabled"), Err(RepoError::InvalidEnumValue));
    assert_eq!(CopyTradingPositionType::decode("Limit"), Err(RepoError::InvalidEnumValue));
}

#[test]
fn schema_agrees_with_itself() {
    assert_eq!(verify_schema(&provider_schema(), &provider_schema()), Ok(()));
    assert_eq!(verify_schema(&subscription_schema(), &subscription_schema()), Ok(()));
    assert_eq!(verify_schema(&position_schema(), &position_schema()), Ok(()));
}

#[test]
fn schema_with_extra_column_still_agrees() {
    let mut live = provider_schema();
    live.columns.push(copy_trading_db::schema::ColumnDescriptor { name: "note".to_string(), column_type: ColumnType::Text, nullable: true });
    assert!(CopyTradingProviderDbRepository::new("svc".to_string(), &live).is_ok());
}

#[test]
fn schema_missing_column_fails_construction() {
    let mut live = provider_schema();
    live.columns.pop();
    assert_eq!(CopyTradingProviderDbRepository::new("svc".to_string(), &live).err(), Some(RepoError::SchemaMismatch));
}

#[test]
fn schema_wrong_type_fails_construction() {
    let mut live = subscription_schema();
    live.columns[5].column_type = ColumnType::Text;
    assert_eq!(CopyTradingSubscriptionDbRepository::new("svc".to_string(), &live).err(), Some(RepoError::SchemaMismatch));
}

#[test]
fn schema_wrong_key_or_table_fails_construction() {
    let mut live = position_schema();
    live.primary_key_columns = vec!["source_position_id".to_string()];
    assert_eq!(CopyTradingPositionsDbRepository::new("svc".to_string(), &live).err(), Some(RepoError::SchemaMismatch));
    assert_eq!(CopyTradingPositionsDbRepository::new("svc".to_string(), &provider_schema()).err(), Some(RepoError::SchemaMismatch));
}

#[test]
fn schema_missing_index_fails_construction() {
    let mut live = subscription_schema();
    live.indexes.clear();
    assert_eq!(CopyTradingSubscriptionDbRepository::new("svc".to_string(), &live).err(), Some(RepoError::SchemaMismatch));
}

#[test]
fn repository_keeps_service_name() {
    let repo = providers();
    assert_eq!(repo.service_name(), "svc");
}
