use vstd::prelude::*;
use crate::codec::{CopyTradingPositionType, CopyTradingProviderDbStatus, CopyTradingSubscriptionDbStatus};
use crate::table::{Record, RowFilter, RowUpdate};

verus! {

/// An optional equality predicate: absent, or equal to the given text.
pub open spec fn text_allows(p: Option<String>, v: Seq<char>) -> bool {
    match p {
        Some(x) => x@ == v,
        None => true,
    }
}

fn text_matches(p: &Option<String>, v: &String) -> (r: bool)
    ensures
        r == text_allows(*p, v@),
{
    match p {
        Some(x) => *x == *v,
        None => true,
    }
}

/// `v` is one of the texts of `xs`.
pub open spec fn listed(xs: Seq<String>, v: Seq<char>) -> bool {
    exists|i: int| 0 <= i < xs.len() && #[trigger] xs[i]@ == v
}

/// An optional membership predicate: absent, or one of the listed texts.
pub open spec fn list_allows(p: Option<Vec<String>>, v: Seq<char>) -> bool {
    match p {
        Some(xs) => listed(xs@, v),
        None => true,
    }
}

fn is_listed(xs: &Vec<String>, v: &String) -> (r: bool)
    ensures
        r == listed(xs@, v@),
{
    let n = xs.len();
    let mut i: usize = 0;
    while i < n
        invariant
            n == xs@.len(),
            i <= n,
            forall|j: int| 0 <= j < i ==> #[trigger] xs@[j]@ != v@,
        decreases n - i,
    {
        if xs[i] == *v {
            assert(xs@[i as int]@ == v@);
            return true;
        }
        i = i + 1;
    }
    false
}

fn list_matches(p: &Option<Vec<String>>, v: &String) -> (r: bool)
    ensures
        r == list_allows(*p, v@),
{
    match p {
        Some(xs) => is_listed(xs, v),
        None => true,
    }
}

/// A provider whose trades are copied. `create_date` counts microseconds
/// since the Unix epoch.
#[derive(Debug, Clone, PartialEq, Eq)]
pub struct CopyTradingProviderDbModel {
    pub id: String,
    pub trader_id: String,
    pub account_id: String,
    pub status: CopyTradingProviderDbStatus,
    pub create_date: i64,
}

/// The change of a provider's status.
#[derive(Debug, Clone, PartialEq, Eq)]
pub struct CopyTradingProviderUpdateDbModel {
    pub id: String,
    pub status: CopyTradingProviderDbStatus,
}

/// Which providers to select; an absent field constrains nothing.
#[derive(Debug, Clone, PartialEq, Eq)]
pub struct CopyTradingProviderWhereDbModel {
    pub id: Option<String>,
    pub trader_id: Option<String>,
    pub account_id: Option<String>,
}

/// A trader's subscription to a provider. The coefficient and the forced
/// stop loss are IEEE-754 double values, held as their bit patterns.
#[derive(Debug, Clone, PartialEq, Eq)]
pub struct CopyTradingSubscriptionDbModel {
    pub id: String,
    pub provider_id: String,
    pub trader_id: String,
    pub account_id: String,
    pub status: CopyTradingSubscriptionDbStatus,
    pub copy_trading_coefficient: u64,
    pub pl_force_stop_loss: Option<u64>,
}

/// The new status, coefficient and stop loss of a subscription.
#[derive(Debug, Clone, PartialEq, Eq)]
pub struct CopyTradingSubscriptionUpdateDbModel {
    pub id: String,
    pub status: CopyTradingSubscriptionDbStatus,
    pub copy_trading_coefficient: u64,
    pub pl_force_stop_loss: Option<u64>,
}

/// Which subscriptions to select; an absent field constrains nothing.
#[derive(Debug, Clone, PartialEq, Eq)]
pub struct CopyTradingSubscriptionWhereDbModel {
    pub id: Option<String>,
    pub provider_id: Option<String>,
}

/// A position opened by copying a provider's position.
#[derive(Debug, Clone, PartialEq, Eq)]
pub struct CopyTradingPositionDbModel {
    pub id: String,
    pub provider_id: String,
    pub subscription_id: String,
    pub source_position_id: String,
    pub position_type: CopyTradingPositionType,
}

/// Which positions to select; `id` lists the accepted ids, an absent field
/// constrains nothing.
#[derive(Debug, Clone, PartialEq, Eq)]
pub struct CopyTradingPositionWhereDbModel {
    pub id: Option<Vec<String>>,
    pub source_position_id: Option<String>,
    pub subscription_id: Option<String>,
}

impl Record for CopyTradingProviderDbModel {
    open spec fn key(&self) -> Seq<char> {
        self.id@
    }

    fn id(&self) -> (r: &String) {
        &self.id
    }

    fn duplicate(&self) -> (r: Self) {
        CopyTradingProviderDbModel {
            id: self.id.clone(),
            trader_id: self.trader_id.clone(),
            account_id: self.account_id.clone(),
            status: self.status,
            create_date: self.create_date,
        }
    }
}

impl Record for CopyTradingSubscriptionDbModel {
    open spec fn key(&self) -> Seq<char> {
        self.id@
    }

    fn id(&self) -> (r: &String) {
        &self.id
    }

    fn duplicate(&self) -> (r: Self) {
        CopyTradingSubscriptionDbModel {
            id: self.id.clone(),
            provider_id: self.provider_id.clone(),
            trader_id: self.trader_id.clone(),
            account_id: self.account_id.clone(),
            status: self.status,
            copy_trading_coefficient: self.copy_trading_coefficient,
            pl_force_stop_loss: self.pl_force_stop_loss,
        }
    }
}

impl Record for CopyTradingPositionDbModel {
    open spec fn key(&self) -> Seq<char> {
        self.id@
    }

    fn id(&self) -> (r: &String) {
        &self.id
    }

    fn duplicate(&self) -> (r: Self) {
        CopyTradingPositionDbModel {
            id: self.id.clone(),
            provider_id: self.provider_id.clone(),
            subscription_id: self.subscription_id.clone(),
            source_position_id: self.source_position_id.clone(),
            position_type: self.position_type,
        }
    }
}

impl RowFilter<CopyTradingProviderDbModel> for CopyTradingProviderWhereDbModel {
    open spec fn selects(&self, row: CopyTradingProviderDbModel) -> bool {
        text_allows(self.id, row.id@) && text_allows(self.trader_id, row.trader_id@)
            && text_allows(self.account_id, row.account_id@)
    }

    open spec fn constrains(&self) -> bool {
        self.id is Some || self.trader_id is Some || self.account_id is Some
    }

    fn matches(&self, row: &CopyTradingProviderDbModel) -> (r: bool) {
        text_matches(&self.id, &row.id) && text_matches(&self.trader_id, &row.trader_id)
            && text_matches(&self.account_id, &row.account_id)
    }

    fn is_unconstrained(&self) -> (r: bool) {
        self.id.is_none() && self.trader_id.is_none() && self.account_id.is_none()
    }
}

impl RowFilter<CopyTradingSubscriptionDbModel> for CopyTradingSubscriptionWhereDbModel {
    open spec fn selects(&self, row: CopyTradingSubscriptionDbModel) -> bool {
        text_allows(self.id, row.id@) && text_allows(self.provider_id, row.provider_id@)
    }

    open spec fn constrains(&self) -> bool {
        self.id is Some || self.provider_id is Some
    }

    fn matches(&self, row: &CopyTradingSubscriptionDbModel) -> (r: bool) {
        text_matches(&self.id, &row.id) && text_matches(&self.provider_id, &row.provider_id)
    }

    fn is_unconstrained(&self) -> (r: bool) {
        self.id.is_none() && self.provider_id.is_none()
    }
}

impl RowFilter<CopyTradingPositionDbModel> for CopyTradingPositionWhereDbModel {
    open spec fn selects(&self, row: CopyTradingPositionDbModel) -> bool {
        list_allows(self.id, row.id@) && text_allows(self.source_position_id, row.source_position_id@)
            && text_allows(self.subscription_id, row.subscription_id@)
    }

    open spec fn constrains(&self) -> bool {
        self.id is Some || self.source_position_id is Some || self.subscription_id is Some
    }

    fn matches(&self, row: &CopyTradingPositionDbModel) -> (r: bool) {
        list_matches(&self.id, &row.id) && text_matches(
            &self.source_position_id,
            &row.source_position_id,
        ) && text_matches(&self.subscription_id, &row.subscription_id)
    }

    fn is_unconstrained(&self) -> (r: bool) {
        self.id.is_none() && self.source_position_id.is_none() && self.subscription_id.is_none()
    }
}

impl RowUpdate<CopyTradingProviderDbModel> for CopyTradingProviderUpdateDbModel {
    open spec fn target(&self) -> Seq<char> {
        self.id@
    }

    open spec fn applied(&self, row: CopyTradingProviderDbModel) -> CopyTradingProviderDbModel {
        CopyTradingProviderDbModel { status: self.status, ..row }
    }

    fn target_id(&self) -> (r: &String) {
        &self.id
    }

    fn apply(&self, row: &CopyTradingProviderDbModel) -> (r: CopyTradingProviderDbModel) {
        CopyTradingProviderDbModel {
            id: row.id.clone(),
            trader_id: row.trader_id.clone(),
            account_id: row.account_id.clone(),
            status: self.status,
            create_date: row.create_date,
        }
    }
}

impl RowUpdate<CopyTradingSubscriptionDbModel> for CopyTradingSubscriptionUpdateDbModel {
    open spec fn target(&self) -> Seq<char> {
        self.id@
    }

    open spec fn applied(&self, row: CopyTradingSubscriptionDbModel) -> CopyTradingSubscriptionDbModel {
        CopyTradingSubscriptionDbModel {
            status: self.status,
            copy_trading_coefficient: self.copy_trading_coefficient,
            pl_force_stop_loss: self.pl_force_stop_loss,
            ..row
        }
    }

    fn target_id(&self) -> (r: &String) {
        &self.id
    }

    fn apply(&self, row: &CopyTradingSubscriptionDbModel) -> (r: CopyTradingSubscriptionDbModel) {
        CopyTradingSubscriptionDbModel {
            id: row.id.clone(),
            provider_id: row.provider_id.clone(),
            trader_id: row.trader_id.clone(),
            account_id: row.account_id.clone(),
            status: self.status,
            copy_trading_coefficient: self.copy_trading_coefficient,
            pl_force_stop_loss: self.pl_force_stop_loss,
        }
    }
}

} // verus!
