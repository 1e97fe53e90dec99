use vstd::prelude::*;
use crate::error::RepoError;

verus! {

/// Whether two string slices hold the same characters.
fn same_text(a: &str, b: &str) -> (r: bool)
    ensures
        r == (a@ == b@),
{
    let x: String = a.to_owned();
    let y: String = b.to_owned();
    x == y
}

/// Lifecycle state of a provider.
#[derive(Debug, Clone, Copy, PartialEq, Eq, Structural)]
pub enum CopyTradingProviderDbStatus {
    Active,
    Paused,
    Disabled,
}

/// Lifecycle state of a subscription.
#[derive(Debug, Clone, Copy, PartialEq, Eq, Structural)]
pub enum CopyTradingSubscriptionDbStatus {
    Active,
    Paused,
}

/// Kind of a copied position.
#[derive(Debug, Clone, Copy, PartialEq, Eq, Structural)]
pub enum CopyTradingPositionType {
    Market,
    Pending,
}

impl CopyTradingProviderDbStatus {
    /// The column token that stores this variant.
    pub open spec fn token(self) -> Seq<char> {
        match self {
            CopyTradingProviderDbStatus::Active => "Active"@,
            CopyTradingProviderDbStatus::Paused => "Paused"@,
            CopyTradingProviderDbStatus::Disabled => "Disabled"@,
        }
    }

    /// The variant that a column token stands for, if any.
    pub open spec fn from_token(s: Seq<char>) -> Option<Self> {
        if s == "Active"@ {
            Some(CopyTradingProviderDbStatus::Active)
        } else if s == "Paused"@ {
            Some(CopyTradingProviderDbStatus::Paused)
        } else if s == "Disabled"@ {
            Some(CopyTradingProviderDbStatus::Disabled)
        } else {
            None
        }
    }

    pub fn encode(&self) -> (r: &'static str)
        ensures
            r@ == self.token(),
    {
        match self {
            CopyTradingProviderDbStatus::Active => "Active",
            CopyTradingProviderDbStatus::Paused => "Paused",
            CopyTradingProviderDbStatus::Disabled => "Disabled",
        }
    }

    pub fn decode(s: &str) -> (r: Result<Self, RepoError>)
        ensures
            r == (match Self::from_token(s@) {
                Some(v) => Ok(v),
                None => Err(RepoError::InvalidEnumValue),
            }),
    {
        if same_text(s, "Active") {
            Ok(CopyTradingProviderDbStatus::Active)
        } else if same_text(s, "Paused") {
            Ok(CopyTradingProviderDbStatus::Paused)
        } else if same_text(s, "Disabled") {
            Ok(CopyTradingProviderDbStatus::Disabled)
        } else {
            Err(RepoError::InvalidEnumValue)
        }
    }
}

impl CopyTradingSubscriptionDbStatus {
    /// The column token that stores this variant.
    pub open spec fn token(self) -> Seq<char> {
        match self {
            CopyTradingSubscriptionDbStatus::Active => "Active"@,
            CopyTradingSubscriptionDbStatus::Paused => "Paused"@,
        }
    }

    /// The variant that a column token stands for, if any.
    pub open spec fn from_token(s: Seq<char>) -> Option<Self> {
        if s == "Active"@ {
            Some(CopyTradingSubscriptionDbStatus::Active)
        } else if s == "Paused"@ {
            Some(CopyTradingSubscriptionDbStatus::Paused)
        } else {
            None
        }
    }

    pub fn encode(&self) -> (r: &'static str)
        ensures
            r@ == self.token(),
    {
        match self {
            CopyTradingSubscriptionDbStatus::Active => "Active",
            CopyTradingSubscriptionDbStatus::Paused => "Paused",
        }
    }

    pub fn decode(s: &str) -> (r: Result<Self, RepoError>)
        ensures
            r == (match Self::from_token(s@) {
                Some(v) => Ok(v),
                None => Err(RepoError::InvalidEnumValue),
            }),
    {
        if same_text(s, "Active") {
            Ok(CopyTradingSubscriptionDbStatus::Active)
        } else if same_text(s, "Paused") {
            Ok(CopyTradingSubscriptionDbStatus::Paused)
        } else {
            Err(RepoError::InvalidEnumValue)
        }
    }
}

impl CopyTradingPositionType {
    /// The column token that stores this variant.
    pub open spec fn token(self) -> Seq<char> {
        match self {
            CopyTradingPositionType::Market => "Market"@,
            CopyTradingPositionType::Pending => "Pending"@,
        }
    }

    /// The variant that a column token stands for, if any.
    pub open spec fn from_token(s: Seq<char>) -> Option<Self> {
        if s == "Market"@ {
            Some(CopyTradingPositionType::Market)
        } else if s == "Pending"@ {
            Some(CopyTradingPositionType::Pending)
        } else {
            None
        }
    }

    pub fn encode(&self) -> (r: &'static str)
        ensures
            r@ == self.token(),
    {
        match self {
            CopyTradingPositionType::Market => "Market",
            CopyTradingPositionType::Pending => "Pending",
        }
    }

    pub fn decode(s: &str) -> (r: Result<Self, RepoError>)
        ensures
            r == (match Self::from_token(s@) {
                Some(v) => Ok(v),
                None => Err(RepoError::InvalidEnumValue),
            }),
    {
        if same_text(s, "Market") {
            Ok(CopyTradingPositionType::Market)
        } else if same_text(s, "Pending") {
            Ok(CopyTradingPositionType::Pending)
        } else {
            Err(RepoError::InvalidEnumValue)
        }
    }
}

/// Decoding the token of any provider status gives that status back, and a
/// token outside the known set is rejected as an invalid enum value.
pub proof fn lemma_provider_status_round_trip(v: CopyTradingProviderDbStatus, s: Seq<char>)
    ensures
        CopyTradingProviderDbStatus::from_token(v.token()) == Some(v),
        (forall|w: CopyTradingProviderDbStatus| w.token() != s)
            ==> CopyTradingProviderDbStatus::from_token(s) is None,
{
    reveal_strlit("Active");
    reveal_strlit("Paused");
    reveal_strlit("Disabled");
    assert("Active"@[0] != "Paused"@[0] && "Active"@[0] != "Disabled"@[0]
        && "Paused"@[0] != "Disabled"@[0]);
    if CopyTradingProviderDbStatus::from_token(s) is Some {
        let w = CopyTradingProviderDbStatus::from_token(s).unwrap();
        assert(w.token() == s);
    }
}

/// Decoding the token of any subscription status gives that status back, and
/// a token outside the known set is rejected as an invalid enum value.
pub proof fn lemma_subscription_status_round_trip(v: CopyTradingSubscriptionDbStatus, s: Seq<char>)
    ensures
        CopyTradingSubscriptionDbStatus::from_token(v.token()) == Some(v),
        (forall|w: CopyTradingSubscriptionDbStatus| w.token() != s)
            ==> CopyTradingSubscriptionDbStatus::from_token(s) is None,
{
    reveal_strlit("Active");
    reveal_strlit("Paused");
    assert("Active"@[0] != "Paused"@[0]);
    if CopyTradingSubscriptionDbStatus::from_token(s) is Some {
        let w = CopyTradingSubscriptionDbStatus::from_token(s).unwrap();
        assert(w.token() == s);
    }
}

/// Decoding the token of any position type gives that type back, and a token
/// outside the known set is rejected as an invalid enum value.
pub proof fn lemma_position_type_round_trip(v: CopyTradingPositionType, s: Seq<char>)
    ensures
        CopyTradingPositionType::from_token(v.token()) == Some(v),
        (forall|w: CopyTradingPositionType| w.token() != s)
            ==> CopyTradingPositionType::from_token(s) is None,
{
    reveal_strlit("Market");
    reveal_strlit("Pending");
    assert("Market"@[0] != "Pending"@[0]);
    if CopyTradingPositionType::from_token(s) is Some {
        let w = CopyTradingPositionType::from_token(s).unwrap();
        assert(w.token() == s);
    }
}

} // verus!
