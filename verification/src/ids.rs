//! Strongly-typed identifiers (128-bit UUID values).
use std::hash::{Hash, Hasher};
use vstd::prelude::*;

verus! {

/// Draws a fresh random version-4 UUID (`uuid::Uuid::new_v4`) as a
/// 128-bit value. Nothing is stated of the value: it is random.
#[verifier::external_body]
pub(crate) fn fresh_uuid() -> u128 {
    uuid::Uuid::new_v4().as_u128()
}

/// Uniquely identifies a trader account.
#[derive(Debug, Clone, Copy, PartialEq, Eq, Hash, Structural)]
pub struct AccountId(pub u128);

/// Uniquely identifies an order.
#[derive(Debug, Clone, Copy, PartialEq, Eq, Hash, Structural)]
pub struct OrderId(pub u128);

/// Uniquely identifies a fill.
#[derive(Debug, Clone, Copy, PartialEq, Eq, Hash, Structural)]
pub struct TradeId(pub u128);

/// Uniquely identifies a position.
#[derive(Debug, Clone, Copy, PartialEq, Eq, Hash, Structural)]
pub struct PositionId(pub u128);

/// Uniquely identifies a rule.
#[derive(Debug, Clone, Copy, PartialEq, Eq, Hash, Structural)]
pub struct RuleId(pub u128);

/// Uniquely identifies a challenge plan.
#[derive(Debug, Clone, Copy, PartialEq, Eq, Hash, Structural)]
pub struct ChallengeId(pub u128);

/// Uniquely identifies an event of the audit log.
#[derive(Debug, Clone, Copy, PartialEq, Eq, Hash, Structural)]
pub struct EventId(pub u128);

/// Uniquely identifies a rule violation record.
#[derive(Debug, Clone, Copy, PartialEq, Eq, Hash, Structural)]
pub struct ViolationId(pub u128);

/// Uniquely identifies an API session.
#[derive(Debug, Clone, Copy, PartialEq, Eq, Hash, Structural)]
pub struct SessionId(pub u128);

/// Identifies the tenant (prop firm) owning an account, pack or violation.
#[derive(Debug, Clone, Copy, PartialEq, Eq, Hash, Structural)]
pub struct TenantId(pub u128);

impl AccountId {
    /// A fresh random identifier.
    pub fn new() -> AccountId {
        AccountId(fresh_uuid())
    }

    /// Wraps a raw UUID value.
    pub fn from_uuid(u: u128) -> (r: AccountId)
        ensures
            r.0 == u,
    {
        AccountId(u)
    }

    /// The raw UUID value.
    pub fn raw(self) -> (r: u128)
        ensures
            r == self.0,
    {
        self.0
    }
}

impl OrderId {
    /// A fresh random identifier.
    pub fn new() -> OrderId {
        OrderId(fresh_uuid())
    }
}

impl TradeId {
    /// A fresh random identifier.
    pub fn new() -> TradeId {
        TradeId(fresh_uuid())
    }
}

impl PositionId {
    /// A fresh random identifier.
    pub fn new() -> PositionId {
        PositionId(fresh_uuid())
    }
}

impl ChallengeId {
    /// A fresh random identifier.
    pub fn new() -> ChallengeId {
        ChallengeId(fresh_uuid())
    }
}

impl EventId {
    /// A fresh random identifier.
    pub fn new() -> EventId {
        EventId(fresh_uuid())
    }
}

impl ViolationId {
    /// A fresh random identifier.
    pub fn new() -> ViolationId {
        ViolationId(fresh_uuid())
    }
}

impl SessionId {
    /// A fresh random identifier.
    pub fn new() -> SessionId {
        SessionId(fresh_uuid())
    }
}

impl TenantId {
    /// A fresh random identifier.
    pub fn new() -> TenantId {
        TenantId(fresh_uuid())
    }

    /// Wraps a raw UUID value.
    pub fn from_uuid(u: u128) -> (r: TenantId)
        ensures
            r.0 == u,
    {
        TenantId(u)
    }

    /// A deterministic identifier derived from a tenant name (as rule
    /// ids are derived from rule names).
    pub fn named(name: &str) -> (r: TenantId)
        ensures
            r.0 == uuid_from_hash(default_str_hash(name@)),
    {
        TenantId(RuleId::named(name).0)
    }
}

/// The 64-bit value `std::collections::hash_map::DefaultHasher::new()`
/// yields after hashing the string (fixed zero keys).
pub uninterp spec fn default_str_hash(s: Seq<char>) -> u64;

/// Hashes a string with std's `DefaultHasher` (created by `new`, so
/// with fixed keys); the result is named by [`default_str_hash`].
#[verifier::external_body]
fn std_str_hash(s: &str) -> (r: u64)
    ensures
        r == default_str_hash(s@),
{
    let mut h = std::collections::hash_map::DefaultHasher::new();
    s.hash(&mut h);
    h.finish()
}

/// The version-5-style UUID built from a 64-bit hash: the hash's
/// big-endian bytes written twice, with the version nibble of byte 6 set
/// to `5` and the variant bits of byte 8 set to `10`.
pub open spec fn uuid_from_hash(bits: u64) -> u128 {
    let doubled = ((bits as u128) << 64u128) | (bits as u128);
    (doubled & !(0xF0u128 << 72u128) & !(0xC0u128 << 56u128)) | (0x50u128 << 72u128) | (
    0x80u128 << 56u128)
}

impl RuleId {
    /// A fresh random identifier.
    pub fn new() -> RuleId {
        RuleId(fresh_uuid())
    }

    /// A deterministic identifier derived from a rule name.
    pub fn named(name: &str) -> (r: RuleId)
        ensures
            r.0 == uuid_from_hash(default_str_hash(name@)),
    {
        let bits = std_str_hash(name);
        let doubled: u128 = ((bits as u128) << 64u128) | (bits as u128);
        let v: u128 = (doubled & !(0xF0u128 << 72u128) & !(0xC0u128 << 56u128)) | (0x50u128
            << 72u128) | (0x80u128 << 56u128);
        RuleId(v)
    }
}

} // verus!
