//! The events that the bond contract publishes: for each one its routing name,
//! the addresses it is filtered by and the payload it carries.
//!
//! An event's topics are its name, as a host symbol, followed by its topic
//! addresses; bond lifecycle events are `[name, identity]`, so that indexers can
//! follow one identity by its second topic.

use vstd::prelude::*;
use soroban_sdk::{Address, Env, Symbol};
use crate::access_control::{AccessError, Role};
use crate::claims::{ClaimResult, ClaimType, PendingClaim};
use crate::sdk::{symbol_new, symbol_text};
use crate::symbols::is_valid_symbol;
use crate::upgrade_auth::UpgradeRole;

verus! {

/// The kinds of event the contract publishes, one routing name each.
#[derive(Clone, Copy, Debug, PartialEq, Eq, Structural)]
pub enum EventKind {
    BondCreated,
    BondIncreased,
    BondWithdrawn,
    BondSlashed,
    ClaimAdded,
    ClaimsProcessed,
    ClaimsExpired,
    UpgradeAuthInitialized,
    UpgradeAuthGranted,
    UpgradeAuthRevoked,
    UpgradeProposed,
    UpgradeApproved,
    UpgradeExecuted,
    AccessDenied,
}

impl EventKind {
    /// The routing name of the kind: the text of its first topic.
    pub open spec fn routing_name(self) -> Seq<char> {
        match self {
            EventKind::BondCreated => "bond_created"@,
            EventKind::BondIncreased => "bond_increased"@,
            EventKind::BondWithdrawn => "bond_withdrawn"@,
            EventKind::BondSlashed => "bond_slashed"@,
            EventKind::ClaimAdded => "claim_added"@,
            EventKind::ClaimsProcessed => "claims_processed"@,
            EventKind::ClaimsExpired => "claims_expired"@,
            EventKind::UpgradeAuthInitialized => "upgrade_auth_initialized"@,
            EventKind::UpgradeAuthGranted => "upgrade_auth_granted"@,
            EventKind::UpgradeAuthRevoked => "upgrade_auth_revoked"@,
            EventKind::UpgradeProposed => "upgrade_proposed"@,
            EventKind::UpgradeApproved => "upgrade_approved"@,
            EventKind::UpgradeExecuted => "upgrade_executed"@,
            EventKind::AccessDenied => "access_denied"@,
        }
    }

    /// Whether the kind belongs to the bond lifecycle (created, increased,
    /// withdrawn, slashed).
    pub open spec fn is_bond_lifecycle(self) -> bool {
        ||| self == EventKind::BondCreated
        ||| self == EventKind::BondIncreased
        ||| self == EventKind::BondWithdrawn
        ||| self == EventKind::BondSlashed
    }

    /// The routing name of the kind.
    pub fn name(&self) -> (s: &'static str)
        ensures
            s@ == self.routing_name(),
    {
        match self {
            EventKind::BondCreated => "bond_created",
            EventKind::BondIncreased => "bond_increased",
            EventKind::BondWithdrawn => "bond_withdrawn",
            EventKind::BondSlashed => "bond_slashed",
            EventKind::ClaimAdded => "claim_added",
            EventKind::ClaimsProcessed => "claims_processed",
            EventKind::ClaimsExpired => "claims_expired",
            EventKind::UpgradeAuthInitialized => "upgrade_auth_initialized",
            EventKind::UpgradeAuthGranted => "upgrade_auth_granted",
            EventKind::UpgradeAuthRevoked => "upgrade_auth_revoked",
            EventKind::UpgradeProposed => "upgrade_proposed",
            EventKind::UpgradeApproved => "upgrade_approved",
            EventKind::UpgradeExecuted => "upgrade_executed",
            EventKind::AccessDenied => "access_denied",
        }
    }

    /// The host symbol of the routing name, made in `env`. Never panics: every
    /// routing name is a valid symbol (`lemma_routing_name_is_symbol`).
    pub fn symbol(&self, env: &Env) -> (sym: Symbol)
        ensures
            symbol_text(sym) == self.routing_name(),
    {
        let text = self.name();
        proof {
            lemma_routing_name_is_symbol(*self);
        }
        symbol_new(env, text)
    }
}

/// Every routing name is text that the host accepts as a symbol, so turning
/// it into the first topic never fails.
pub proof fn lemma_routing_name_is_symbol(kind: EventKind)
    ensures
        is_valid_symbol(kind.routing_name()),
{
    reveal_strlit("bond_created");
    reveal_strlit("bond_increased");
    reveal_strlit("bond_withdrawn");
    reveal_strlit("bond_slashed");
    reveal_strlit("claim_added");
    reveal_strlit("claims_processed");
    reveal_strlit("claims_expired");
    reveal_strlit("upgrade_auth_initialized");
    reveal_strlit("upgrade_auth_granted");
    reveal_strlit("upgrade_auth_revoked");
    reveal_strlit("upgrade_proposed");
    reveal_strlit("upgrade_approved");
    reveal_strlit("upgrade_executed");
    reveal_strlit("access_denied");
}

/// An event as the contract publishes it. The reference fields borrow the
/// caller's values, so the event carries exactly what it was given.
#[allow(inconsistent_fields)]
pub enum ContractEvent<'a> {
    BondCreated { identity: &'a Address, amount: i128, duration: u64, is_rolling: bool },
    BondIncreased { identity: &'a Address, added_amount: i128, new_total: i128 },
    BondWithdrawn { identity: &'a Address, amount_withdrawn: i128, remaining: i128 },
    BondSlashed { identity: &'a Address, slash_amount: i128, total_slashed: i128 },
    ClaimAdded { user: &'a Address, claim_type: ClaimType, amount: i128, source_id: u64 },
    ClaimsProcessed {
        user: &'a Address,
        processed_count: u32,
        total_amount: i128,
        claim_types: &'a Vec<ClaimType>,
    },
    ClaimsExpired { user: &'a Address, expired_count: u32, expired_amount: i128 },
    UpgradeAuthInitialized { admin: &'a Address },
    UpgradeAuthGranted { admin: &'a Address, address: &'a Address, role: UpgradeRole },
    UpgradeAuthRevoked { admin: &'a Address, address: &'a Address },
    UpgradeProposed { proposer: &'a Address, proposal_id: u64, new_implementation: &'a Address },
    UpgradeApproved { approver: &'a Address, proposal_id: u64 },
    UpgradeExecuted {
        executor: &'a Address,
        new_implementation: &'a Address,
        proposal_id: Option<u64>,
    },
    AccessDenied { caller: &'a Address, role: Role },
}

impl<'a> ContractEvent<'a> {
    /// The kind of the event.
    pub open spec fn event_kind(self) -> EventKind {
        match self {
            ContractEvent::BondCreated { .. } => EventKind::BondCreated,
            ContractEvent::BondIncreased { .. } => EventKind::BondIncreased,
            ContractEvent::BondWithdrawn { .. } => EventKind::BondWithdrawn,
            ContractEvent::BondSlashed { .. } => EventKind::BondSlashed,
            ContractEvent::ClaimAdded { .. } => EventKind::ClaimAdded,
            ContractEvent::ClaimsProcessed { .. } => EventKind::ClaimsProcessed,
            ContractEvent::ClaimsExpired { .. } => EventKind::ClaimsExpired,
            ContractEvent::UpgradeAuthInitialized { .. } => EventKind::UpgradeAuthInitialized,
            ContractEvent::UpgradeAuthGranted { .. } => EventKind::UpgradeAuthGranted,
            ContractEvent::UpgradeAuthRevoked { .. } => EventKind::UpgradeAuthRevoked,
            ContractEvent::UpgradeProposed { .. } => EventKind::UpgradeProposed,
            ContractEvent::UpgradeApproved { .. } => EventKind::UpgradeApproved,
            ContractEvent::UpgradeExecuted { .. } => EventKind::UpgradeExecuted,
            ContractEvent::AccessDenied { .. } => EventKind::AccessDenied,
        }
    }

    /// The addresses that follow the name among the event's topics.
    pub open spec fn topic_addresses(self) -> Seq<&'a Address> {
        match self {
            ContractEvent::BondCreated { identity, .. } => seq![identity],
            ContractEvent::BondIncreased { identity, .. } => seq![identity],
            ContractEvent::BondWithdrawn { identity, .. } => seq![identity],
            ContractEvent::BondSlashed { identity, .. } => seq![identity],
            ContractEvent::ClaimAdded { user, .. } => seq![user],
            ContractEvent::ClaimsProcessed { user, .. } => seq![user],
            ContractEvent::ClaimsExpired { user, .. } => seq![user],
            ContractEvent::UpgradeAuthInitialized { admin } => seq![admin],
            ContractEvent::UpgradeAuthGranted { admin, address, .. } => seq![admin, address],
            ContractEvent::UpgradeAuthRevoked { admin, address } => seq![admin, address],
            ContractEvent::UpgradeProposed { proposer, .. } => seq![proposer],
            ContractEvent::UpgradeApproved { approver, .. } => seq![approver],
            ContractEvent::UpgradeExecuted { executor, new_implementation, .. } => seq![
                executor,
                new_implementation,
            ],
            ContractEvent::AccessDenied { .. } => seq![],
        }
    }

    /// The kind of the event.
    pub fn kind(&self) -> (k: EventKind)
        ensures
            k == self.event_kind(),
    {
        match self {
            ContractEvent::BondCreated { .. } => EventKind::BondCreated,
            ContractEvent::BondIncreased { .. } => EventKind::BondIncreased,
            ContractEvent::BondWithdrawn { .. } => EventKind::BondWithdrawn,
            ContractEvent::BondSlashed { .. } => EventKind::BondSlashed,
            ContractEvent::ClaimAdded { .. } => EventKind::ClaimAdded,
            ContractEvent::ClaimsProcessed { .. } => EventKind::ClaimsProcessed,
            ContractEvent::ClaimsExpired { .. } => EventKind::ClaimsExpired,
            ContractEvent::UpgradeAuthInitialized { .. } => EventKind::UpgradeAuthInitialized,
            ContractEvent::UpgradeAuthGranted { .. } => EventKind::UpgradeAuthGranted,
            ContractEvent::UpgradeAuthRevoked { .. } => EventKind::UpgradeAuthRevoked,
            ContractEvent::UpgradeProposed { .. } => EventKind::UpgradeProposed,
            ContractEvent::UpgradeApproved { .. } => EventKind::UpgradeApproved,
            ContractEvent::UpgradeExecuted { .. } => EventKind::UpgradeExecuted,
            ContractEvent::AccessDenied { .. } => EventKind::AccessDenied,
        }
    }

    /// The addresses that follow the name among the event's topics, in order.
    pub fn addresses(&self) -> (v: Vec<&'a Address>)
        ensures
            v@ == self.topic_addresses(),
    {
        let mut v: Vec<&'a Address> = Vec::new();
        match self {
            ContractEvent::BondCreated { identity, .. } => v.push(*identity),
            ContractEvent::BondIncreased { identity, .. } => v.push(*identity),
            ContractEvent::BondWithdrawn { identity, .. } => v.push(*identity),
            ContractEvent::BondSlashed { identity, .. } => v.push(*identity),
            ContractEvent::ClaimAdded { user, .. } => v.push(*user),
            ContractEvent::ClaimsProcessed { user, .. } => v.push(*user),
            ContractEvent::ClaimsExpired { user, .. } => v.push(*user),
            ContractEvent::UpgradeAuthInitialized { admin } => v.push(*admin),
            ContractEvent::UpgradeAuthGranted { admin, address, .. } => {
                v.push(*admin);
                v.push(*address);
            },
            ContractEvent::UpgradeAuthRevoked { admin, address } => {
                v.push(*admin);
                v.push(*address);
            },
            ContractEvent::UpgradeProposed { proposer, .. } => v.push(*proposer),
            ContractEvent::UpgradeApproved { approver, .. } => v.push(*approver),
            ContractEvent::UpgradeExecuted { executor, new_implementation, .. } => {
                v.push(*executor);
                v.push(*new_implementation);
            },
            ContractEvent::AccessDenied { .. } => {},
        }
        v
    }
}

/// The data an event publishes, one variant per layout; each tuple variant
/// lists the values in the order they are published.
#[allow(inconsistent_fields)]
pub enum EventData<'a> {
    /// `(amount, duration, is_rolling)`.
    AmountDurationRolling(i128, u64, bool),
    /// Two amounts: `(added_amount, new_total)`, `(amount_withdrawn, remaining)`
    /// or `(slash_amount, total_slashed)`.
    AmountPair(i128, i128),
    /// `(claim_type, amount, source_id)`.
    Claim(ClaimType, i128, u64),
    /// `(processed_count, total_amount, claim_types)`.
    ClaimsSummary(u32, i128, &'a Vec<ClaimType>),
    /// `(expired_count, expired_amount)`.
    CountAmount(u32, i128),
    /// No data (the unit value).
    Unit,
    /// The role alone.
    Role(UpgradeRole),
    /// `(proposal_id, new_implementation)`.
    ProposalAndImplementation(u64, &'a Address),
    /// The proposal id alone.
    ProposalId(u64),
    /// The proposal id, if any, alone.
    OptionalProposalId(Option<u64>),
    /// `(caller, role symbol, role code)`; the role symbol is `Role::symbol`.
    Denial(&'a Address, Role, u32),
}

/// One topic of a published event.
pub enum Topic<'a> {
    /// A symbol holding this text.
    Name(Seq<char>),
    /// An address.
    Account(&'a Address),
}

/// An event in the form the host receives it: the topics are `name` followed
/// by `addresses` in order, and the data is `data`.
pub struct PublishedEvent<'a> {
    pub name: Symbol,
    pub addresses: Vec<&'a Address>,
    pub data: EventData<'a>,
}

impl<'a> PublishedEvent<'a> {
    /// The published topics, in order.
    pub open spec fn topics(self) -> Seq<Topic<'a>> {
        seq![Topic::Name(symbol_text(self.name))] + self.addresses@.map_values(
            |a: &'a Address| Topic::Account(a),
        )
    }
}

impl<'a> ContractEvent<'a> {
    /// The topics the event is published under: its routing name, then its
    /// topic addresses.
    pub open spec fn event_topics(self) -> Seq<Topic<'a>> {
        seq![Topic::Name(self.event_kind().routing_name())] + self.topic_addresses().map_values(
            |a: &'a Address| Topic::Account(a),
        )
    }

    /// The data the event is published with.
    pub open spec fn event_data(self) -> EventData<'a> {
        match self {
            ContractEvent::BondCreated { amount, duration, is_rolling, .. } =>
                EventData::AmountDurationRolling(amount, duration, is_rolling),
            ContractEvent::BondIncreased { added_amount, new_total, .. } => EventData::AmountPair(
                added_amount,
                new_total,
            ),
            ContractEvent::BondWithdrawn { amount_withdrawn, remaining, .. } =>
                EventData::AmountPair(amount_withdrawn, remaining),
            ContractEvent::BondSlashed { slash_amount, total_slashed, .. } => EventData::AmountPair(
                slash_amount,
                total_slashed,
            ),
            ContractEvent::ClaimAdded { claim_type, amount, source_id, .. } => EventData::Claim(
                claim_type,
                amount,
                source_id,
            ),
            ContractEvent::ClaimsProcessed { processed_count, total_amount, claim_types, .. } =>
                EventData::ClaimsSummary(processed_count, total_amount, claim_types),
            ContractEvent::ClaimsExpired { expired_count, expired_amount, .. } =>
                EventData::CountAmount(expired_count, expired_amount),
            ContractEvent::UpgradeAuthInitialized { .. } => EventData::Unit,
            ContractEvent::UpgradeAuthGranted { role, .. } => EventData::Role(role),
            ContractEvent::UpgradeAuthRevoked { .. } => EventData::Unit,
            ContractEvent::UpgradeProposed { proposal_id, new_implementation, .. } =>
                EventData::ProposalAndImplementation(proposal_id, new_implementation),
            ContractEvent::UpgradeApproved { proposal_id, .. } => EventData::ProposalId(
                proposal_id,
            ),
            ContractEvent::UpgradeExecuted { proposal_id, .. } => EventData::OptionalProposalId(
                proposal_id,
            ),
            ContractEvent::AccessDenied { caller, role } => EventData::Denial(
                caller,
                role,
                role.role_code(),
            ),
        }
    }

    /// The data the event is published with.
    pub fn payload(&self) -> (d: EventData<'a>)
        ensures
            d == self.event_data(),
    {
        match self {
            ContractEvent::BondCreated { amount, duration, is_rolling, .. } =>
                EventData::AmountDurationRolling(*amount, *duration, *is_rolling),
            ContractEvent::BondIncreased { added_amount, new_total, .. } => EventData::AmountPair(
                *added_amount,
                *new_total,
            ),
            ContractEvent::BondWithdrawn { amount_withdrawn, remaining, .. } =>
                EventData::AmountPair(*amount_withdrawn, *remaining),
            ContractEvent::BondSlashed { slash_amount, total_slashed, .. } => EventData::AmountPair(
                *slash_amount,
                *total_slashed,
            ),
            ContractEvent::ClaimAdded { claim_type, amount, source_id, .. } => EventData::Claim(
                *claim_type,
                *amount,
                *source_id,
            ),
            ContractEvent::ClaimsProcessed { processed_count, total_amount, claim_types, .. } =>
                EventData::ClaimsSummary(*processed_count, *total_amount, *claim_types),
            ContractEvent::ClaimsExpired { expired_count, expired_amount, .. } =>
                EventData::CountAmount(*expired_count, *expired_amount),
            ContractEvent::UpgradeAuthInitialized { .. } => EventData::Unit,
            ContractEvent::UpgradeAuthGranted { role, .. } => EventData::Role(*role),
            ContractEvent::UpgradeAuthRevoked { .. } => EventData::Unit,
            ContractEvent::UpgradeProposed { proposal_id, new_implementation, .. } =>
                EventData::ProposalAndImplementation(*proposal_id, *new_implementation),
            ContractEvent::UpgradeApproved { proposal_id, .. } => EventData::ProposalId(
                *proposal_id,
            ),
            ContractEvent::UpgradeExecuted { proposal_id, .. } => EventData::OptionalProposalId(
                *proposal_id,
            ),
            ContractEvent::AccessDenied { caller, role } => EventData::Denial(
                *caller,
                *role,
                role.code(),
            ),
        }
    }

    /// The event in the form the host receives it, its name made in `env`.
    pub fn published(&self, env: &Env) -> (p: PublishedEvent<'a>)
        ensures
            p.topics() == self.event_topics(),
            p.addresses@ == self.topic_addresses(),
            symbol_text(p.name) == self.event_kind().routing_name(),
            p.data == self.event_data(),
    {
        let name = self.kind().symbol(env);
        let addresses = self.addresses();
        let data = self.payload();
        let p = PublishedEvent { name, addresses, data };
        assert(p.topics() =~= self.event_topics());
        p
    }
}

/// What a refused check publishes: `access_denied` naming the caller and the
/// refused role when a role was refused, nothing when no admin is set.
pub fn refusal_report<'a>(caller: &'a Address, err: AccessError) -> (ev: Option<ContractEvent<'a>>)
    ensures
        ev == refusal_report_spec(caller, err),
{
    match err {
        AccessError::Unauthorized(role) => Some(access_denied(caller, role)),
        AccessError::NotInitialized => None,
    }
}

/// Emitted when a new bond is created: topics `["bond_created", identity]`,
/// data `(amount, duration, is_rolling)`.
pub fn bond_created<'a>(identity: &'a Address, amount: i128, duration: u64, is_rolling: bool) -> (ev:
    ContractEvent<'a>)
    ensures
        ev == (ContractEvent::BondCreated { identity, amount, duration, is_rolling }),
{
    ContractEvent::BondCreated { identity, amount, duration, is_rolling }
}

/// Emitted when a bond is topped up: topics `["bond_increased", identity]`,
/// data `(added_amount, new_total)`.
pub fn bond_increased<'a>(identity: &'a Address, added_amount: i128, new_total: i128) -> (ev:
    ContractEvent<'a>)
    ensures
        ev == (ContractEvent::BondIncreased { identity, added_amount, new_total }),
{
    ContractEvent::BondIncreased { identity, added_amount, new_total }
}

/// Emitted when funds are withdrawn from a bond: topics
/// `["bond_withdrawn", identity]`, data `(amount_withdrawn, remaining)`.
pub fn bond_withdrawn<'a>(identity: &'a Address, amount_withdrawn: i128, remaining: i128) -> (ev:
    ContractEvent<'a>)
    ensures
        ev == (ContractEvent::BondWithdrawn { identity, amount_withdrawn, remaining }),
{
    ContractEvent::BondWithdrawn { identity, amount_withdrawn, remaining }
}

/// Emitted when a bond is slashed: topics `["bond_slashed", identity]`,
/// data `(slash_amount, total_slashed)`.
pub fn bond_slashed<'a>(identity: &'a Address, slash_amount: i128, total_slashed: i128) -> (ev:
    ContractEvent<'a>)
    ensures
        ev == (ContractEvent::BondSlashed { identity, slash_amount, total_slashed }),
{
    ContractEvent::BondSlashed { identity, slash_amount, total_slashed }
}

/// Emitted when a claim is added for a user: topics `["claim_added", user]`,
/// data `(claim_type, amount, source_id)` of the claim.
pub fn claim_added<'a>(user: &'a Address, claim: &PendingClaim) -> (ev: ContractEvent<'a>)
    ensures
        ev == (ContractEvent::ClaimAdded {
            user,
            claim_type: claim.claim_type,
            amount: claim.amount,
            source_id: claim.source_id,
        }),
{
    ContractEvent::ClaimAdded {
        user,
        claim_type: claim.claim_type,
        amount: claim.amount,
        source_id: claim.source_id,
    }
}

/// Emitted when a user's claims are processed: topics
/// `["claims_processed", user]`, data `(processed_count, total_amount,
/// claim_types)` of the result. The processed claims themselves are not part
/// of the event.
pub fn claims_processed<'a>(
    user: &'a Address,
    result: &'a ClaimResult,
    _processed_claims: &Vec<PendingClaim>,
) -> (ev: ContractEvent<'a>)
    ensures
        ev == (ContractEvent::ClaimsProcessed {
            user,
            processed_count: result.processed_count,
            total_amount: result.total_amount,
            claim_types: &result.claim_types,
        }),
{
    ContractEvent::ClaimsProcessed {
        user,
        processed_count: result.processed_count,
        total_amount: result.total_amount,
        claim_types: &result.claim_types,
    }
}

/// Emitted when expired claims are cleaned up: topics
/// `["claims_expired", user]`, data `(expired_count, expired_amount)`.
pub fn claims_expired<'a>(user: &'a Address, expired_count: u32, expired_amount: i128) -> (ev:
    ContractEvent<'a>)
    ensures
        ev == (ContractEvent::ClaimsExpired { user, expired_count, expired_amount }),
{
    ContractEvent::ClaimsExpired { user, expired_count, expired_amount }
}

/// Emitted when upgrade authorization is initialized: topics
/// `["upgrade_auth_initialized", admin]`, no data.
pub fn upgrade_auth_initialized<'a>(admin: &'a Address) -> (ev: ContractEvent<'a>)
    ensures
        ev == (ContractEvent::UpgradeAuthInitialized { admin }),
{
    ContractEvent::UpgradeAuthInitialized { admin }
}

/// Emitted when upgrade authorization is granted: topics
/// `["upgrade_auth_granted", admin, address]`, data `role`.
pub fn upgrade_auth_granted<'a>(admin: &'a Address, address: &'a Address, role: UpgradeRole) -> (ev:
    ContractEvent<'a>)
    ensures
        ev == (ContractEvent::UpgradeAuthGranted { admin, address, role }),
{
    ContractEvent::UpgradeAuthGranted { admin, address, role }
}

/// Emitted when upgrade authorization is revoked: topics
/// `["upgrade_auth_revoked", admin, address]`, no data.
pub fn upgrade_auth_revoked<'a>(admin: &'a Address, address: &'a Address) -> (ev: ContractEvent<'a>)
    ensures
        ev == (ContractEvent::UpgradeAuthRevoked { admin, address }),
{
    ContractEvent::UpgradeAuthRevoked { admin, address }
}

/// Emitted when an upgrade is proposed: topics `["upgrade_proposed", proposer]`,
/// data `(proposal_id, new_implementation)`.
pub fn upgrade_proposed<'a>(
    proposer: &'a Address,
    proposal_id: u64,
    new_implementation: &'a Address,
) -> (ev: ContractEvent<'a>)
    ensures
        ev == (ContractEvent::UpgradeProposed { proposer, proposal_id, new_implementation }),
{
    ContractEvent::UpgradeProposed { proposer, proposal_id, new_implementation }
}

/// Emitted when an upgrade proposal is approved: topics
/// `["upgrade_approved", approver]`, data `proposal_id`.
pub fn upgrade_approved<'a>(approver: &'a Address, proposal_id: u64) -> (ev: ContractEvent<'a>)
    ensures
        ev == (ContractEvent::UpgradeApproved { approver, proposal_id }),
{
    ContractEvent::UpgradeApproved { approver, proposal_id }
}

/// Emitted when an upgrade is executed: topics
/// `["upgrade_executed", executor, new_implementation]`, data `proposal_id`
/// (if any).
pub fn upgrade_executed<'a>(
    executor: &'a Address,
    new_implementation: &'a Address,
    proposal_id: Option<u64>,
) -> (ev: ContractEvent<'a>)
    ensures
        ev == (ContractEvent::UpgradeExecuted { executor, new_implementation, proposal_id }),
{
    ContractEvent::UpgradeExecuted { executor, new_implementation, proposal_id }
}

/// Emitted when a caller is refused a role: topics `["access_denied"]`,
/// data `(caller, role name, role code)`.
pub fn access_denied<'a>(caller: &'a Address, role: Role) -> (ev: ContractEvent<'a>)
    ensures
        ev == (ContractEvent::AccessDenied { caller, role }),
{
    ContractEvent::AccessDenied { caller, role }
}

/// Distinct kinds have distinct routing names, so the first topic alone tells
/// which event was published.
pub proof fn lemma_routing_names_distinct(a: EventKind, b: EventKind)
    ensures
        a.routing_name() == b.routing_name() ==> a == b,
{
    reveal_strlit("bond_created");
    reveal_strlit("bond_increased");
    reveal_strlit("bond_withdrawn");
    reveal_strlit("bond_slashed");
    reveal_strlit("claim_added");
    reveal_strlit("claims_processed");
    reveal_strlit("claims_expired");
    reveal_strlit("upgrade_auth_initialized");
    reveal_strlit("upgrade_auth_granted");
    reveal_strlit("upgrade_auth_revoked");
    reveal_strlit("upgrade_proposed");
    reveal_strlit("upgrade_approved");
    reveal_strlit("upgrade_executed");
    reveal_strlit("access_denied");
    let (x, y) = (a.routing_name(), b.routing_name());
    if x == y {
        assert(x[0] == y[0]);
        assert(x[5] == y[5]);
        if x.len() > 13 {
            assert(x[8] == y[8]);
            assert(x[13] == y[13]);
        }
    }
}

/// Every bond lifecycle event is filed under its identity: created, increased,
/// withdrawn or slashed, its topics are its name followed by the identity alone,
/// and its data lists its amounts in the documented order.
pub proof fn lemma_bond_events_keyed_by_identity(
    identity: &Address,
    first: i128,
    second: i128,
    duration: u64,
    is_rolling: bool,
)
    ensures
        (ContractEvent::BondCreated { identity, amount: first, duration, is_rolling }).event_topics()
            == seq![Topic::Name("bond_created"@), Topic::Account(identity)],
        (ContractEvent::BondCreated { identity, amount: first, duration, is_rolling }).event_data()
            == EventData::AmountDurationRolling(first, duration, is_rolling),
        (ContractEvent::BondIncreased { identity, added_amount: first, new_total: second }).event_topics()
            == seq![Topic::Name("bond_increased"@), Topic::Account(identity)],
        (ContractEvent::BondIncreased { identity, added_amount: first, new_total: second }).event_data()
            == EventData::AmountPair(first, second),
        (ContractEvent::BondWithdrawn { identity, amount_withdrawn: first, remaining: second }).event_topics()
            == seq![Topic::Name("bond_withdrawn"@), Topic::Account(identity)],
        (ContractEvent::BondWithdrawn { identity, amount_withdrawn: first, remaining: second }).event_data()
            == EventData::AmountPair(first, second),
        (ContractEvent::BondSlashed { identity, slash_amount: first, total_slashed: second }).event_topics()
            == seq![Topic::Name("bond_slashed"@), Topic::Account(identity)],
        (ContractEvent::BondSlashed { identity, slash_amount: first, total_slashed: second }).event_data()
            == EventData::AmountPair(first, second),
        (ContractEvent::BondCreated { identity, amount: first, duration, is_rolling }).event_kind()
            == EventKind::BondCreated,
        (ContractEvent::BondIncreased { identity, added_amount: first, new_total: second }).event_kind()
            == EventKind::BondIncreased,
        (ContractEvent::BondWithdrawn { identity, amount_withdrawn: first, remaining: second }).event_kind()
            == EventKind::BondWithdrawn,
        (ContractEvent::BondSlashed { identity, slash_amount: first, total_slashed: second }).event_kind()
            == EventKind::BondSlashed,
        forall|ev: ContractEvent| #[trigger] ev.event_kind().is_bond_lifecycle() ==> ev.topic_addresses().len() == 1,
{
    let (a, b, c, d) = (
        ContractEvent::BondCreated { identity, amount: first, duration, is_rolling },
        ContractEvent::BondIncreased { identity, added_amount: first, new_total: second },
        ContractEvent::BondWithdrawn { identity, amount_withdrawn: first, remaining: second },
        ContractEvent::BondSlashed { identity, slash_amount: first, total_slashed: second },
    );
    assert(a.event_topics() =~= seq![Topic::Name("bond_created"@), Topic::Account(identity)]);
    assert(b.event_topics() =~= seq![Topic::Name("bond_increased"@), Topic::Account(identity)]);
    assert(c.event_topics() =~= seq![Topic::Name("bond_withdrawn"@), Topic::Account(identity)]);
    assert(d.event_topics() =~= seq![Topic::Name("bond_slashed"@), Topic::Account(identity)]);
}

/// A refused role is reported by exactly one `access_denied` event, published
/// under that name alone with data `(caller, role, role code)`; a check refused
/// because no admin is set is reported by none.
pub proof fn lemma_refusal_report_layout(caller: &Address, err: AccessError)
    ensures
        match err {
            AccessError::Unauthorized(role) => {
                &&& refusal_report_spec(caller, err) is Some
                &&& refusal_report_spec(caller, err)->0.event_topics() == seq![
                    Topic::Name("access_denied"@),
                ]
                &&& refusal_report_spec(caller, err)->0.event_data() == EventData::Denial(
                    caller,
                    role,
                    role.role_code(),
                )
            },
            AccessError::NotInitialized => refusal_report_spec(caller, err) is None,
        },
{
    if let AccessError::Unauthorized(role) = err {
        let ev = ContractEvent::AccessDenied { caller, role };
        assert(ev.event_topics() =~= seq![Topic::Name("access_denied"@)]);
    }
}

/// What `refusal_report` returns.
pub open spec fn refusal_report_spec<'a>(caller: &'a Address, err: AccessError) -> Option<
    ContractEvent<'a>,
> {
    match err {
        AccessError::Unauthorized(role) => Some(ContractEvent::AccessDenied { caller, role }),
        AccessError::NotInitialized => None,
    }
}

/// Each claim event is routed by its own name, filed under the user, and
/// publishes exactly the values it was given, in the documented order:
/// `claim_added` the claim's type, amount and source; `claims_processed` the
/// processed count, the total amount claimed and the claim types;
/// `claims_expired` the expired count and amount.
pub proof fn lemma_claim_events_layout(
    user: &Address,
    claim_type: ClaimType,
    amount: i128,
    source_id: u64,
    processed_count: u32,
    total_amount: i128,
    claim_types: &Vec<ClaimType>,
    expired_count: u32,
    expired_amount: i128,
)
    ensures
        (ContractEvent::ClaimAdded { user, claim_type, amount, source_id }).event_kind()
            == EventKind::ClaimAdded,
        (ContractEvent::ClaimAdded { user, claim_type, amount, source_id }).event_topics() == seq![
            Topic::Name("claim_added"@),
            Topic::Account(user),
        ],
        (ContractEvent::ClaimAdded { user, claim_type, amount, source_id }).event_data()
            == EventData::Claim(claim_type, amount, source_id),
        (ContractEvent::ClaimsProcessed { user, processed_count, total_amount, claim_types }).event_kind()
            == EventKind::ClaimsProcessed,
        (ContractEvent::ClaimsProcessed { user, processed_count, total_amount, claim_types }).event_topics()
            == seq![Topic::Name("claims_processed"@), Topic::Account(user)],
        (ContractEvent::ClaimsProcessed { user, processed_count, total_amount, claim_types }).event_data()
            == EventData::ClaimsSummary(processed_count, total_amount, claim_types),
        (ContractEvent::ClaimsExpired { user, expired_count, expired_amount }).event_kind()
            == EventKind::ClaimsExpired,
        (ContractEvent::ClaimsExpired { user, expired_count, expired_amount }).event_topics()
            == seq![Topic::Name("claims_expired"@), Topic::Account(user)],
        (ContractEvent::ClaimsExpired { user, expired_count, expired_amount }).event_data()
            == EventData::CountAmount(expired_count, expired_amount),
{
    assert((ContractEvent::ClaimAdded { user, claim_type, amount, source_id }).event_topics()
        =~= seq![Topic::Name("claim_added"@), Topic::Account(user)]);
    assert((ContractEvent::ClaimsProcessed { user, processed_count, total_amount, claim_types }).event_topics()
        =~= seq![Topic::Name("claims_processed"@), Topic::Account(user)]);
    assert((ContractEvent::ClaimsExpired { user, expired_count, expired_amount }).event_topics()
        =~= seq![Topic::Name("claims_expired"@), Topic::Account(user)]);
}

/// Each upgrade-authorization event is routed by its own name, filed under the
/// acting admin (and, for grants and revocations, the account concerned), and a
/// grant publishes exactly the granted role; initialization and revocation
/// publish no data.
pub proof fn lemma_upgrade_auth_events_layout(
    admin: &Address,
    address: &Address,
    role: UpgradeRole,
)
    ensures
        (ContractEvent::UpgradeAuthInitialized { admin }).event_kind()
            == EventKind::UpgradeAuthInitialized,
        (ContractEvent::UpgradeAuthInitialized { admin }).event_topics() == seq![
            Topic::Name("upgrade_auth_initialized"@),
            Topic::Account(admin),
        ],
        (ContractEvent::UpgradeAuthInitialized { admin }).event_data() == EventData::Unit,
        (ContractEvent::UpgradeAuthGranted { admin, address, role }).event_kind()
            == EventKind::UpgradeAuthGranted,
        (ContractEvent::UpgradeAuthGranted { admin, address, role }).event_topics() == seq![
            Topic::Name("upgrade_auth_granted"@),
            Topic::Account(admin),
            Topic::Account(address),
        ],
        (ContractEvent::UpgradeAuthGranted { admin, address, role }).event_data() == EventData::Role(
            role,
        ),
        (ContractEvent::UpgradeAuthRevoked { admin, address }).event_kind()
            == EventKind::UpgradeAuthRevoked,
        (ContractEvent::UpgradeAuthRevoked { admin, address }).event_topics() == seq![
            Topic::Name("upgrade_auth_revoked"@),
            Topic::Account(admin),
            Topic::Account(address),
        ],
        (ContractEvent::UpgradeAuthRevoked { admin, address }).event_data() == EventData::Unit,
{
    assert((ContractEvent::UpgradeAuthInitialized { admin }).event_topics() =~= seq![
        Topic::Name("upgrade_auth_initialized"@),
        Topic::Account(admin),
    ]);
    assert((ContractEvent::UpgradeAuthGranted { admin, address, role }).event_topics() =~= seq![
        Topic::Name("upgrade_auth_granted"@),
        Topic::Account(admin),
        Topic::Account(address),
    ]);
    assert((ContractEvent::UpgradeAuthRevoked { admin, address }).event_topics() =~= seq![
        Topic::Name("upgrade_auth_revoked"@),
        Topic::Account(admin),
        Topic::Account(address),
    ]);
}

/// Each upgrade workflow event is routed by its own name whatever its data
/// (an execution stays `upgrade_executed` with or without a proposal id),
/// filed under the acting account (an execution also under the new
/// implementation), and publishes exactly the values it was given.
pub proof fn lemma_upgrade_workflow_events_layout(
    actor: &Address,
    new_implementation: &Address,
    proposal_id: u64,
    executed_proposal: Option<u64>,
)
    ensures
        (ContractEvent::UpgradeProposed { proposer: actor, proposal_id, new_implementation }).event_kind()
            == EventKind::UpgradeProposed,
        (ContractEvent::UpgradeProposed { proposer: actor, proposal_id, new_implementation }).event_topics()
            == seq![Topic::Name("upgrade_proposed"@), Topic::Account(actor)],
        (ContractEvent::UpgradeProposed { proposer: actor, proposal_id, new_implementation }).event_data()
            == EventData::ProposalAndImplementation(proposal_id, new_implementation),
        (ContractEvent::UpgradeApproved { approver: actor, proposal_id }).event_kind()
            == EventKind::UpgradeApproved,
        (ContractEvent::UpgradeApproved { approver: actor, proposal_id }).event_topics() == seq![
            Topic::Name("upgrade_approved"@),
            Topic::Account(actor),
        ],
        (ContractEvent::UpgradeApproved { approver: actor, proposal_id }).event_data()
            == EventData::ProposalId(proposal_id),
        (ContractEvent::UpgradeExecuted {
            executor: actor,
            new_implementation,
            proposal_id: executed_proposal,
        }).event_kind() == EventKind::UpgradeExecuted,
        (ContractEvent::UpgradeExecuted {
            executor: actor,
            new_implementation,
            proposal_id: executed_proposal,
        }).event_topics() == seq![
            Topic::Name("upgrade_executed"@),
            Topic::Account(actor),
            Topic::Account(new_implementation),
        ],
        (ContractEvent::UpgradeExecuted {
            executor: actor,
            new_implementation,
            proposal_id: executed_proposal,
        }).event_data() == EventData::OptionalProposalId(executed_proposal),
{
    assert((ContractEvent::UpgradeProposed { proposer: actor, proposal_id, new_implementation }).event_topics()
        =~= seq![Topic::Name("upgrade_proposed"@), Topic::Account(actor)]);
    assert((ContractEvent::UpgradeApproved { approver: actor, proposal_id }).event_topics() =~= seq![
        Topic::Name("upgrade_approved"@),
        Topic::Account(actor),
    ]);
    assert((ContractEvent::UpgradeExecuted {
        executor: actor,
        new_implementation,
        proposal_id: executed_proposal,
    }).event_topics() =~= seq![
        Topic::Name("upgrade_executed"@),
        Topic::Account(actor),
        Topic::Account(new_implementation),
    ]);
}

} // verus!
