use credence_bond::access_control::Role;
use credence_bond::claims::{ClaimResult, ClaimType, PendingClaim};
use credence_bond::events::{
    access_denied, bond_created, bond_increased, bond_slashed, bond_withdrawn, claim_added,
    claims_expired, claims_processed, upgrade_approved, upgrade_auth_granted,
    upgrade_auth_initialized, upgrade_auth_revoked, upgrade_executed, upgrade_proposed,
    ContractEvent, EventData, EventKind,
};
use credence_bond::upgrade_auth::UpgradeRole;
use soroban_sdk::testutils::Address as _;
use soroban_sdk::{Address, Env, Symbol};

const ALL_KINDS: [EventKind; 14] = [
    EventKind::BondCreated,
    EventKind::BondIncreased,
    EventKind::BondWithdrawn,
    EventKind::BondSlashed,
    EventKind::ClaimAdded,
    EventKind::ClaimsProcessed,
    EventKind::ClaimsExpired,
    EventKind::UpgradeAuthInitialized,
    EventKind::UpgradeAuthGranted,
    EventKind::UpgradeAuthRevoked,
    EventKind::UpgradeProposed,
    EventKind::UpgradeApproved,
    EventKind::UpgradeExecuted,
    EventKind::AccessDenied,
];

#[test]
fn bond_created_is_filed_under_identity() {
    let e = Env::default();
    let identity = Address::generate(&e);
    let ev = bond_created(&identity, 1_000, 86_400, true);
    assert_eq!(ev.kind(), EventKind::BondCreated);
    assert_eq!(ev.kind().name(), "bond_created");
    assert_eq!(ev.addresses(), vec![&identity]);
    match ev {
        ContractEvent::BondCreated { amount, duration, is_rolling, .. } => {
            assert_eq!((amount, duration, is_rolling), (1_000, 86_400, true));
        }
        _ => panic!("wrong event"),
    }
}

#[test]
fn bond_increased_withdrawn_slashed_carry_their_amounts() {
    let e = Env::default();
    let identity = Address::generate(&e);

    let ev = bond_increased(&identity, 250, 1_250);
    assert_eq!(ev.kind().name(), "bond_increased");
    assert_eq!(ev.addresses(), vec![&identity]);
    match ev {
        ContractEvent::BondIncreased { added_amount, new_total, .. } => {
            assert_eq!((added_amount, new_total), (250, 1_250))
        }
        _ => panic!("wrong event"),
    }

    let ev = bond_withdrawn(&identity, 1_250, 0);
    assert_eq!(ev.kind().name(), "bond_withdrawn");
    assert_eq!(ev.addresses(), vec![&identity]);
    match ev {
        ContractEvent::BondWithdrawn { amount_withdrawn, remaining, .. } => {
            assert_eq!((amount_withdrawn, remaining), (1_250, 0))
        }
        _ => panic!("wrong event"),
    }

    let ev = bond_slashed(&identity, -5, i128::MAX);
    assert_eq!(ev.kind().name(), "bond_slashed");
    assert_eq!(ev.addresses(), vec![&identity]);
    match ev {
        ContractEvent::BondSlashed { slash_amount, total_slashed, .. } => {
            assert_eq!((slash_amount, total_slashed), (-5, i128::MAX))
        }
        _ => panic!("wrong event"),
    }
}

#[test]
fn claim_events_carry_the_claim_fields() {
    let e = Env::default();
    let user = Address::generate(&e);
    let claim = PendingClaim { claim_type: ClaimType::Reward, amount: 42, source_id: 7 };

    let ev = claim_added(&user, &claim);
    assert_eq!(ev.kind().name(), "claim_added");
    assert_eq!(ev.addresses(), vec![&user]);
    match ev {
        ContractEvent::ClaimAdded { claim_type, amount, source_id, .. } => {
            assert_eq!((claim_type, amount, source_id), (ClaimType::Reward, 42, 7))
        }
        _ => panic!("wrong event"),
    }

    let result = ClaimResult {
        processed_count: 2,
        total_amount: 90,
        claim_types: vec![ClaimType::Refund, ClaimType::Yield],
    };
    let processed = vec![claim];
    let ev = claims_processed(&user, &result, &processed);
    assert_eq!(ev.kind().name(), "claims_processed");
    assert_eq!(ev.addresses(), vec![&user]);
    match ev {
        ContractEvent::ClaimsProcessed { processed_count, total_amount, claim_types, .. } => {
            assert_eq!((processed_count, total_amount), (2, 90));
            assert_eq!(claim_types, &vec![ClaimType::Refund, ClaimType::Yield]);
        }
        _ => panic!("wrong event"),
    }

    let ev = claims_expired(&user, 3, 300);
    assert_eq!(ev.kind().name(), "claims_expired");
    assert_eq!(ev.addresses(), vec![&user]);
    match ev {
        ContractEvent::ClaimsExpired { expired_count, expired_amount, .. } => {
            assert_eq!((expired_count, expired_amount), (3, 300))
        }
        _ => panic!("wrong event"),
    }
}

#[test]
fn upgrade_events_name_their_actors() {
    let e = Env::default();
    let admin = Address::generate(&e);
    let other = Address::generate(&e);
    let implementation = Address::generate(&e);

    let ev = upgrade_auth_initialized(&admin);
    assert_eq!(ev.kind().name(), "upgrade_auth_initialized");
    assert_eq!(ev.addresses(), vec![&admin]);

    let ev = upgrade_auth_granted(&admin, &other, UpgradeRole::Approver);
    assert_eq!(ev.kind().name(), "upgrade_auth_granted");
    assert_eq!(ev.addresses(), vec![&admin, &other]);
    match ev {
        ContractEvent::UpgradeAuthGranted { role, .. } => assert_eq!(role, UpgradeRole::Approver),
        _ => panic!("wrong event"),
    }

    let ev = upgrade_auth_revoked(&admin, &other);
    assert_eq!(ev.kind().name(), "upgrade_auth_revoked");
    assert_eq!(ev.addresses(), vec![&admin, &other]);

    let ev = upgrade_proposed(&other, 9, &implementation);
    assert_eq!(ev.kind().name(), "upgrade_proposed");
    assert_eq!(ev.addresses(), vec![&other]);
    match ev {
        ContractEvent::UpgradeProposed { proposal_id, new_implementation, .. } => {
            assert_eq!(proposal_id, 9);
            assert_eq!(new_implementation, &implementation);
        }
        _ => panic!("wrong event"),
    }

    let ev = upgrade_approved(&admin, 9);
    assert_eq!(ev.kind().name(), "upgrade_approved");
    assert_eq!(ev.addresses(), vec![&admin]);

    let ev = upgrade_executed(&other, &implementation, None);
    assert_eq!(ev.kind().name(), "upgrade_executed");
    assert_eq!(ev.addresses(), vec![&other, &implementation]);
    match ev {
        ContractEvent::UpgradeExecuted { proposal_id, .. } => assert_eq!(proposal_id, None),
        _ => panic!("wrong event"),
    }
}

#[test]
fn access_denied_has_no_address_topic() {
    let e = Env::default();
    let caller = Address::generate(&e);
    let ev = access_denied(&caller, Role::IdentityOwner);
    assert_eq!(ev.kind().name(), "access_denied");
    assert!(ev.addresses().is_empty());
    match ev {
        ContractEvent::AccessDenied { caller: c, role } => {
            assert_eq!(c, &caller);
            assert_eq!(role, Role::IdentityOwner);
        }
        _ => panic!("wrong event"),
    }
}

#[test]
fn routing_names_are_distinct_host_symbols() {
    let e = Env::default();
    for (i, a) in ALL_KINDS.iter().enumerate() {
        assert_eq!(a.symbol(&e), Symbol::new(&e, a.name()));
        for b in ALL_KINDS.iter().skip(i + 1) {
            assert_ne!(a.name(), b.name());
            assert_ne!(a.symbol(&e), b.symbol(&e));
        }
    }
    assert_eq!(EventKind::UpgradeAuthInitialized.symbol(&e), Symbol::new(&e, "upgrade_auth_initialized"));
}

#[test]
fn published_form_follows_the_documented_layout() {
    let e = Env::default();
    let identity = Address::generate(&e);
    let other = Address::generate(&e);

    let ev = bond_created(&identity, 1_000, 86_400, false);
    let p = ev.published(&e);
    assert_eq!(p.name.to_string(), "bond_created");
    assert_eq!(p.addresses, vec![&identity]);
    assert!(matches!(p.data, EventData::AmountDurationRolling(1_000, 86_400, false)));

    let p = bond_increased(&identity, 5, 15).published(&e);
    assert_eq!(p.name.to_string(), "bond_increased");
    assert!(matches!(p.data, EventData::AmountPair(5, 15)));

    let p = bond_withdrawn(&identity, 15, 0).published(&e);
    assert_eq!(p.name.to_string(), "bond_withdrawn");
    assert!(matches!(p.data, EventData::AmountPair(15, 0)));

    let p = bond_slashed(&identity, 3, 10).published(&e);
    assert_eq!(p.name.to_string(), "bond_slashed");
    assert!(matches!(p.data, EventData::AmountPair(3, 10)));

    let claim = PendingClaim { claim_type: ClaimType::Yield, amount: 8, source_id: 4 };
    let p = claim_added(&identity, &claim).published(&e);
    assert_eq!(p.name.to_string(), "claim_added");
    assert!(matches!(p.data, EventData::Claim(ClaimType::Yield, 8, 4)));

    let p = claims_expired(&identity, 2, 20).published(&e);
    assert!(matches!(p.data, EventData::CountAmount(2, 20)));

    let p = upgrade_auth_initialized(&identity).published(&e);
    assert_eq!(p.name.to_string(), "upgrade_auth_initialized");
    assert!(matches!(p.data, EventData::Unit));

    let p = upgrade_auth_granted(&identity, &other, UpgradeRole::Executor).published(&e);
    assert_eq!(p.addresses, vec![&identity, &other]);
    assert!(matches!(p.data, EventData::Role(UpgradeRole::Executor)));

    let p = upgrade_auth_revoked(&identity, &other).published(&e);
    assert_eq!(p.name.to_string(), "upgrade_auth_revoked");
    assert!(matches!(p.data, EventData::Unit));

    let p = upgrade_proposed(&identity, 11, &other).published(&e);
    match p.data {
        EventData::ProposalAndImplementation(id, implementation) => {
            assert_eq!(id, 11);
            assert_eq!(implementation, &other);
        }
        _ => panic!("wrong data"),
    }

    let p = upgrade_approved(&identity, 11).published(&e);
    assert!(matches!(p.data, EventData::ProposalId(11)));

    let p = upgrade_executed(&identity, &other, Some(11)).published(&e);
    assert_eq!(p.addresses, vec![&identity, &other]);
    assert!(matches!(p.data, EventData::OptionalProposalId(Some(11))));

    let p = access_denied(&identity, Role::Admin).published(&e);
    assert_eq!(p.name.to_string(), "access_denied");
    assert!(p.addresses.is_empty());
    assert!(matches!(p.data, EventData::Denial(_, Role::Admin, 1)));
}

#[test]
fn symbols_hold_their_names() {
    let e = Env::default();
    for kind in ALL_KINDS.iter() {
        assert_eq!(kind.symbol(&e).to_string(), kind.name());
    }
    assert_eq!(Role::IdentityOwner.symbol(&e).to_string(), "identity_owner");
}
