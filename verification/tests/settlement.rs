use swiftremit::AuthContext;
use swiftremit::ContractError;
use swiftremit::Event;
use swiftremit::Remittance;
use swiftremit::RemittanceStatus;
use swiftremit::SwiftRemitContract;

const CONTRACT: u64 = 77;
const ADMIN: u64 = 1;
const TOKEN: u64 = 50;
const SENDER: u64 = 2;
const AGENT: u64 = 3;
const CURRENCY: u32 = 840;
const COUNTRY: u32 = 32;

fn auth_for(principals: &[u64]) -> AuthContext {
    let mut auth = AuthContext::new();
    for p in principals {
        auth.grant(*p);
    }
    auth
}

/// Replays the transfer log: the balance of `who` after starting from the
/// minted amount.
fn balance(contract: &SwiftRemitContract, who: u64, minted: i128) -> i128 {
    let mut b = minted;
    for t in contract.transfers.iter() {
        if t.to == who {
            b += t.amount;
        }
        if t.from == who {
            b -= t.amount;
        }
    }
    b
}

fn setup(fee_bps: u32) -> (SwiftRemitContract, AuthContext) {
    let auth = auth_for(&[ADMIN, SENDER, AGENT]);
    let mut contract = SwiftRemitContract::new(CONTRACT);
    contract.initialize(ADMIN, TOKEN, fee_bps).unwrap();
    contract.register_agent(&auth, AGENT).unwrap();
    (contract, auth)
}

#[test]
fn test_create_remittance() {
    let (mut contract, auth) = setup(250);

    let remittance_id = contract
        .create_remittance(&auth, SENDER, AGENT, 1000, CURRENCY, COUNTRY, None, 0)
        .unwrap();

    assert_eq!(remittance_id, 1);

    let remittance = contract.get_remittance(remittance_id).unwrap();
    assert_eq!(remittance.sender, SENDER);
    assert_eq!(remittance.agent, AGENT);
    assert_eq!(remittance.amount, 1000);
    assert_eq!(remittance.fee, 25);

    assert_eq!(balance(&contract, CONTRACT, 0), 1000);
    assert_eq!(balance(&contract, SENDER, 10000), 9000);
}

#[test]
fn test_create_remittance_invalid_amount() {
    let (mut contract, auth) = setup(250);
    assert_eq!(
        contract.create_remittance(&auth, SENDER, AGENT, 0, CURRENCY, COUNTRY, None, 0),
        Err(ContractError::InvalidAmount)
    );
}

#[test]
fn test_create_remittance_unregistered_agent() {
    let auth = auth_for(&[ADMIN, SENDER, AGENT]);
    let mut contract = SwiftRemitContract::new(CONTRACT);
    contract.initialize(ADMIN, TOKEN, 250).unwrap();

    assert_eq!(
        contract.create_remittance(&auth, SENDER, AGENT, 1000, CURRENCY, COUNTRY, None, 0),
        Err(ContractError::AgentNotRegistered)
    );
}

#[test]
fn test_create_remittance_fee_overflow() {
    let (mut contract, auth) = setup(250);
    assert_eq!(
        contract.create_remittance(&auth, SENDER, AGENT, i128::MAX / 2, CURRENCY, COUNTRY, None, 0),
        Err(ContractError::Overflow)
    );
}

#[test]
fn test_confirm_payout() {
    let (mut contract, auth) = setup(250);

    let remittance_id = contract
        .create_remittance(&auth, SENDER, AGENT, 1000, CURRENCY, COUNTRY, None, 0)
        .unwrap();

    contract.confirm_payout(&auth, remittance_id, 0).unwrap();

    let remittance = contract.get_remittance(remittance_id).unwrap();
    assert_eq!(remittance.status, RemittanceStatus::Completed);

    assert_eq!(balance(&contract, AGENT, 0), 975);
    assert_eq!(contract.get_accumulated_fees(), Ok(25));
    assert_eq!(balance(&contract, CONTRACT, 0), 25);
}

#[test]
fn test_confirm_payout_twice() {
    let (mut contract, auth) = setup(250);

    let remittance_id = contract
        .create_remittance(&auth, SENDER, AGENT, 1000, CURRENCY, COUNTRY, None, 0)
        .unwrap();

    contract.confirm_payout(&auth, remittance_id, 0).unwrap();
    assert_eq!(
        contract.confirm_payout(&auth, remittance_id, 0),
        Err(ContractError::InvalidStatus)
    );
}

#[test]
fn test_cancel_remittance() {
    let (mut contract, auth) = setup(250);

    let remittance_id = contract
        .create_remittance(&auth, SENDER, AGENT, 1000, CURRENCY, COUNTRY, None, 0)
        .unwrap();

    contract.cancel_remittance(&auth, remittance_id).unwrap();

    let remittance = contract.get_remittance(remittance_id).unwrap();
    assert_eq!(remittance.status, RemittanceStatus::Cancelled);

    assert_eq!(balance(&contract, SENDER, 10000), 10000);
    assert_eq!(balance(&contract, CONTRACT, 0), 0);
}

#[test]
fn test_cancel_remittance_already_completed() {
    let (mut contract, auth) = setup(250);

    let remittance_id = contract
        .create_remittance(&auth, SENDER, AGENT, 1000, CURRENCY, COUNTRY, None, 0)
        .unwrap();
    contract.confirm_payout(&auth, remittance_id, 0).unwrap();

    assert_eq!(
        contract.cancel_remittance(&auth, remittance_id),
        Err(ContractError::InvalidStatus)
    );
}

#[test]
fn test_cancel_refunds_full_gross_amount() {
    // A pending remittance of 1000 with fee 25 refunds the full 1000, not
    // 975: no fee is charged on a cancelled remittance.
    let (mut contract, auth) = setup(250);
    let id = contract
        .create_remittance(&auth, SENDER, AGENT, 1000, CURRENCY, COUNTRY, None, 0)
        .unwrap();
    assert_eq!(contract.get_remittance(id).unwrap().fee, 25);
    contract.cancel_remittance(&auth, id).unwrap();
    let refund = contract.transfers.last().unwrap();
    assert_eq!(refund.from, CONTRACT);
    assert_eq!(refund.to, SENDER);
    assert_eq!(refund.amount, 1000);
}

#[test]
fn test_withdraw_fees() {
    let (mut contract, auth) = setup(250);
    let fee_recipient: u64 = 9;

    let remittance_id = contract
        .create_remittance(&auth, SENDER, AGENT, 1000, CURRENCY, COUNTRY, None, 0)
        .unwrap();
    contract.confirm_payout(&auth, remittance_id, 0).unwrap();

    contract.withdraw_fees(&auth, fee_recipient).unwrap();

    assert_eq!(balance(&contract, fee_recipient, 0), 25);
    assert_eq!(contract.get_accumulated_fees(), Ok(0));
    assert_eq!(balance(&contract, CONTRACT, 0), 0);
}

#[test]
fn test_fee_calculation() {
    let (mut contract, auth) = setup(500);

    let remittance_id = contract
        .create_remittance(&auth, SENDER, AGENT, 10000, CURRENCY, COUNTRY, None, 0)
        .unwrap();

    let remittance = contract.get_remittance(remittance_id).unwrap();
    assert_eq!(remittance.fee, 500);

    contract.confirm_payout(&auth, remittance_id, 0).unwrap();
    assert_eq!(balance(&contract, AGENT, 0), 9500);
    assert_eq!(contract.get_accumulated_fees(), Ok(500));
}

#[test]
fn test_multiple_remittances() {
    let auth = auth_for(&[ADMIN, SENDER, 4, AGENT]);
    let mut contract = SwiftRemitContract::new(CONTRACT);
    contract.initialize(ADMIN, TOKEN, 250).unwrap();
    contract.register_agent(&auth, AGENT).unwrap();

    let id1 = contract
        .create_remittance(&auth, SENDER, AGENT, 1000, CURRENCY, COUNTRY, None, 0)
        .unwrap();
    let id2 = contract
        .create_remittance(&auth, 4, AGENT, 2000, CURRENCY, COUNTRY, None, 0)
        .unwrap();

    assert_eq!(id1, 1);
    assert_eq!(id2, 2);

    contract.confirm_payout(&auth, id1, 0).unwrap();
    contract.confirm_payout(&auth, id2, 0).unwrap();

    assert_eq!(contract.get_accumulated_fees(), Ok(75));
    assert_eq!(balance(&contract, AGENT, 0), 2925);
}

#[test]
fn test_events_emitted() {
    let (mut contract, auth) = setup(250);

    assert!(matches!(
        contract.events.last(),
        Some(Event::AgentRegistered { agent: AGENT, .. })
    ));

    let remittance_id = contract
        .create_remittance(&auth, SENDER, AGENT, 1000, CURRENCY, COUNTRY, None, 0)
        .unwrap();

    assert!(matches!(
        contract.events.last(),
        Some(Event::RemittanceCreated { id: 1, .. })
    ));

    contract.confirm_payout(&auth, remittance_id, 0).unwrap();

    let count = contract.events.len();
    assert!(matches!(
        contract.events[count - 2],
        Event::RemittanceCompleted { id: 1, .. }
    ));
    assert!(matches!(
        contract.events[count - 1],
        Event::SettlementCompleted { .. }
    ));
}

#[test]
fn test_authorization_enforcement() {
    // Confirmation consumes the authorization of the remittance's agent:
    // without it the call is rejected, with it the same call succeeds.
    let (mut contract, auth) = setup(250);
    let remittance_id = contract
        .create_remittance(&auth, SENDER, AGENT, 1000, CURRENCY, COUNTRY, None, 0)
        .unwrap();

    let without_agent = auth_for(&[ADMIN, SENDER]);
    assert_eq!(
        contract.confirm_payout(&without_agent, remittance_id, 0),
        Err(ContractError::Unauthorized)
    );

    let with_agent = auth_for(&[AGENT]);
    contract.confirm_payout(&with_agent, remittance_id, 0).unwrap();
}

#[test]
fn test_withdraw_fees_valid_address() {
    let (mut contract, auth) = setup(250);
    let fee_recipient: u64 = 9;

    let remittance_id = contract
        .create_remittance(&auth, SENDER, AGENT, 1000, CURRENCY, COUNTRY, None, 0)
        .unwrap();
    contract.confirm_payout(&auth, remittance_id, 0).unwrap();

    contract.withdraw_fees(&auth, fee_recipient).unwrap();

    assert_eq!(balance(&contract, fee_recipient, 0), 25);
    assert_eq!(contract.get_accumulated_fees(), Ok(0));
}

#[test]
fn test_confirm_payout_valid_address() {
    let (mut contract, auth) = setup(250);

    let remittance_id = contract
        .create_remittance(&auth, SENDER, AGENT, 1000, CURRENCY, COUNTRY, None, 0)
        .unwrap();

    contract.confirm_payout(&auth, remittance_id, 0).unwrap();

    let remittance = contract.get_remittance(remittance_id).unwrap();
    assert_eq!(remittance.status, RemittanceStatus::Completed);
    assert_eq!(balance(&contract, AGENT, 0), 975);
}

#[test]
fn test_address_validation_in_settlement_flow() {
    let (mut contract, auth) = setup(250);

    let remittance_id = contract
        .create_remittance(&auth, SENDER, AGENT, 1000, CURRENCY, COUNTRY, None, 0)
        .unwrap();

    contract.confirm_payout(&auth, remittance_id, 0).unwrap();

    let remittance = contract.get_remittance(remittance_id).unwrap();
    assert_eq!(remittance.status, RemittanceStatus::Completed);
    assert_eq!(balance(&contract, AGENT, 0), 975);
    assert_eq!(contract.get_accumulated_fees(), Ok(25));
}

#[test]
fn test_multiple_settlements_with_address_validation() {
    let agent2: u64 = 6;
    let auth = auth_for(&[ADMIN, SENDER, 4, AGENT, agent2]);
    let mut contract = SwiftRemitContract::new(CONTRACT);
    contract.initialize(ADMIN, TOKEN, 250).unwrap();
    contract.register_agent(&auth, AGENT).unwrap();
    contract.register_agent(&auth, agent2).unwrap();

    let id1 = contract
        .create_remittance(&auth, SENDER, AGENT, 1000, CURRENCY, COUNTRY, None, 0)
        .unwrap();
    let id2 = contract
        .create_remittance(&auth, 4, agent2, 2000, CURRENCY, COUNTRY, None, 0)
        .unwrap();

    contract.confirm_payout(&auth, id1, 0).unwrap();
    contract.confirm_payout(&auth, id2, 0).unwrap();

    assert_eq!(balance(&contract, AGENT, 0), 975);
    assert_eq!(balance(&contract, agent2, 0), 1950);
    assert_eq!(contract.get_accumulated_fees(), Ok(75));
}

#[test]
fn test_settlement_with_future_expiry() {
    let (mut contract, auth) = setup(250);

    let current_time: u64 = 0;
    let expiry_time = current_time + 3600;

    let remittance_id = contract
        .create_remittance(&auth, SENDER, AGENT, 1000, CURRENCY, COUNTRY, Some(expiry_time), current_time)
        .unwrap();

    contract.confirm_payout(&auth, remittance_id, current_time).unwrap();

    let remittance = contract.get_remittance(remittance_id).unwrap();
    assert_eq!(remittance.status, RemittanceStatus::Completed);
    assert_eq!(balance(&contract, AGENT, 0), 975);
}

#[test]
fn test_settlement_with_past_expiry() {
    let (mut contract, auth) = setup(250);

    let current_time: u64 = 7200;
    let expiry_time = current_time - 3600;

    let remittance_id = contract
        .create_remittance(&auth, SENDER, AGENT, 1000, CURRENCY, COUNTRY, Some(expiry_time), current_time)
        .unwrap();

    assert_eq!(
        contract.confirm_payout(&auth, remittance_id, current_time),
        Err(ContractError::SettlementExpired)
    );
}

#[test]
fn test_settlement_without_expiry() {
    let (mut contract, auth) = setup(250);

    let remittance_id = contract
        .create_remittance(&auth, SENDER, AGENT, 1000, CURRENCY, COUNTRY, None, 0)
        .unwrap();

    contract.confirm_payout(&auth, remittance_id, 0).unwrap();

    let remittance = contract.get_remittance(remittance_id).unwrap();
    assert_eq!(remittance.status, RemittanceStatus::Completed);
    assert_eq!(balance(&contract, AGENT, 0), 975);
}

#[test]
fn test_expiry_boundary() {
    // Confirmation exactly at the expiry time succeeds; one unit past it
    // fails.
    let (mut contract, auth) = setup(250);
    let id1 = contract
        .create_remittance(&auth, SENDER, AGENT, 1000, CURRENCY, COUNTRY, Some(100), 0)
        .unwrap();
    let id2 = contract
        .create_remittance(&auth, SENDER, AGENT, 1000, CURRENCY, COUNTRY, Some(100), 0)
        .unwrap();

    assert_eq!(
        contract.confirm_payout(&auth, id1, 101),
        Err(ContractError::SettlementExpired)
    );
    contract.confirm_payout(&auth, id2, 100).unwrap();
}

#[test]
fn test_duplicate_settlement_prevention() {
    let (mut contract, auth) = setup(250);

    let remittance_id = contract
        .create_remittance(&auth, SENDER, AGENT, 1000, CURRENCY, COUNTRY, None, 0)
        .unwrap();

    contract.confirm_payout(&auth, remittance_id, 0).unwrap();

    let remittance = contract.get_remittance(remittance_id).unwrap();
    assert_eq!(remittance.status, RemittanceStatus::Completed);
    assert_eq!(balance(&contract, AGENT, 0), 975);
    assert_eq!(contract.get_accumulated_fees(), Ok(25));

    // Force the status back to pending through the raw store write, as if
    // the record had been rewritten behind the engine's back.
    let reset = Remittance {
        status: RemittanceStatus::Pending,
        ..remittance
    };
    contract.set_remittance(remittance_id, reset);

    // The settlement mark outlasts the rewrite: the payout cannot run again.
    assert_eq!(
        contract.confirm_payout(&auth, remittance_id, 0),
        Err(ContractError::DuplicateSettlement)
    );
}

#[test]
fn test_different_settlements_allowed() {
    let (mut contract, auth) = setup(250);

    let id1 = contract
        .create_remittance(&auth, SENDER, AGENT, 1000, CURRENCY, COUNTRY, None, 0)
        .unwrap();
    let id2 = contract
        .create_remittance(&auth, SENDER, AGENT, 1000, CURRENCY, COUNTRY, None, 0)
        .unwrap();

    contract.confirm_payout(&auth, id1, 0).unwrap();
    contract.confirm_payout(&auth, id2, 0).unwrap();

    assert_eq!(
        contract.get_remittance(id1).unwrap().status,
        RemittanceStatus::Completed
    );
    assert_eq!(
        contract.get_remittance(id2).unwrap().status,
        RemittanceStatus::Completed
    );
    assert_eq!(balance(&contract, AGENT, 0), 1950);
    assert_eq!(contract.get_accumulated_fees(), Ok(50));
}

#[test]
fn test_settlement_hash_storage_efficiency() {
    let (mut contract, auth) = setup(250);

    for _ in 0..5 {
        let id = contract
            .create_remittance(&auth, SENDER, AGENT, 1000, CURRENCY, COUNTRY, None, 0)
            .unwrap();
        contract.confirm_payout(&auth, id, 0).unwrap();
    }

    assert_eq!(contract.get_accumulated_fees(), Ok(125));
    assert_eq!(balance(&contract, AGENT, 0), 4875);
}

#[test]
fn test_duplicate_prevention_with_expiry() {
    let (mut contract, auth) = setup(250);

    let current_time: u64 = 0;
    let expiry_time = current_time + 3600;

    let remittance_id = contract
        .create_remittance(&auth, SENDER, AGENT, 1000, CURRENCY, COUNTRY, Some(expiry_time), current_time)
        .unwrap();

    contract.confirm_payout(&auth, remittance_id, current_time).unwrap();

    let remittance = contract.get_remittance(remittance_id).unwrap();
    assert_eq!(remittance.status, RemittanceStatus::Completed);
}

#[test]
fn test_settlement_blocked_when_paused() {
    let (mut contract, auth) = setup(250);

    let remittance_id = contract
        .create_remittance(&auth, SENDER, AGENT, 1000, CURRENCY, COUNTRY, None, 0)
        .unwrap();

    contract.pause(&auth).unwrap();

    assert_eq!(
        contract.confirm_payout(&auth, remittance_id, 0),
        Err(ContractError::ContractPaused)
    );
}

#[test]
fn test_settlement_works_after_unpause() {
    let (mut contract, auth) = setup(250);

    let remittance_id = contract
        .create_remittance(&auth, SENDER, AGENT, 1000, CURRENCY, COUNTRY, None, 0)
        .unwrap();

    contract.pause(&auth).unwrap();
    contract.unpause(&auth).unwrap();

    contract.confirm_payout(&auth, remittance_id, 0).unwrap();

    let remittance = contract.get_remittance(remittance_id).unwrap();
    assert_eq!(remittance.status, RemittanceStatus::Completed);
}

#[test]
fn test_get_settlement_valid() {
    let (mut contract, auth) = setup(250);

    let remittance_id = contract
        .create_remittance(&auth, SENDER, AGENT, 1000, CURRENCY, COUNTRY, None, 0)
        .unwrap();
    contract.confirm_payout(&auth, remittance_id, 0).unwrap();

    let settlement = contract.get_settlement(remittance_id).unwrap();
    assert_eq!(settlement.id, remittance_id);
    assert_eq!(settlement.sender, SENDER);
    assert_eq!(settlement.agent, AGENT);
    assert_eq!(settlement.amount, 1000);
    assert_eq!(settlement.fee, 25);
    assert_eq!(settlement.status, RemittanceStatus::Completed);
}

#[test]
fn test_get_settlement_invalid_id() {
    let (contract, _auth) = setup(250);
    assert_eq!(
        contract.get_settlement(999),
        Err(ContractError::RemittanceNotFound)
    );
}

#[test]
fn test_settlement_completed_event_emission() {
    let (mut contract, auth) = setup(250);

    let remittance_id = contract
        .create_remittance(&auth, SENDER, AGENT, 1000, CURRENCY, COUNTRY, None, 0)
        .unwrap();

    contract.confirm_payout(&auth, remittance_id, 0).unwrap();

    let settlement_event = contract
        .events
        .iter()
        .find(|e| matches!(e, Event::SettlementCompleted { .. }));

    assert!(
        settlement_event.is_some(),
        "SettlementCompleted event should be emitted"
    );

    match settlement_event.unwrap() {
        Event::SettlementCompleted { sender, agent, token, payout } => {
            assert_eq!(*sender, SENDER, "Event sender should match remittance sender");
            assert_eq!(*agent, AGENT, "Event recipient should match remittance agent");
            assert_eq!(*token, TOKEN, "Event token should match USDC token");
            assert_eq!(*payout, 975, "Event amount should match payout amount (1000 - 25 fee)");
        },
        _ => unreachable!(),
    }
}

#[test]
fn test_settlement_completed_event_fields_accuracy() {
    let (mut contract, auth) = setup(500);

    let remittance_id = contract
        .create_remittance(&auth, SENDER, AGENT, 10000, CURRENCY, COUNTRY, None, 0)
        .unwrap();

    contract.confirm_payout(&auth, remittance_id, 0).unwrap();

    let settlement_event = contract
        .events
        .iter()
        .find(|e| matches!(e, Event::SettlementCompleted { .. }));

    assert!(settlement_event.is_some());

    let expected_payout = 10000 - 500;
    match settlement_event.unwrap() {
        Event::SettlementCompleted { sender, agent, token, payout } => {
            assert_eq!(*sender, SENDER);
            assert_eq!(*agent, AGENT);
            assert_eq!(*token, TOKEN);
            assert_eq!(*payout, expected_payout);
        },
        _ => unreachable!(),
    }
}

#[test]
fn test_conservation_of_custody() {
    // After settling and cancelling everything ever created, custody holds
    // exactly the accumulated fees.
    let (mut contract, auth) = setup(250);
    let id1 = contract
        .create_remittance(&auth, SENDER, AGENT, 1000, CURRENCY, COUNTRY, None, 0)
        .unwrap();
    let id2 = contract
        .create_remittance(&auth, SENDER, AGENT, 2000, CURRENCY, COUNTRY, None, 0)
        .unwrap();
    let id3 = contract
        .create_remittance(&auth, SENDER, AGENT, 4000, CURRENCY, COUNTRY, None, 0)
        .unwrap();

    contract.confirm_payout(&auth, id1, 0).unwrap();
    contract.confirm_payout(&auth, id2, 0).unwrap();
    contract.cancel_remittance(&auth, id3).unwrap();

    // Fees: 25 + 50; the cancelled remittance contributes nothing.
    assert_eq!(contract.get_accumulated_fees(), Ok(75));
    assert_eq!(balance(&contract, CONTRACT, 0), 75);
}

#[test]
fn test_confirm_payout_fee_accumulation_overflow() {
    // At a 100% fee rate the accumulated balance eventually saturates the
    // i128 range; the confirmation that would overflow it is refused and
    // changes nothing.
    let (mut contract, auth) = setup(10000);
    let big = i128::MAX / 10000;

    for _ in 0..10000u32 {
        let id = contract
            .create_remittance(&auth, SENDER, AGENT, big, CURRENCY, COUNTRY, None, 0)
            .unwrap();
        contract.confirm_payout(&auth, id, 0).unwrap();
    }

    let id = contract
        .create_remittance(&auth, SENDER, AGENT, big, CURRENCY, COUNTRY, None, 0)
        .unwrap();
    assert_eq!(
        contract.confirm_payout(&auth, id, 0),
        Err(ContractError::Overflow)
    );
    assert_eq!(
        contract.get_remittance(id).unwrap().status,
        RemittanceStatus::Pending
    );
}
