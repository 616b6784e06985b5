use swiftremit::AuthContext;
use swiftremit::ContractError;
use swiftremit::SwiftRemitContract;
use swiftremit::WINDOW_SECONDS;

const CONTRACT: u64 = 77;
const ADMIN: u64 = 1;
const TOKEN: u64 = 50;
const SENDER: u64 = 2;
const AGENT: u64 = 3;
const CURRENCY: u32 = 840;
const COUNTRY: u32 = 32;

fn auth_for(principals: &[u64]) -> AuthContext {
    let mut auth = AuthContext::new();
    for p in principals {
        auth.grant(*p);
    }
    auth
}

fn setup() -> (SwiftRemitContract, AuthContext) {
    let auth = auth_for(&[ADMIN, SENDER, AGENT]);
    let mut contract = SwiftRemitContract::new(CONTRACT);
    contract.initialize(ADMIN, TOKEN, 250).unwrap();
    contract.register_agent(&auth, AGENT).unwrap();
    (contract, auth)
}

#[test]
fn test_rolling_limit_blocks_second_transfer() {
    // Cap 10000: a transfer of 6000 passes, a further 5000 inside the same
    // window would make 11000 and is refused; after the first transfer has
    // aged out of the 24-hour window, a 9000 transfer passes again.
    let (mut contract, auth) = setup();
    contract.set_daily_limit(&auth, CURRENCY, COUNTRY, 10000).unwrap();

    let start: u64 = 1000;
    contract
        .create_remittance(&auth, SENDER, AGENT, 6000, CURRENCY, COUNTRY, None, start)
        .unwrap();

    assert_eq!(
        contract.create_remittance(&auth, SENDER, AGENT, 5000, CURRENCY, COUNTRY, None, start + 60),
        Err(ContractError::DailyLimitExceeded)
    );

    let later = start + WINDOW_SECONDS + 1;
    contract
        .create_remittance(&auth, SENDER, AGENT, 9000, CURRENCY, COUNTRY, None, later)
        .unwrap();
}

#[test]
fn test_rolling_limit_exactly_at_cap() {
    // A window volume exactly at the cap is allowed; one unit over fails.
    let (mut contract, auth) = setup();
    contract.set_daily_limit(&auth, CURRENCY, COUNTRY, 10000).unwrap();

    contract
        .create_remittance(&auth, SENDER, AGENT, 6000, CURRENCY, COUNTRY, None, 0)
        .unwrap();
    contract
        .create_remittance(&auth, SENDER, AGENT, 4000, CURRENCY, COUNTRY, None, 10)
        .unwrap();
    assert_eq!(
        contract.create_remittance(&auth, SENDER, AGENT, 1, CURRENCY, COUNTRY, None, 20),
        Err(ContractError::DailyLimitExceeded)
    );
}

#[test]
fn test_rolling_limit_window_boundary() {
    // A record aged exactly 24 hours no longer counts; one aged a second
    // less still does.
    let (mut contract, auth) = setup();
    contract.set_daily_limit(&auth, CURRENCY, COUNTRY, 10000).unwrap();

    let start: u64 = 0;
    contract
        .create_remittance(&auth, SENDER, AGENT, 6000, CURRENCY, COUNTRY, None, start)
        .unwrap();

    // One second short of 24 hours: the 6000 still counts.
    assert_eq!(
        contract.create_remittance(
            &auth,
            SENDER,
            AGENT,
            5000,
            CURRENCY,
            COUNTRY,
            None,
            start + WINDOW_SECONDS - 1
        ),
        Err(ContractError::DailyLimitExceeded)
    );

    // Exactly 24 hours: the record has left the window.
    contract
        .create_remittance(&auth, SENDER, AGENT, 5000, CURRENCY, COUNTRY, None, start + WINDOW_SECONDS)
        .unwrap();
}

#[test]
fn test_rolling_limit_ignores_other_corridor() {
    // The cap binds per (currency, country): other corridors are untouched.
    let (mut contract, auth) = setup();
    contract.set_daily_limit(&auth, CURRENCY, COUNTRY, 5000).unwrap();

    contract
        .create_remittance(&auth, SENDER, AGENT, 5000, CURRENCY, COUNTRY, None, 0)
        .unwrap();
    assert_eq!(
        contract.create_remittance(&auth, SENDER, AGENT, 1000, CURRENCY, COUNTRY, None, 1),
        Err(ContractError::DailyLimitExceeded)
    );
    contract
        .create_remittance(&auth, SENDER, AGENT, 1000, 978, COUNTRY, None, 1)
        .unwrap();
}

#[test]
fn test_uncapped_corridor_is_unlimited() {
    let (mut contract, auth) = setup();
    contract
        .create_remittance(&auth, SENDER, AGENT, 1_000_000_000, CURRENCY, COUNTRY, None, 0)
        .unwrap();
    contract
        .create_remittance(&auth, SENDER, AGENT, 1_000_000_000, CURRENCY, COUNTRY, None, 0)
        .unwrap();
}

#[test]
fn test_create_remittance_unauthorized_sender() {
    let (mut contract, _auth) = setup();
    let no_sender = auth_for(&[ADMIN, AGENT]);
    assert_eq!(
        contract.create_remittance(&no_sender, SENDER, AGENT, 1000, CURRENCY, COUNTRY, None, 0),
        Err(ContractError::Unauthorized)
    );
}
