use std::collections::BTreeSet;

use solana_program::pubkey::Pubkey;
use whirlpool_cpi::authority::{derive_authority, owner_label_bytes, Authority, AuthorityError};
use whirlpool_cpi::graduation::{Graduation, Stage, StepFailure};
use whirlpool_cpi::plan::{
    graduation_plan, step_at_index, Call, GraduateParams, LockKind, Step, TickArraySide,
};

const PROGRAM_ID: [u8; 32] = [7u8; 32];

/// What the pool program holds between transactions.
#[derive(Clone, Debug, Default, PartialEq)]
struct Ledger {
    pool: bool,
    lower_tick_array: bool,
    upper_tick_array: bool,
    position_mints: BTreeSet<u32>,
    open_position: bool,
    liquidity: u128,
    locked: bool,
}

/// A stand-in for the pool program: it keeps a ledger, logs every call, and
/// refuses what the real program refuses.
struct MockWhirlpool {
    ledger: Ledger,
    position_mint: u32,
    required_a: u64,
    required_b: u64,
    log: Vec<Call>,
}

impl MockWhirlpool {
    fn new(required_a: u64, required_b: u64) -> MockWhirlpool {
        MockWhirlpool {
            ledger: Ledger::default(),
            position_mint: 1,
            required_a,
            required_b,
            log: Vec::new(),
        }
    }

    fn perform(&mut self, call: &Call) -> Result<(), String> {
        self.log.push(*call);
        let l = &mut self.ledger;
        match call {
            Call::InitializePool { .. } => {
                if l.pool {
                    return Err("pool already exists".to_string());
                }
                l.pool = true;
            }
            Call::InitializeTickArray { side, .. } => {
                if !l.pool {
                    return Err("no pool".to_string());
                }
                let slot = match side {
                    TickArraySide::Lower => &mut l.lower_tick_array,
                    TickArraySide::Upper => &mut l.upper_tick_array,
                };
                if *slot {
                    return Err("tick array already exists".to_string());
                }
                *slot = true;
            }
            Call::OpenPosition { .. } => {
                if !l.pool || !l.position_mints.insert(self.position_mint) {
                    return Err("position mint already used".to_string());
                }
                l.open_position = true;
            }
            Call::IncreaseLiquidity { liquidity_amount, token_max_a, token_max_b, .. } => {
                if !l.open_position || !l.lower_tick_array || !l.upper_tick_array {
                    return Err("missing position or tick arrays".to_string());
                }
                if self.required_a > *token_max_a || self.required_b > *token_max_b {
                    return Err("token max exceeded".to_string());
                }
                l.liquidity += liquidity_amount;
            }
            Call::LockPosition { .. } => {
                if !l.open_position || l.locked {
                    return Err("position not lockable".to_string());
                }
                l.locked = true;
            }
        }
        Ok(())
    }
}

/// Runs one graduation against the mock as the host would: a failure
/// discards every effect of the transaction.
fn graduate(
    mock: &mut MockWhirlpool,
    params: GraduateParams,
    authority: Authority,
    lock: bool,
) -> (Result<(), StepFailure<String>>, Stage) {
    let before = mock.ledger.clone();
    let mut run = Graduation::new(params, authority, lock);
    while let Some(call) = run.next_call() {
        let outcome = mock.perform(&call);
        run.record(outcome);
    }
    let stage = run.stage();
    let result = run.finish();
    if result.is_err() {
        mock.ledger = before;
    }
    (result, stage)
}

fn nominal_params() -> GraduateParams {
    GraduateParams {
        tick_spacing: 64,
        initial_sqrt_price: 1u128 << 64,
        start_tick_index_lower: -443636,
        start_tick_index_upper: 443636,
        tick_lower_index: -1000,
        tick_upper_index: 1000,
        with_token_metadata_extension: true,
        liquidity_amount: 1_000_000,
        token_max_a: 500_000,
        token_max_b: 500_000,
    }
}

fn owner() -> Authority {
    let (address, bump) =
        Pubkey::find_program_address(&[b"position_owner"], &Pubkey::new_from_array(PROGRAM_ID));
    let authority = derive_authority(&PROGRAM_ID, bump).unwrap();
    assert_eq!(authority.address, address.to_bytes());
    authority
}

fn steps(calls: &[Call]) -> Vec<Step> {
    calls.iter().map(|c| c.step_of()).collect()
}

const ALL_STEPS: [Step; 6] = [
    Step::InitializePool,
    Step::InitializeTickArrayLower,
    Step::InitializeTickArrayUpper,
    Step::OpenPosition,
    Step::IncreaseLiquidity,
    Step::LockPosition,
];

#[test]
fn nominal_run_locks_position() {
    let mut mock = MockWhirlpool::new(400_000, 450_000);
    let authority = owner();
    let (result, stage) = graduate(&mut mock, nominal_params(), authority, true);
    assert_eq!(result, Ok(()));
    assert_eq!(stage, Stage::Locked);
    assert_eq!(steps(&mock.log), ALL_STEPS.to_vec());
    assert_eq!(mock.log, graduation_plan(&nominal_params(), &authority, true));
    assert_eq!(
        mock.log[0],
        Call::InitializePool { tick_spacing: 64, initial_sqrt_price: 18446744073709551616 }
    );
    assert_eq!(
        mock.log[1],
        Call::InitializeTickArray { side: TickArraySide::Lower, start_tick_index: -443636 }
    );
    assert_eq!(
        mock.log[2],
        Call::InitializeTickArray { side: TickArraySide::Upper, start_tick_index: 443636 }
    );
    assert_eq!(
        mock.log[3],
        Call::OpenPosition {
            owner: authority.address,
            tick_lower_index: -1000,
            tick_upper_index: 1000,
            with_token_metadata_extension: true,
        }
    );
    assert_eq!(
        mock.log[4],
        Call::IncreaseLiquidity {
            signer: authority,
            liquidity_amount: 1_000_000,
            token_max_a: 500_000,
            token_max_b: 500_000,
        }
    );
    assert_eq!(mock.log[5], Call::LockPosition { signer: authority, lock_type: LockKind::Permanent });
    assert!(mock.ledger.locked);
    assert_eq!(mock.ledger.liquidity, 1_000_000);
}

#[test]
fn slippage_failure_reverts_everything() {
    let mut mock = MockWhirlpool::new(400_000, 450_000);
    let params = GraduateParams { token_max_a: 1, ..nominal_params() };
    let (result, stage) = graduate(&mut mock, params, owner(), true);
    let failure = result.unwrap_err();
    assert_eq!(failure.step, Step::IncreaseLiquidity);
    assert_eq!(failure.reason, "token max exceeded");
    assert_eq!(failure.step.label(), "5a");
    assert_eq!(stage, Stage::Aborted(Step::IncreaseLiquidity));
    assert_eq!(steps(&mock.log), ALL_STEPS[..5].to_vec());
    assert_eq!(mock.ledger, Ledger::default());
    // Nothing of the failed attempt remains: the same pool can be created again.
    mock.log.clear();
    let (result, _) = graduate(&mut mock, nominal_params(), owner(), true);
    assert_eq!(result, Ok(()));
    assert_eq!(mock.log.len(), 6);
}

#[test]
fn slippage_boundary_equal_amounts_pass() {
    let mut mock = MockWhirlpool::new(500_000, 500_000);
    let (result, _) = graduate(&mut mock, nominal_params(), owner(), true);
    assert_eq!(result, Ok(()));

    let mut mock = MockWhirlpool::new(500_000, 500_001);
    let (result, _) = graduate(&mut mock, nominal_params(), owner(), true);
    assert_eq!(result.unwrap_err().step, Step::IncreaseLiquidity);

    let mut mock = MockWhirlpool::new(500_001, 0);
    let (result, _) = graduate(&mut mock, nominal_params(), owner(), true);
    assert_eq!(result.unwrap_err().step, Step::IncreaseLiquidity);
}

#[test]
fn first_failure_stops_the_run() {
    for k in 0..6usize {
        let mut run: Graduation<u32> = Graduation::new(nominal_params(), owner(), true);
        let mut made: Vec<Step> = Vec::new();
        let mut i: usize = 0;
        while let Some(call) = run.next_call() {
            made.push(call.step_of());
            run.record(if i == k { Err(40 + k as u32) } else { Ok(()) });
            i += 1;
        }
        assert_eq!(made, ALL_STEPS[..=k].to_vec());
        assert_eq!(run.stage(), Stage::Aborted(ALL_STEPS[k]));
        assert!(!run.is_running());
        assert_eq!(run.finish(), Err(StepFailure { step: ALL_STEPS[k], reason: 40 + k as u32 }));
    }
}

#[test]
fn stages_follow_the_steps() {
    let mut run: Graduation<u32> = Graduation::new(nominal_params(), owner(), true);
    let expected = [
        Stage::Start,
        Stage::PoolInitialized,
        Stage::LowerTickArrayInitialized,
        Stage::TickArraysInitialized,
        Stage::PositionOpened,
        Stage::LiquidityAdded,
        Stage::Locked,
    ];
    assert_eq!(run.stage(), expected[0]);
    for stage in &expected[1..] {
        assert!(run.is_running());
        run.record(Ok(()));
        assert_eq!(run.stage(), *stage);
    }
    assert_eq!(run.next_call(), None);
    assert_eq!(run.finish(), Ok(()));
}

#[test]
fn signer_only_on_liquidity_and_lock() {
    let authority = owner();
    let calls = graduation_plan(&nominal_params(), &authority, true);
    let signers: Vec<Option<Authority>> = calls.iter().map(|c| c.signer()).collect();
    assert_eq!(signers, vec![None, None, None, None, Some(authority), Some(authority)]);
    let seeds_a = calls[4].signer().unwrap().signer_seeds();
    let seeds_b = calls[5].signer().unwrap().signer_seeds();
    assert_eq!(seeds_a, seeds_b);
    assert_eq!(seeds_a, vec![b"position_owner".to_vec(), vec![authority.bump]]);
}

#[test]
fn second_run_fails_at_pool() {
    let mut mock = MockWhirlpool::new(1, 1);
    assert_eq!(graduate(&mut mock, nominal_params(), owner(), true).0, Ok(()));
    mock.log.clear();
    let (result, stage) = graduate(&mut mock, nominal_params(), owner(), true);
    let failure = result.unwrap_err();
    assert_eq!(failure.step, Step::InitializePool);
    assert_eq!(failure.reason, "pool already exists");
    assert_eq!(stage, Stage::Aborted(Step::InitializePool));
    assert_eq!(steps(&mock.log), vec![Step::InitializePool]);
}

#[test]
fn reused_position_mint_fails_at_open_position() {
    let mut mock = MockWhirlpool::new(1, 1);
    assert_eq!(graduate(&mut mock, nominal_params(), owner(), true).0, Ok(()));
    // A fresh pool, but the same position mint.
    let used = mock.ledger.position_mints.clone();
    mock.ledger = Ledger { position_mints: used, ..Ledger::default() };
    mock.log.clear();
    let (result, _) = graduate(&mut mock, nominal_params(), owner(), true);
    assert_eq!(result.unwrap_err().step, Step::OpenPosition);
    assert_eq!(steps(&mock.log), ALL_STEPS[..4].to_vec());
}

#[test]
fn run_without_lock_leaves_position_unlocked() {
    let mut mock = MockWhirlpool::new(1, 1);
    let authority = owner();
    let (result, stage) = graduate(&mut mock, nominal_params(), authority, false);
    assert_eq!(result, Ok(()));
    assert_eq!(stage, Stage::LiquidityAdded);
    assert_eq!(steps(&mock.log), ALL_STEPS[..5].to_vec());
    assert_eq!(graduation_plan(&nominal_params(), &authority, false).len(), 5);
    assert!(!mock.ledger.locked);
}

#[test]
fn derived_authority_matches_runtime_derivation() {
    let id = Pubkey::new_from_array(PROGRAM_ID);
    for bump in [255u8, 254, 200, 17, 0] {
        let expected = Pubkey::create_program_address(&[b"position_owner", &[bump]], &id);
        match (derive_authority(&PROGRAM_ID, bump), expected) {
            (Ok(a), Ok(k)) => {
                assert_eq!(a.address, k.to_bytes());
                assert_ne!(a.address, PROGRAM_ID);
                assert_eq!(a.bump, bump);
            }
            (Err(e), Err(_)) => assert_eq!(e, AuthorityError::NotProgramAddress),
            (ours, theirs) => panic!("derivations differ: {:?} {:?}", ours, theirs),
        }
    }
}

#[test]
fn derived_authority_depends_on_bump() {
    let (_, bump) =
        Pubkey::find_program_address(&[b"position_owner"], &Pubkey::new_from_array(PROGRAM_ID));
    let first = derive_authority(&PROGRAM_ID, bump).unwrap();
    let other = Pubkey::find_program_address(&[b"other_label"], &Pubkey::new_from_array(PROGRAM_ID));
    assert_ne!(first.address, other.0.to_bytes());
    assert_eq!(owner_label_bytes(), b"position_owner".to_vec());
}

#[test]
fn step_labels_and_order() {
    let labels: Vec<&str> = ALL_STEPS.iter().map(|s| s.label()).collect();
    assert_eq!(labels, vec!["1", "2", "3", "4", "5a", "5b"]);
    for (i, s) in ALL_STEPS.iter().enumerate() {
        assert_eq!(step_at_index(i), *s);
    }
}
