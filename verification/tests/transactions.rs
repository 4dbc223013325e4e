use meteora_damm_v2_cpi::{
    add_liquidity, AccountRef, AddLiquidityCtx, Address, Phase, ProtocolAddresses, Step,
    Transaction,
};

fn key(n: u8) -> Address {
    Address { bytes: [n; 32] }
}

fn account(n: u8, is_signer: bool, is_writable: bool) -> AccountRef {
    AccountRef { key: key(n), is_signer, is_writable }
}

fn addresses() -> ProtocolAddresses {
    ProtocolAddresses {
        amm_program: key(200),
        pool_authority: key(201),
        native_mint: key(202),
        token_2022_program: key(203),
    }
}

fn funded_plan(amount: u64) -> Vec<Step> {
    let ctx = AddLiquidityCtx {
        pool: account(1, false, true),
        position: account(2, false, true),
        token_a_account: account(3, false, true),
        token_b_account: account(4, false, true),
        token_a_vault: account(5, false, true),
        token_b_vault: account(6, false, true),
        token_a_mint: account(7, false, false),
        token_b_mint: account(202, false, false),
        position_nft_account: account(9, false, false),
        owner: account(10, true, false),
        token_a_program: account(11, false, false),
        token_b_program: account(12, false, false),
        system_program: account(0, false, false),
        event_authority: account(13, false, false),
        amm_program: account(200, false, false),
    };
    add_liquidity(&ctx, &addresses(), 1000, 1, 1, Some(amount)).unwrap()
}

/// A small model of the ledger: native balances by the first byte of the
/// address, with the writes of a transaction staged until it commits.
struct Ledger {
    settled: [u64; 256],
    staged: [u64; 256],
}

impl Ledger {
    fn new() -> Ledger {
        let mut settled = [0u64; 256];
        settled[10] = 1_000;
        Ledger { settled, staged: settled }
    }

    fn perform(&mut self, step: &Step, delegated_call_fails: bool) -> Result<(), u32> {
        match step {
            Step::Transfer { from, to, lamports, .. } => {
                let from = from.key.bytes[0] as usize;
                let to = to.key.bytes[0] as usize;
                if self.staged[from] < *lamports {
                    return Err(1);
                }
                self.staged[from] -= *lamports;
                self.staged[to] += *lamports;
                Ok(())
            }
            Step::SyncNative { .. } => Ok(()),
            Step::Delegate(_) => {
                if delegated_call_fails {
                    Err(6001)
                } else {
                    Ok(())
                }
            }
        }
    }

    fn run(&mut self, plan: Vec<Step>, delegated_call_fails: bool) -> Result<(), u32> {
        let mut tx = Transaction::begin(plan);
        let mut result = Ok(());
        loop {
            let outcome = match tx.current() {
                Some(step) => self.perform(step, delegated_call_fails),
                None => break,
            };
            result = tx.report(outcome);
            if result.is_err() {
                break;
            }
        }
        if tx.phase() == Phase::Committed {
            self.settled = self.staged;
        } else {
            self.staged = self.settled;
        }
        result
    }
}

#[test]
fn a_failed_delegated_call_leaves_the_funding_account_unchanged() {
    let mut ledger = Ledger::new();
    assert_eq!(ledger.run(funded_plan(400), true), Err(6001));
    assert_eq!(ledger.settled[10], 1_000);
    assert_eq!(ledger.settled[4], 0);
}

#[test]
fn a_successful_transaction_keeps_the_wrap() {
    let mut ledger = Ledger::new();
    assert_eq!(ledger.run(funded_plan(400), false), Ok(()));
    assert_eq!(ledger.settled[10], 600);
    assert_eq!(ledger.settled[4], 400);
}

#[test]
fn a_failed_transfer_prevents_the_delegated_call() {
    let mut tx = Transaction::begin(funded_plan(5_000));
    assert!(matches!(tx.current(), Some(Step::Transfer { lamports: 5_000, .. })));
    assert_eq!(tx.report(Err::<(), &str>("insufficient funds")), Err("insufficient funds"));
    assert_eq!(tx.phase(), Phase::Aborted);
    assert_eq!(tx.current(), None);
    assert_eq!(tx.completed(), 0);
}

#[test]
fn steps_come_in_order_and_commit_after_the_last() {
    let mut tx = Transaction::begin(funded_plan(7));
    assert_eq!(tx.phase(), Phase::Running);
    assert!(matches!(tx.current(), Some(Step::Transfer { .. })));
    assert_eq!(tx.report(Ok::<(), u32>(())), Ok(()));
    assert!(matches!(tx.current(), Some(Step::SyncNative { .. })));
    assert_eq!(tx.report(Ok::<(), u32>(())), Ok(()));
    assert!(matches!(tx.current(), Some(Step::Delegate(_))));
    assert_eq!(tx.phase(), Phase::Running);
    assert_eq!(tx.completed(), 2);
    assert_eq!(tx.report(Ok::<(), u32>(())), Ok(()));
    assert_eq!(tx.phase(), Phase::Committed);
    assert_eq!(tx.current(), None);
    assert_eq!(tx.completed(), 3);
}

#[test]
fn a_failed_sync_aborts_with_its_error() {
    let mut tx = Transaction::begin(funded_plan(7));
    assert_eq!(tx.report(Ok::<(), u32>(())), Ok(()));
    assert_eq!(tx.report(Err::<(), u32>(17)), Err(17));
    assert_eq!(tx.phase(), Phase::Aborted);
    assert_eq!(tx.current(), None);
    assert_eq!(tx.completed(), 1);
}

#[test]
fn a_finished_transaction_takes_no_further_report() {
    let mut tx = Transaction::begin(funded_plan(7));
    assert_eq!(tx.report(Err::<(), u32>(3)), Err(3));
    assert_eq!(tx.report(Ok::<(), u32>(())), Ok(()));
    assert_eq!(tx.phase(), Phase::Aborted);
    assert_eq!(tx.completed(), 0);
    let mut done = Transaction::begin(Vec::new());
    assert_eq!(done.phase(), Phase::Committed);
    assert_eq!(done.current(), None);
    assert_eq!(done.report(Err::<(), u32>(3)), Err(3));
    assert_eq!(done.phase(), Phase::Committed);
}
