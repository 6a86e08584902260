use node_core::decimal::append_decimal;
use node_core::primitives::{L1BatchNumber, L2ChainId, MiniblockNumber, U256};
use node_core::vm_utils::{
    execute_tx, prepare_vm_env_for_l1_batch, PrepareVmEnvError, SystemContracts, TxExecution,
    VmReply,
};

#[test]
fn snapshot_is_discarded_after_successful_compression() {
    let step = execute_tx();
    assert_eq!(step, TxExecution::MakeSnapshot);
    let step = step.next(VmReply::Done);
    assert_eq!(
        step,
        TxExecution::InspectTransaction {
            with_compression: true
        }
    );
    let step = step.next(VmReply::Inspected {
        compression_succeeded: true,
    });
    assert_eq!(step, TxExecution::PopSnapshotNoRollback);
    assert_eq!(step.next(VmReply::Done), TxExecution::Finished);
}

#[test]
fn snapshot_is_kept_after_failed_compression() {
    let step = execute_tx().next(VmReply::Done).next(VmReply::Inspected {
        compression_succeeded: false,
    });
    assert_eq!(step, TxExecution::Finished);
}

#[test]
fn vm_env_is_taken_from_the_last_miniblock_of_the_previous_batch() {
    let query = prepare_vm_env_for_l1_batch(L1BatchNumber(8), L2ChainId(270));
    assert_eq!(query.prev_l1_batch_number, L1BatchNumber(7));
    let found: Result<_, &str> = Ok(Some((MiniblockNumber(20), MiniblockNumber(25))));
    let request = query.found(found).unwrap();
    assert_eq!(request.l1_batch_number, L1BatchNumber(8));
    assert_eq!(request.validation_computational_gas_limit, u32::MAX);
    assert_eq!(request.l2_chain_id, L2ChainId(270));
    assert_eq!(request.miniblock_number, MiniblockNumber(25));
    assert_eq!(request.base_system_contracts, SystemContracts::OfMiniblock);
    let built: Result<&str, &str> = Ok("env");
    assert_eq!(request.built(built).unwrap(), ("env", MiniblockNumber(25)));
}

#[test]
fn previous_batch_without_miniblocks_is_an_error() {
    let query = prepare_vm_env_for_l1_batch(L1BatchNumber(1), L2ChainId(270));
    assert_eq!(query.prev_l1_batch_number, L1BatchNumber(0));
    let found: Result<_, &str> = Ok(None);
    let err = query.found(found).unwrap_err();
    assert!(matches!(
        err,
        PrepareVmEnvError::NoPreviousMiniblock(L1BatchNumber(1))
    ));
    assert_eq!(
        err.context().unwrap(),
        "l1_batch_number L1BatchNumber(1) must have a previous miniblock to start from"
    );
}

#[test]
fn failed_range_lookup_is_passed_on() {
    let query = prepare_vm_env_for_l1_batch(L1BatchNumber(3), L2ChainId(270));
    let err = query.found(Err("no connection")).unwrap_err();
    assert!(err.context().is_none());
    assert!(matches!(
        err,
        PrepareVmEnvError::MiniblockRange("no connection")
    ));
}

#[test]
fn failed_creation_of_vm_env_is_explained() {
    let query = prepare_vm_env_for_l1_batch(L1BatchNumber(4096), L2ChainId(270));
    let found: Result<_, &str> = Ok(Some((MiniblockNumber(2), MiniblockNumber(3))));
    let request = query.found(found).unwrap();
    let built: Result<u8, &str> = Err("no contracts");
    let err = request.built(built).unwrap_err();
    assert_eq!(
        err.context().unwrap(),
        "failed to create vm env for l1_batch_number L1BatchNumber(4096)"
    );
    assert!(matches!(
        err,
        PrepareVmEnvError::VmEnv(L1BatchNumber(4096), "no contracts")
    ));
}

#[test]
fn decimal_notation() {
    for number in [0, 9, 10, 100, 1234567890, u64::MAX] {
        let mut text = "#".to_string();
        append_decimal(&mut text, number);
        assert_eq!(text, format!("#{}", number));
    }
}

#[test]
fn words_of_256_bit_numbers() {
    assert!(U256([0xffff_ffff, 0, 0, 0]).fits_u32());
    assert_eq!(U256([0xffff_ffff, 0, 0, 0]).as_u32(), u32::MAX);
    assert_eq!(U256([21_000, 0, 0, 0]).as_u32(), 21_000);
    assert!(!U256([0x1_0000_0000, 0, 0, 0]).fits_u32());
    assert!(!U256([0, 1, 0, 0]).fits_u32());
    assert!(!U256([0, 0, 1, 0]).fits_u32());
    assert!(!U256([0, 0, 0, 1]).fits_u32());
}
