use ord_send::chain_data::{contains_outpoint, merge_candidates, InscriptionLocations, UnspentOutputs};
use ord_send::dispatch::{
    ChainSnapshot, ChangeAddresses, Send, SendEvent, SendState, Target,
};
use ord_send::guard::protect;
use ord_send::resolver::{resolve, ResolvedTarget};
use ord_send::types::{
    FeeRate, InscriptionId, InvalidTargetReason, Outgoing, OutPoint, Output, SatPoint, SendError,
    Txid,
};

fn txid(n: u64) -> Txid {
    Txid { w0: n, w1: 0, w2: 0, w3: 0 }
}

fn outpoint(n: u64, vout: u32) -> OutPoint {
    OutPoint { txid: txid(n), vout }
}

fn satpoint(n: u64, vout: u32, offset: u64) -> SatPoint {
    SatPoint { outpoint: outpoint(n, vout), offset }
}

fn fee(millisats_per_vb: u64) -> FeeRate {
    FeeRate { millisats_per_vb }
}

fn inscription_id(n: u64) -> InscriptionId {
    InscriptionId { txid: txid(n), index: 0 }
}

/// A snapshot with one inscribed unspent output (1:0), one plain unspent
/// output (2:1), and one rune-bearing output (3:0).
fn sample_snapshot() -> ChainSnapshot {
    ChainSnapshot {
        unspent_outputs: UnspentOutputs {
            entries: vec![(outpoint(1, 0), 8000), (outpoint(2, 1), 90000)],
        },
        locked_outputs: vec![outpoint(4, 0)],
        inscriptions: InscriptionLocations {
            entries: vec![(satpoint(1, 0, 0), inscription_id(9))],
        },
        runic_outputs: vec![outpoint(3, 0)],
        inscription_satpoint: None,
    }
}

fn sample_request(outgoing: Outgoing) -> Send {
    Send {
        address: "bc1qdestination".to_string(),
        outgoing,
        utxo: vec![],
        coin_control: false,
        fee_rate: fee(5000),
        postage: None,
        force_input: vec![],
    }
}

#[test]
fn satpoint_equal_to_inscription_location_is_invalid_target() {
    let snapshot = sample_snapshot();
    let r = resolve(
        Outgoing::SatPoint(satpoint(1, 0, 0)),
        &snapshot.inscriptions,
        &snapshot.runic_outputs,
        None,
        false,
        false,
    );
    assert_eq!(
        r,
        Err(SendError::InvalidTarget(InvalidTargetReason::InscriptionLocation))
    );
}

#[test]
fn satpoint_on_runic_output_is_invalid_target() {
    let snapshot = sample_snapshot();
    let r = resolve(
        Outgoing::SatPoint(satpoint(3, 0, 500)),
        &snapshot.inscriptions,
        &snapshot.runic_outputs,
        None,
        false,
        false,
    );
    assert_eq!(
        r,
        Err(SendError::InvalidTarget(InvalidTargetReason::RunicOutput))
    );
}

#[test]
fn valid_satpoint_resolves_unchanged() {
    let snapshot = sample_snapshot();
    let target = satpoint(2, 1, 42);
    let r = resolve(
        Outgoing::SatPoint(target),
        &snapshot.inscriptions,
        &snapshot.runic_outputs,
        None,
        false,
        false,
    );
    assert_eq!(r, Ok(ResolvedTarget::Location(target)));
}

#[test]
fn amount_with_coin_control_is_invalid_request() {
    let snapshot = sample_snapshot();
    let r = resolve(
        Outgoing::Amount(50000),
        &snapshot.inscriptions,
        &snapshot.runic_outputs,
        None,
        true,
        false,
    );
    assert_eq!(r, Err(SendError::InvalidRequest));
}

#[test]
fn amount_with_explicit_utxos_is_invalid_request() {
    let snapshot = sample_snapshot();
    let mut request = sample_request(Outgoing::Amount(50000));
    request.utxo = vec![outpoint(2, 1)];
    let state = request.run(snapshot);
    assert_eq!(
        state,
        SendState::Failed { error: SendError::InvalidRequest }
    );
}

#[test]
fn guard_locks_inscribed_unspent_and_runic_outputs() {
    let snapshot = sample_snapshot();
    let to_lock = protect(
        &snapshot.unspent_outputs,
        &snapshot.inscriptions,
        &snapshot.runic_outputs,
    );
    assert_eq!(to_lock, vec![outpoint(1, 0), outpoint(3, 0)]);
    assert!(contains_outpoint(&to_lock, &outpoint(1, 0)));
    assert!(contains_outpoint(&to_lock, &outpoint(3, 0)));
    assert!(!contains_outpoint(&to_lock, &outpoint(2, 1)));
}

#[test]
fn guard_ignores_inscriptions_on_spent_outputs() {
    let mut snapshot = sample_snapshot();
    // An inscription on an output the wallet no longer holds is not locked.
    snapshot
        .inscriptions
        .entries
        .push((satpoint(8, 0, 0), inscription_id(10)));
    let to_lock = protect(
        &snapshot.unspent_outputs,
        &snapshot.inscriptions,
        &snapshot.runic_outputs,
    );
    assert_eq!(to_lock, vec![outpoint(1, 0), outpoint(3, 0)]);
}

#[test]
fn guard_with_empty_chain_data_locks_nothing() {
    let unspent = UnspentOutputs { entries: vec![] };
    let inscriptions = InscriptionLocations { entries: vec![] };
    let to_lock = protect(&unspent, &inscriptions, &vec![]);
    assert!(to_lock.is_empty());
}

#[test]
fn direct_amount_send_locks_then_transfers_then_completes() {
    // Scenario: send 50000 satoshis (0.0005 of a whole coin), no coin
    // control; the guard locks the inscribed and runic outputs, then one
    // direct transfer carries the address, amount, and fee rate through.
    let snapshot = sample_snapshot();
    let mut request = sample_request(Outgoing::Amount(50000));
    request.address = "X".to_string();
    request.fee_rate = fee(2500);
    let state = request.run(snapshot);
    match &state {
        SendState::Locking { outputs, address, amount, fee_rate } => {
            assert_eq!(*outputs, vec![outpoint(1, 0), outpoint(3, 0)]);
            assert_eq!(address, "X");
            assert_eq!(*amount, 50000);
            assert_eq!(*fee_rate, fee(2500));
        }
        other => panic!("expected Locking, got {:?}", other),
    }
    let state = state.advance(SendEvent::Locked { success: true });
    assert_eq!(
        state,
        SendState::Transferring {
            address: "X".to_string(),
            amount: 50000,
            fee_rate: fee(2500),
        }
    );
    let state = state.advance(SendEvent::Transferred { result: Ok(txid(77)) });
    assert_eq!(
        state,
        SendState::Done { output: Output { transaction: txid(77) } }
    );
}

#[test]
fn refused_lock_fails_the_send() {
    let snapshot = sample_snapshot();
    let request = sample_request(Outgoing::Amount(50000));
    let state = request.run(snapshot);
    let state = state.advance(SendEvent::Locked { success: false });
    assert_eq!(state, SendState::Failed { error: SendError::LockFailed });
}

#[test]
fn refused_transfer_fails_the_send() {
    let snapshot = sample_snapshot();
    let request = sample_request(Outgoing::Amount(50000));
    let state = request.run(snapshot);
    let state = state.advance(SendEvent::Locked { success: true });
    let state = state.advance(SendEvent::Transferred {
        result: Err("Insufficient funds".to_string()),
    });
    assert_eq!(
        state,
        SendState::Failed {
            error: SendError::BroadcastFailed("Insufficient funds".to_string())
        }
    );
}

#[test]
fn unknown_inscription_id_is_not_found() {
    // Scenario: the identifier's satpoint is unknown; the request fails at
    // resolution and no collaborator call is requested.
    let snapshot = sample_snapshot();
    let id = inscription_id(123);
    let request = sample_request(Outgoing::InscriptionId(id));
    let state = request.run(snapshot);
    assert_eq!(state, SendState::Failed { error: SendError::NotFound(id) });
}

#[test]
fn known_inscription_id_resolves_to_its_satpoint() {
    let mut snapshot = sample_snapshot();
    snapshot.inscription_satpoint = Some(satpoint(1, 0, 0));
    let request = sample_request(Outgoing::InscriptionId(inscription_id(9)));
    let state = request.run(snapshot);
    match state {
        SendState::DerivingChange { pending } => {
            assert_eq!(pending.satpoint, satpoint(1, 0, 0));
        }
        other => panic!("expected DerivingChange, got {:?}", other),
    }
}

#[test]
fn inscribed_satpoint_target_fails_before_any_build_step() {
    // Scenario: the raw satpoint coincides with an inscription's location;
    // the request fails without ever reaching the transaction builder.
    let snapshot = sample_snapshot();
    let request = sample_request(Outgoing::SatPoint(satpoint(1, 0, 0)));
    let state = request.run(snapshot);
    assert_eq!(
        state,
        SendState::Failed {
            error: SendError::InvalidTarget(InvalidTargetReason::InscriptionLocation)
        }
    );
}

#[test]
fn runic_satpoint_target_fails_before_any_build_step() {
    let snapshot = sample_snapshot();
    let request = sample_request(Outgoing::SatPoint(satpoint(3, 0, 0)));
    let state = request.run(snapshot);
    assert_eq!(
        state,
        SendState::Failed {
            error: SendError::InvalidTarget(InvalidTargetReason::RunicOutput)
        }
    );
}

#[test]
fn satpoint_send_builds_signs_then_broadcasts_in_order() {
    // Scenario: a valid, uninscribed, non-runic satpoint with explicit
    // postage and a forced input; the builder receives exact postage and
    // two distinct fresh change addresses, and signing strictly precedes
    // broadcast, each requested exactly once.
    let snapshot = sample_snapshot();
    let target = satpoint(2, 1, 42);
    let forced = outpoint(2, 1);
    let mut request = sample_request(Outgoing::SatPoint(target));
    request.postage = Some(10000);
    request.force_input = vec![forced];
    let state = request.run(snapshot);
    let state = match state {
        SendState::DerivingChange { pending } => {
            assert_eq!(pending.satpoint, target);
            SendState::DerivingChange { pending }
        }
        other => panic!("expected DerivingChange, got {:?}", other),
    };
    let change = ChangeAddresses {
        cardinal: "bc1qchange_cardinal".to_string(),
        postage: "bc1qchange_postage".to_string(),
    };
    let state = state.advance(SendEvent::ChangeDerived { change });
    let state = match state {
        SendState::Building { request: build } => {
            assert_eq!(build.satpoint, target);
            assert_eq!(
                build.unspent_outputs.entries,
                vec![(outpoint(1, 0), 8000), (outpoint(2, 1), 90000)]
            );
            assert_eq!(build.locked_outputs, vec![outpoint(4, 0)]);
            assert_eq!(build.runic_outputs, vec![outpoint(3, 0)]);
            assert_eq!(build.destination, "bc1qdestination");
            assert_ne!(build.change.cardinal, build.change.postage);
            assert_eq!(build.change.cardinal, "bc1qchange_cardinal");
            assert_eq!(build.change.postage, "bc1qchange_postage");
            assert_eq!(build.fee_rate, fee(5000));
            assert_eq!(build.postage, Target::ExactPostage(10000));
            assert_eq!(build.force_input, vec![forced]);
            SendState::Building { request: build }
        }
        other => panic!("expected Building, got {:?}", other),
    };
    let state = state.advance(SendEvent::Built { result: Ok(vec![0xaa, 0xbb]) });
    assert_eq!(
        state,
        SendState::Signing { unsigned_transaction: vec![0xaa, 0xbb] }
    );
    let state = state.advance(SendEvent::Signed { result: Ok(vec![0xcc]) });
    assert_eq!(
        state,
        SendState::Broadcasting { signed_transaction: vec![0xcc] }
    );
    let state = state.advance(SendEvent::Broadcast { result: Ok(txid(55)) });
    assert_eq!(
        state,
        SendState::Done { output: Output { transaction: txid(55) } }
    );
}

#[test]
fn satpoint_send_without_explicit_postage_uses_default_policy() {
    let snapshot = sample_snapshot();
    let request = sample_request(Outgoing::SatPoint(satpoint(2, 1, 0)));
    let state = request.run(snapshot);
    match state {
        SendState::DerivingChange { pending } => {
            assert_eq!(pending.postage, Target::Postage);
        }
        other => panic!("expected DerivingChange, got {:?}", other),
    }
}

#[test]
fn builder_refusal_is_selection_failure() {
    let snapshot = sample_snapshot();
    let request = sample_request(Outgoing::SatPoint(satpoint(2, 1, 0)));
    let state = request.run(snapshot);
    let state = state.advance(SendEvent::ChangeDerived {
        change: ChangeAddresses {
            cardinal: "c1".to_string(),
            postage: "c2".to_string(),
        },
    });
    let state = state.advance(SendEvent::Built {
        result: Err("suitable UTXO not found".to_string()),
    });
    assert_eq!(
        state,
        SendState::Failed {
            error: SendError::SelectionFailed("suitable UTXO not found".to_string())
        }
    );
}

#[test]
fn signing_refusal_is_signing_failure() {
    let snapshot = sample_snapshot();
    let request = sample_request(Outgoing::SatPoint(satpoint(2, 1, 0)));
    let state = request.run(snapshot);
    let state = state.advance(SendEvent::ChangeDerived {
        change: ChangeAddresses {
            cardinal: "c1".to_string(),
            postage: "c2".to_string(),
        },
    });
    let state = state.advance(SendEvent::Built { result: Ok(vec![1]) });
    let state = state.advance(SendEvent::Signed {
        result: Err("wallet locked".to_string()),
    });
    assert_eq!(
        state,
        SendState::Failed {
            error: SendError::SigningFailed("wallet locked".to_string())
        }
    );
}

#[test]
fn broadcast_refusal_is_broadcast_failure() {
    let snapshot = sample_snapshot();
    let request = sample_request(Outgoing::SatPoint(satpoint(2, 1, 0)));
    let state = request.run(snapshot);
    let state = state.advance(SendEvent::ChangeDerived {
        change: ChangeAddresses {
            cardinal: "c1".to_string(),
            postage: "c2".to_string(),
        },
    });
    let state = state.advance(SendEvent::Built { result: Ok(vec![1]) });
    let state = state.advance(SendEvent::Signed { result: Ok(vec![2]) });
    let state = state.advance(SendEvent::Broadcast {
        result: Err("txn-mempool-conflict".to_string()),
    });
    assert_eq!(
        state,
        SendState::Failed {
            error: SendError::BroadcastFailed("txn-mempool-conflict".to_string())
        }
    );
}

#[test]
fn coin_control_prices_only_the_callers_outputs() {
    let snapshot = sample_snapshot();
    let oa = outpoint(20, 0);
    let ob = outpoint(21, 3);
    let mut request = sample_request(Outgoing::SatPoint(satpoint(2, 1, 0)));
    request.coin_control = true;
    request.utxo = vec![oa, ob];
    let state = request.run(snapshot);
    let state = match state {
        SendState::Pricing { needed, pending } => {
            assert_eq!(needed, vec![oa, ob]);
            // Under coin control the wallet's unspent set is ignored.
            assert!(pending.candidates.entries.is_empty());
            SendState::Pricing { needed, pending }
        }
        other => panic!("expected Pricing, got {:?}", other),
    };
    let state = state.advance(SendEvent::Priced { values: vec![(oa, 111), (ob, 222)] });
    match state {
        SendState::DerivingChange { pending } => {
            assert_eq!(pending.candidates.entries, vec![(oa, 111), (ob, 222)]);
        }
        other => panic!("expected DerivingChange, got {:?}", other),
    }
}

#[test]
fn explicit_utxo_already_unspent_keeps_its_known_value() {
    let snapshot = sample_snapshot();
    let mut request = sample_request(Outgoing::SatPoint(satpoint(2, 1, 0)));
    request.utxo = vec![outpoint(2, 1)];
    let state = request.run(snapshot);
    match state {
        // Nothing is missing from the candidate set, so nothing is priced.
        SendState::DerivingChange { pending } => {
            assert_eq!(
                pending.candidates.entries,
                vec![(outpoint(1, 0), 8000), (outpoint(2, 1), 90000)]
            );
        }
        other => panic!("expected DerivingChange, got {:?}", other),
    }
}

#[test]
fn explicit_utxo_not_in_wallet_is_priced_and_merged() {
    let snapshot = sample_snapshot();
    let extra = outpoint(30, 0);
    let mut request = sample_request(Outgoing::SatPoint(satpoint(2, 1, 0)));
    request.utxo = vec![extra, outpoint(2, 1)];
    let state = request.run(snapshot);
    let state = match state {
        SendState::Pricing { needed, pending } => {
            assert_eq!(needed, vec![extra]);
            SendState::Pricing { needed, pending }
        }
        other => panic!("expected Pricing, got {:?}", other),
    };
    let state = state.advance(SendEvent::Priced { values: vec![(extra, 4321)] });
    match state {
        SendState::DerivingChange { pending } => {
            assert_eq!(
                pending.candidates.entries,
                vec![
                    (outpoint(1, 0), 8000),
                    (outpoint(2, 1), 90000),
                    (extra, 4321)
                ]
            );
        }
        other => panic!("expected DerivingChange, got {:?}", other),
    }
}

#[test]
fn merging_a_known_output_keeps_the_first_value() {
    let base = UnspentOutputs { entries: vec![(outpoint(1, 0), 700)] };
    let merged = merge_candidates(base, &vec![(outpoint(1, 0), 999), (outpoint(5, 0), 50)]);
    assert_eq!(
        merged.entries,
        vec![(outpoint(1, 0), 700), (outpoint(5, 0), 50)]
    );
}

#[test]
fn resolution_is_repeatable_on_identical_snapshots() {
    let snapshot = sample_snapshot();
    let r1 = resolve(
        Outgoing::SatPoint(satpoint(2, 1, 7)),
        &snapshot.inscriptions,
        &snapshot.runic_outputs,
        None,
        false,
        false,
    );
    let r2 = resolve(
        Outgoing::SatPoint(satpoint(2, 1, 7)),
        &snapshot.inscriptions,
        &snapshot.runic_outputs,
        None,
        false,
        false,
    );
    assert_eq!(r1, r2);
}

#[test]
fn guard_is_repeatable_on_identical_snapshots() {
    let snapshot = sample_snapshot();
    let l1 = protect(
        &snapshot.unspent_outputs,
        &snapshot.inscriptions,
        &snapshot.runic_outputs,
    );
    let l2 = protect(
        &snapshot.unspent_outputs,
        &snapshot.inscriptions,
        &snapshot.runic_outputs,
    );
    assert_eq!(l1, l2);
}
