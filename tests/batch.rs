use solana_sdk::pubkey::Pubkey;
use solana_sdk::signature::Keypair;
use solana_sdk::signer::Signer;
use transfer_batch::dispatch::{plan_batch, PlanError, TransferRequest};
use transfer_batch::executor::{Execution, ExecutorAction, ExecutorEvent, Phase, TransferOutcome, TransferStatus};
use transfer_batch::keys::{address_text, parse_recipient, sender_public_key};
use transfer_batch::results::{BatchResults, ResultSet};

fn sender() -> (String, String) {
    let kp = Keypair::new();
    (kp.to_base58_string(), kp.pubkey().to_string())
}

fn recipient() -> String {
    Keypair::new().pubkey().to_string()
}

fn plan(senders: &[String], recipients: &[String], amount: u64) -> Vec<TransferRequest> {
    match plan_batch(&senders.to_vec(), &recipients.to_vec(), amount) {
        Ok(reqs) => reqs,
        Err(e) => panic!("planning failed: {:?}", e),
    }
}

/// Runs one request through the executor with the given service replies.
fn run(request: &TransferRequest, replies: Vec<ExecutorEvent>) -> TransferOutcome {
    let (mut exec, first) = Execution::start(request);
    assert!(matches!(first, ExecutorAction::FetchReferencePoint));
    for event in replies {
        if let ExecutorAction::Report(outcome) = exec.advance(event) {
            return outcome;
        }
    }
    panic!("no outcome");
}

fn lines(results: &ResultSet) -> Vec<(String, String, String, String, u64)> {
    results
        .entries()
        .iter()
        .map(|o| (o.source.clone(), o.destination.clone(), o.reference_text(), o.status_text(), o.elapsed_nanos))
        .collect()
}

#[test]
fn all_valid_pairs_give_one_outcome_each() {
    let senders: Vec<String> = (0..4).map(|_| sender().0).collect();
    let recipients: Vec<String> = (0..4).map(|_| recipient()).collect();
    let reqs = plan(&senders, &recipients, 7);
    assert_eq!(reqs.len(), 4);
    let mut batch = BatchResults::new(reqs.len());
    for (i, r) in reqs.iter().enumerate() {
        let outcome = run(r, vec![
            ExecutorEvent::ReferencePointObtained,
            ExecutorEvent::Confirmed { reference: format!("sig{}", i), elapsed_nanos: 5 },
        ]);
        assert!(batch.record(outcome));
    }
    assert!(batch.is_complete());
    assert_eq!(batch.finish().unwrap().len(), 4);
}

#[test]
fn scenario_both_operations_succeed() {
    let (s1, a1) = sender();
    let (s2, a2) = sender();
    let r1 = recipient();
    let r2 = recipient();
    let reqs = plan(&[s1, s2], &[r1.clone(), r2.clone()], 1000);
    assert_eq!(reqs.len(), 2);
    assert_eq!(reqs[0].source, a1);
    assert_eq!(reqs[0].destination, r1);
    assert_eq!(reqs[1].source, a2);
    assert_eq!(reqs[1].destination, r2);
    assert_eq!(reqs[0].amount, 1000);
    let mut results = ResultSet::new();
    for r in &reqs {
        results.append(run(r, vec![
            ExecutorEvent::ReferencePointObtained,
            ExecutorEvent::Confirmed { reference: "5VERv8NMvzbJMEkV8xnrLkEaWRtSz9CosKDYjCJjBRnb".to_string(), elapsed_nanos: 1_500_000 },
        ]));
    }
    let report = lines(&results);
    assert_eq!(report.len(), 2);
    for line in &report {
        assert_eq!(line.3, "Success");
        assert_ne!(line.2, "N/A");
        assert_eq!(line.4, 1_500_000);
    }
}

#[test]
fn scenario_malformed_recipient_is_skipped() {
    let senders: Vec<String> = (0..3).map(|_| sender().0).collect();
    let good1 = recipient();
    let good3 = recipient();
    let recipients = vec![good1.clone(), "not-an-address".to_string(), good3.clone()];
    let reqs = plan(&senders, &recipients, 5);
    assert_eq!(reqs.len(), 2);
    assert_eq!(reqs[0].destination, good1);
    assert_eq!(reqs[1].destination, good3);
    assert_eq!(reqs[0].sender_secret, senders[0]);
    assert_eq!(reqs[1].sender_secret, senders[2]);
    let mut results = ResultSet::new();
    for r in &reqs {
        results.append(run(r, vec![
            ExecutorEvent::ReferencePointObtained,
            ExecutorEvent::Confirmed { reference: "abc".to_string(), elapsed_nanos: 1 },
        ]));
    }
    assert_eq!(lines(&results).len(), 2);
}

#[test]
fn one_malformed_recipient_removes_exactly_one() {
    let senders: Vec<String> = (0..3).map(|_| sender().0).collect();
    let valid: Vec<String> = (0..3).map(|_| recipient()).collect();
    let mut altered = valid.clone();
    altered[1] = "0OIl".to_string();
    assert_eq!(plan(&senders, &valid, 1).len(), 3);
    assert_eq!(plan(&senders, &altered, 1).len(), 2);
}

#[test]
fn scenario_reference_point_failure() {
    let (s, a) = sender();
    let r = recipient();
    let reqs = plan(&[s], &[r.clone()], 9);
    assert_eq!(reqs.len(), 1);
    let outcome = run(&reqs[0], vec![ExecutorEvent::ReferencePointFailed { cause: "connection refused".to_string() }]);
    let mut results = ResultSet::new();
    results.append(outcome);
    let report = lines(&results);
    assert_eq!(report.len(), 1);
    assert_eq!(report[0].0, a);
    assert_eq!(report[0].1, r);
    assert_eq!(report[0].2, "N/A");
    assert!(report[0].3.contains("connection refused"));
    assert_eq!(report[0].3, "Failed: could not obtain reference point: connection refused");
    assert_eq!(report[0].4, 0);
}

#[test]
fn submission_failure_is_marked_and_has_no_reference() {
    let (s, _) = sender();
    let reqs = plan(&[s], &[recipient()], 9);
    let outcome = run(&reqs[0], vec![
        ExecutorEvent::ReferencePointObtained,
        ExecutorEvent::SubmissionFailed { cause: "insufficient funds".to_string() },
    ]);
    assert!(outcome.status_text().starts_with("Failed: "));
    assert_eq!(outcome.status_text(), "Failed: insufficient funds");
    assert!(outcome.reference().is_none());
    assert!(!outcome.status.is_success());
    assert_eq!(outcome.elapsed_nanos, 0);
}

#[test]
fn success_exactly_when_reference_present() {
    let ok = TransferOutcome {
        source: "a".to_string(),
        destination: "b".to_string(),
        status: TransferStatus::Success { reference: "sig".to_string() },
        elapsed_nanos: 3,
    };
    let failed = TransferOutcome {
        source: "a".to_string(),
        destination: "b".to_string(),
        status: TransferStatus::Failed { reason: "boom".to_string() },
        elapsed_nanos: 0,
    };
    assert!(ok.status.is_success());
    assert_eq!(ok.reference(), Some("sig".to_string()));
    assert_eq!(ok.reference_text(), "sig");
    assert!(!failed.status.is_success());
    assert_eq!(failed.reference(), None);
    assert_eq!(failed.reference_text(), "N/A");
}

#[test]
fn unequal_lists_pair_up_to_the_shorter() {
    let senders: Vec<String> = (0..3).map(|_| sender().0).collect();
    let recipients: Vec<String> = (0..2).map(|_| recipient()).collect();
    let reqs = plan(&senders, &recipients, 2);
    assert_eq!(reqs.len(), 2);
    assert!(reqs.iter().all(|r| r.sender_secret != senders[2]));
    let more_recipients: Vec<String> = (0..4).map(|_| recipient()).collect();
    assert_eq!(plan(&senders, &more_recipients, 2).len(), 3);
}

#[test]
fn empty_lists_plan_nothing() {
    assert_eq!(plan(&[], &[], 1).len(), 0);
    assert_eq!(plan(&[sender().0], &[], 1).len(), 0);
}

#[test]
fn malformed_sender_fails_the_batch() {
    let good = sender().0;
    let recipients: Vec<String> = (0..3).map(|_| recipient()).collect();
    let senders = vec![good.clone(), "not a key".to_string(), good.clone()];
    assert!(matches!(
        plan_batch(&senders, &recipients, 1),
        Err(PlanError::MalformedSender { position: 1 })
    ));
    // well-formed base58 of the wrong length
    let short = vec!["3yZe7d".to_string()];
    assert!(matches!(
        plan_batch(&short, &recipients, 1),
        Err(PlanError::MalformedSender { position: 0 })
    ));
    // a sender past the end of the recipients is never looked at
    let tail = vec![good, "not a key".to_string()];
    assert!(plan_batch(&tail, &recipients[..1].to_vec(), 1).is_ok());
}

#[test]
fn recipient_parsing() {
    let key = Pubkey::new_unique();
    let text = key.to_string();
    let bytes = parse_recipient(&text).unwrap();
    assert_eq!(bytes, key.to_bytes().to_vec());
    assert_eq!(address_text(&bytes), text);
    assert!(parse_recipient("").is_none());
    assert!(parse_recipient("0OIl").is_none());
    assert!(parse_recipient(&"1".repeat(45)).is_none());
}

#[test]
fn address_text_is_base58() {
    let bytes = vec![0u8; 32];
    assert_eq!(address_text(&bytes), "11111111111111111111111111111111");
}

#[test]
fn sender_key_is_public_half() {
    let kp = Keypair::new();
    let key = sender_public_key(&kp.to_base58_string()).unwrap();
    assert_eq!(key, kp.pubkey().to_bytes().to_vec());
    assert!(sender_public_key("").is_none());
    assert!(sender_public_key(&Pubkey::new_unique().to_string()).is_none());
}

#[test]
fn replies_out_of_phase_are_ignored() {
    let (s, _) = sender();
    let reqs = plan(&[s], &[recipient()], 1);
    let (mut exec, _) = Execution::start(&reqs[0]);
    let a = exec.advance(ExecutorEvent::Confirmed { reference: "x".to_string(), elapsed_nanos: 1 });
    assert!(matches!(a, ExecutorAction::Ignore));
    assert_eq!(exec.phase, Phase::AwaitingReferencePoint);
    assert!(matches!(exec.advance(ExecutorEvent::ReferencePointObtained), ExecutorAction::SignAndSubmit));
    assert_eq!(exec.phase, Phase::AwaitingConfirmation);
    let a = exec.advance(ExecutorEvent::ReferencePointFailed { cause: "late".to_string() });
    assert!(matches!(a, ExecutorAction::Ignore));
    assert!(matches!(
        exec.advance(ExecutorEvent::Confirmed { reference: "x".to_string(), elapsed_nanos: 1 }),
        ExecutorAction::Report(_)
    ));
    assert_eq!(exec.phase, Phase::Finished);
    assert!(matches!(exec.advance(ExecutorEvent::ReferencePointObtained), ExecutorAction::Ignore));
}

#[test]
fn appends_in_any_order_keep_every_entry() {
    let outcome = |i: u64| TransferOutcome {
        source: format!("s{}", i),
        destination: format!("d{}", i),
        status: TransferStatus::Success { reference: format!("r{}", i) },
        elapsed_nanos: i,
    };
    let order = [3u64, 0, 4, 1, 2];
    let mut results = ResultSet::new();
    for &i in &order {
        results.append(outcome(i));
    }
    assert_eq!(results.len(), 5);
    let mut seen: Vec<u64> = results.into_entries().iter().map(|o| o.elapsed_nanos).collect();
    seen.sort();
    assert_eq!(seen, vec![0, 1, 2, 3, 4]);
}

#[test]
fn batch_results_wait_for_every_outcome() {
    let outcome = || TransferOutcome {
        source: "s".to_string(),
        destination: "d".to_string(),
        status: TransferStatus::Failed { reason: "x".to_string() },
        elapsed_nanos: 0,
    };
    let mut batch = BatchResults::new(2);
    assert!(!batch.is_complete());
    assert!(batch.record(outcome()));
    assert!(!batch.is_complete());
    assert!(batch.record(outcome()));
    assert!(batch.is_complete());
    assert!(!batch.record(outcome()));
    assert_eq!(batch.finish().unwrap().len(), 2);
    let mut partial = BatchResults::new(2);
    partial.record(outcome());
    assert!(partial.finish().is_none());
    assert!(BatchResults::new(0).finish().is_some());
}
