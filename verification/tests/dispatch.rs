use relayer::{Datagram, Dispatcher, Disposition, Error, Proof, SubmitOutcome};

fn datagram(tag: u8) -> Datagram {
    Datagram::ConnOpenConfirm {
        identifier: vec![tag],
        proof_ack: Proof { nodes: vec![vec![tag]] },
        proof_height: 1,
    }
}

#[test]
fn nonce_monotonicity() {
    let mut dispatcher = Dispatcher::new(b"alice".to_vec(), 5);
    let batch = vec![datagram(1), datagram(2), datagram(3)];
    let txs = dispatcher.dispatch_batch(batch.clone());
    assert_eq!(txs.len(), 3);
    for (i, tx) in txs.iter().enumerate() {
        assert_eq!(tx.nonce, 5 + i as u64);
        assert_eq!(tx.signer, b"alice".to_vec());
        assert_eq!(tx.datagram, batch[i]);
    }
    let mut nonces: Vec<u64> = txs.iter().map(|t| t.nonce).collect();
    nonces.sort();
    nonces.dedup();
    assert_eq!(nonces, vec![5, 6, 7]);
    assert_eq!(dispatcher.next_nonce, 8);
}

#[test]
fn accepted_submission_advances_the_nonce() {
    let mut dispatcher = Dispatcher::new(b"alice".to_vec(), 5);
    let report = dispatcher.submit_with_retry(
        datagram(1),
        SubmitOutcome::Accepted,
        SubmitOutcome::Accepted,
    );
    assert_eq!(report.disposition, Disposition::Delivered);
    assert_eq!(report.sequence_reads, 0);
    assert_eq!(report.transactions.len(), 1);
    assert_eq!(report.transactions[0].nonce, 5);
    assert_eq!(report.error(), None);
    assert_eq!(dispatcher.next_nonce, 6);
}

#[test]
fn resynchronization_after_rejection() {
    let mut dispatcher = Dispatcher::new(b"alice".to_vec(), 5);
    let report = dispatcher.submit_with_retry(
        datagram(1),
        SubmitOutcome::RejectedStaleNonce { chain_sequence: 9 },
        SubmitOutcome::Accepted,
    );
    assert_eq!(report.sequence_reads, 1);
    assert_eq!(report.transactions.len(), 2);
    assert_eq!(report.transactions[0].nonce, 5);
    assert_eq!(report.transactions[1].nonce, 9);
    assert_eq!(report.disposition, Disposition::Delivered);
    assert_eq!(dispatcher.next_nonce, 10);
}

#[test]
fn second_rejection_is_terminal() {
    let mut dispatcher = Dispatcher::new(b"alice".to_vec(), 5);
    let report = dispatcher.submit_with_retry(
        datagram(1),
        SubmitOutcome::RejectedStaleNonce { chain_sequence: 9 },
        SubmitOutcome::RejectedOther,
    );
    assert_eq!(report.sequence_reads, 1);
    assert_eq!(report.transactions.len(), 2);
    assert_eq!(report.disposition, Disposition::Failed);
    assert_eq!(report.error(), Some(Error::SubmissionRejected));
    assert_eq!(dispatcher.next_nonce, 9);
}

#[test]
fn other_rejections_drop_the_datagram() {
    let mut dispatcher = Dispatcher::new(b"alice".to_vec(), 5);
    let report = dispatcher.submit_with_retry(
        datagram(1),
        SubmitOutcome::RejectedOther,
        SubmitOutcome::Accepted,
    );
    assert_eq!(report.disposition, Disposition::Dropped);
    assert_eq!(report.sequence_reads, 0);
    assert_eq!(report.transactions.len(), 1);
    assert_eq!(report.error(), None);
    assert_eq!(dispatcher.next_nonce, 5);
}

#[test]
fn transactions_carry_the_datagram_unchanged() {
    let dispatcher = Dispatcher::new(b"bob".to_vec(), 0);
    let tx = dispatcher.build_transaction(datagram(9));
    assert_eq!(tx.signer, b"bob".to_vec());
    assert_eq!(tx.nonce, 0);
    assert_eq!(tx.datagram, datagram(9));
}
