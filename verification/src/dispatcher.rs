//! The datagram dispatcher: serializes concurrently discovered datagrams
//! for one destination chain into correctly nonced signed transactions.
//!
//! One dispatcher owns the sequence counter for one (destination chain,
//! signer) pair.  The counter starts from the destination's current account
//! sequence, advances strictly after each accepted submission, and on a
//! stale-nonce rejection is resynchronized from the chain once before a
//! single retry.  Submissions are drained in arrival order, so no two
//! in-flight transactions share a nonce.

use vstd::prelude::*;

use crate::errors::Error;
use crate::model::clone_bytes;
use crate::model::clone_datagram;
use crate::model::{Datagram, DatagramView};

verus! {

/// A datagram wrapped for submission: signer, nonce, payload.
#[derive(Debug, Clone, PartialEq, Eq)]
pub struct Transaction {
    /// Account the transaction is signed with.
    pub signer: Vec<u8>,
    /// Nonce the transaction is built with.
    pub nonce: u64,
    /// The datagram being submitted.
    pub datagram: Datagram,
}

/// Ghost counterpart of [`Transaction`].
pub ghost struct TransactionView {
    /// Account the transaction is signed with.
    pub signer: Seq<u8>,
    /// Nonce the transaction is built with.
    pub nonce: u64,
    /// The datagram being submitted.
    pub datagram: DatagramView,
}

impl DeepView for Transaction {
    type V = TransactionView;

    open spec fn deep_view(&self) -> TransactionView {
        TransactionView {
            signer: self.signer.deep_view(),
            nonce: self.nonce,
            datagram: self.datagram.deep_view(),
        }
    }
}

/// The destination chain's answer to one submission attempt.
#[derive(Debug, Clone, Copy, PartialEq, Eq, Structural)]
pub enum SubmitOutcome {
    /// The transaction was accepted.
    Accepted,
    /// The transaction was rejected for a nonce conflict; the value is the
    /// account sequence a re-read of the chain then returns.
    RejectedStaleNonce {
        /// The account sequence currently on chain.
        chain_sequence: u64,
    },
    /// The transaction was rejected for any other reason.
    RejectedOther,
}

/// What the dispatcher decides after hearing the chain's answer.
#[derive(Debug, Clone, Copy, PartialEq, Eq, Structural)]
pub enum SubmitDecision {
    /// The datagram was delivered; the nonce has advanced.
    Done,
    /// Re-read the account sequence, resynchronize, and retry once.
    Resync,
    /// The datagram was dropped; it is re-derived later if still needed.
    Drop,
    /// Terminal failure for this datagram.
    Fail,
}

/// How one datagram's submission ended.
#[derive(Debug, Clone, Copy, PartialEq, Eq, Structural)]
pub enum Disposition {
    /// The destination accepted the transaction.
    Delivered,
    /// The datagram was dropped after a non-nonce rejection.
    Dropped,
    /// The retry after a nonce resynchronization failed too.
    Failed,
}

/// Everything one datagram's submission did: the transactions sent, how
/// often the account sequence was re-read, and how it ended.
#[derive(Debug, Clone, PartialEq, Eq)]
pub struct SubmissionReport {
    /// The transactions built and sent, in order.
    pub transactions: Vec<Transaction>,
    /// How many times the account sequence was re-read from chain.
    pub sequence_reads: u64,
    /// How the submission ended.
    pub disposition: Disposition,
}

impl SubmissionReport {
    /// The error surfaced to the caller: only a rejection of the retry
    /// after a nonce resynchronization is terminal.
    pub fn error(&self) -> (r: Option<Error>)
        ensures
            self.disposition is Failed ==> r == Some(Error::SubmissionRejected),
            !(self.disposition is Failed) ==> r is None,
    {
        match self.disposition {
            Disposition::Failed => Some(Error::SubmissionRejected),
            _ => None,
        }
    }
}

/// Owns the signer identity and the strictly increasing transaction nonce
/// for one destination chain.
#[derive(Debug, Clone, PartialEq, Eq)]
pub struct Dispatcher {
    /// Account the dispatcher signs with.
    pub signer: Vec<u8>,
    /// Nonce the next transaction will carry.
    pub next_nonce: u64,
}

impl Dispatcher {
    /// Creates the dispatcher for one destination, starting the counter
    /// from the destination's current on-chain account sequence.
    pub fn new(signer: Vec<u8>, account_sequence: u64) -> (d: Dispatcher)
        ensures
            d.signer@ == signer@,
            d.next_nonce == account_sequence,
    {
        Dispatcher { signer, next_nonce: account_sequence }
    }

    /// Wraps a datagram into the transaction to send next: it carries the
    /// dispatcher's signer and its current nonce.  The counter does not
    /// move until the chain confirms acceptance.
    pub fn build_transaction(&self, datagram: Datagram) -> (t: Transaction)
        ensures
            t.signer@ == self.signer@,
            t.nonce == self.next_nonce,
            t.datagram == datagram,
    {
        Transaction { signer: clone_bytes(&self.signer), nonce: self.next_nonce, datagram }
    }

    /// Advances the counter after the chain confirmed acceptance.
    pub fn record_acceptance(&mut self)
        requires
            old(self).next_nonce < u64::MAX,
        ensures
            final(self).signer == old(self).signer,
            final(self).next_nonce == old(self).next_nonce + 1,
    {
        self.next_nonce = self.next_nonce + 1;
    }

    /// Resets the counter to a freshly read account sequence after a nonce
    /// conflict.
    pub fn resynchronize(&mut self, account_sequence: u64)
        ensures
            final(self).signer == old(self).signer,
            final(self).next_nonce == account_sequence,
    {
        self.next_nonce = account_sequence;
    }

    /// Decides what to do with the chain's answer to a first submission
    /// attempt: acceptance advances the nonce and finishes the datagram, a
    /// nonce conflict asks the caller to resynchronize and retry once, and
    /// any other rejection drops the datagram, which is re-derived from
    /// chain state later if it is still needed.
    pub fn on_first_outcome(&mut self, outcome: SubmitOutcome) -> (r: SubmitDecision)
        requires
            old(self).next_nonce < u64::MAX,
        ensures
            final(self).signer == old(self).signer,
            outcome is Accepted ==> r == SubmitDecision::Done && final(self).next_nonce == old(
                self,
            ).next_nonce + 1,
            outcome is RejectedStaleNonce ==> r == SubmitDecision::Resync && final(self).next_nonce
                == old(self).next_nonce,
            outcome is RejectedOther ==> r == SubmitDecision::Drop && final(self).next_nonce == old(
                self,
            ).next_nonce,
    {
        match outcome {
            SubmitOutcome::Accepted => {
                self.record_acceptance();
                SubmitDecision::Done
            },
            SubmitOutcome::RejectedStaleNonce { .. } => SubmitDecision::Resync,
            SubmitOutcome::RejectedOther => SubmitDecision::Drop,
        }
    }

    /// Decides what to do with the chain's answer to the single retry after
    /// a resynchronization: acceptance finishes the datagram; any rejection
    /// is terminal.
    pub fn on_retry_outcome(&mut self, outcome: SubmitOutcome) -> (r: SubmitDecision)
        requires
            old(self).next_nonce < u64::MAX,
        ensures
            final(self).signer == old(self).signer,
            outcome is Accepted ==> r == SubmitDecision::Done && final(self).next_nonce == old(
                self,
            ).next_nonce + 1,
            !(outcome is Accepted) ==> r == SubmitDecision::Fail && final(self).next_nonce == old(
                self,
            ).next_nonce,
    {
        match outcome {
            SubmitOutcome::Accepted => {
                self.record_acceptance();
                SubmitDecision::Done
            },
            SubmitOutcome::RejectedStaleNonce { .. } => SubmitDecision::Fail,
            SubmitOutcome::RejectedOther => SubmitDecision::Fail,
        }
    }

    /// The full submission protocol for one datagram, written over the
    /// chain's answers: build and send a transaction with the current
    /// nonce; on acceptance advance the counter; on a stale-nonce rejection
    /// re-read the account sequence exactly once, retry exactly once with
    /// the fresh nonce, and either deliver or surface a terminal failure;
    /// on any other rejection drop the datagram.  `first` is the chain's
    /// answer to the first attempt; `second` is its answer to the retry and
    /// is consulted only after a stale-nonce rejection.
    pub fn submit_with_retry(
        &mut self,
        datagram: Datagram,
        first: SubmitOutcome,
        second: SubmitOutcome,
    ) -> (r: SubmissionReport)
        requires
            old(self).next_nonce < u64::MAX,
            first matches SubmitOutcome::RejectedStaleNonce { chain_sequence } ==> chain_sequence
                < u64::MAX,
        ensures
            final(self).signer == old(self).signer,
            forall|i: int|
                0 <= i < r.transactions@.len() ==> (#[trigger] r.transactions@[i]).signer@ == old(
                    self,
                ).signer@,
            forall|i: int|
                0 <= i < r.transactions@.len() ==> (#[trigger] r.transactions@[i]).datagram.deep_view()
                    == datagram.deep_view(),
            first is Accepted ==> r.disposition == Disposition::Delivered && r.sequence_reads == 0
                && r.transactions@.len() == 1 && r.transactions@[0].nonce == old(self).next_nonce
                && final(self).next_nonce == old(self).next_nonce + 1,
            first is RejectedOther ==> r.disposition == Disposition::Dropped && r.sequence_reads
                == 0 && r.transactions@.len() == 1 && r.transactions@[0].nonce == old(
                self,
            ).next_nonce && final(self).next_nonce == old(self).next_nonce,
            first matches SubmitOutcome::RejectedStaleNonce { chain_sequence } ==> r.sequence_reads
                == 1 && r.transactions@.len() == 2 && r.transactions@[0].nonce == old(
                self,
            ).next_nonce && r.transactions@[1].nonce == chain_sequence && (second is Accepted
                ==> r.disposition == Disposition::Delivered && final(self).next_nonce
                == chain_sequence + 1) && (!(second is Accepted) ==> r.disposition
                == Disposition::Failed && final(self).next_nonce == chain_sequence),
    {
        let mut transactions: Vec<Transaction> = Vec::new();
        let tx = self.build_transaction(clone_datagram(&datagram));
        transactions.push(tx);
        let decision = self.on_first_outcome(first);
        match decision {
            SubmitDecision::Done => SubmissionReport {
                transactions,
                sequence_reads: 0,
                disposition: Disposition::Delivered,
            },
            SubmitDecision::Drop => SubmissionReport {
                transactions,
                sequence_reads: 0,
                disposition: Disposition::Dropped,
            },
            SubmitDecision::Resync | SubmitDecision::Fail => {
                let chain_sequence = match first {
                    SubmitOutcome::RejectedStaleNonce { chain_sequence } => chain_sequence,
                    _ => 0,
                };
                self.resynchronize(chain_sequence);
                let retry = self.build_transaction(datagram);
                transactions.push(retry);
                let decision = self.on_retry_outcome(second);
                match decision {
                    SubmitDecision::Done => SubmissionReport {
                        transactions,
                        sequence_reads: 1,
                        disposition: Disposition::Delivered,
                    },
                    _ => SubmissionReport {
                        transactions,
                        sequence_reads: 1,
                        disposition: Disposition::Failed,
                    },
                }
            },
        }
    }

    /// Submits a batch of datagrams that the destination accepts, in
    /// arrival order: the transactions built carry strictly increasing,
    /// gap-free nonces starting at the current counter.
    pub fn dispatch_batch(&mut self, datagrams: Vec<Datagram>) -> (txs: Vec<Transaction>)
        requires
            old(self).next_nonce + datagrams@.len() <= u64::MAX,
        ensures
            final(self).signer == old(self).signer,
            final(self).next_nonce == old(self).next_nonce + datagrams@.len(),
            txs@.len() == datagrams@.len(),
            forall|i: int|
                0 <= i < txs@.len() ==> (#[trigger] txs@[i]).nonce == old(self).next_nonce + i,
            forall|i: int|
                0 <= i < txs@.len() ==> (#[trigger] txs@[i]).datagram == datagrams@[i],
            forall|i: int| 0 <= i < txs@.len() ==> (#[trigger] txs@[i]).signer@ == old(self).signer@,
    {
        let ghost all = datagrams@;
        let ghost start = self.next_nonce;
        let ghost signer0 = self.signer;
        let mut datagrams = datagrams;
        let mut txs: Vec<Transaction> = Vec::new();
        let mut i: usize = 0;
        proof {
            assert(datagrams@ =~= all.subrange(0, all.len() as int));
        }
        let n = datagrams.len();
        proof {
            assert(all.len() == n);
        }
        while datagrams.len() > 0
            invariant
                all.len() <= usize::MAX,
                i + datagrams@.len() == all.len(),
                datagrams@ == all.subrange(i as int, all.len() as int),
                start + all.len() <= u64::MAX,
                self.signer == signer0,
                self.next_nonce == start + i,
                txs@.len() == i,
                forall|j: int| 0 <= j < i ==> (#[trigger] txs@[j]).nonce == start + j,
                forall|j: int| 0 <= j < i ==> (#[trigger] txs@[j]).datagram == all[j],
                forall|j: int| 0 <= j < i ==> (#[trigger] txs@[j]).signer@ == signer0@,
            decreases datagrams@.len(),
        {
            let d = datagrams.remove(0);
            proof {
                assert(d == all[i as int]);
            }
            let tx = self.build_transaction(d);
            txs.push(tx);
            self.record_acceptance();
            i = i + 1;
            proof {
                assert(datagrams@ =~= all.subrange(i as int, all.len() as int));
            }
        }
        txs
    }
}

/// Whether some transaction in the list carries the nonce `n`.
pub open spec fn uses_nonce(txs: Seq<Transaction>, n: int) -> bool {
    exists|i: int| 0 <= i < txs.len() && (#[trigger] txs[i]).nonce == n
}

/// Nonce monotonicity: transactions built from consecutive nonces share no
/// nonce, each nonce lies in `[start, start + N)`, and every nonce in that
/// interval is used: the nonces are a bijection with the interval.
pub proof fn lemma_nonce_bijection(txs: Seq<Transaction>, start: u64)
    requires
        forall|i: int| 0 <= i < txs.len() ==> (#[trigger] txs[i]).nonce == start + i,
    ensures
        forall|i: int, j: int|
            0 <= i < txs.len() && 0 <= j < txs.len() && i != j ==> (#[trigger] txs[i]).nonce != (
            #[trigger] txs[j]).nonce,
        forall|i: int|
            0 <= i < txs.len() ==> start <= (#[trigger] txs[i]).nonce < start + txs.len(),
        forall|n: int| start <= n < start + txs.len() ==> #[trigger] uses_nonce(txs, n),
{
    assert forall|n: int| start <= n < start + txs.len() implies #[trigger] uses_nonce(
        txs,
        n,
    ) by {
        assert(txs[n - start].nonce == n);
    }
}

} // verus!
