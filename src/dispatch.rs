//! Turning sender and recipient lists into the transfers of one batch.

use vstd::prelude::*;
use crate::keys::{pubkey_parse, pubkey_display, sender_key, parse_recipient, address_text, sender_public_key};

verus! {

/// One transfer to dispatch: who pays, whom, and how much.
pub struct TransferRequest {
    /// The sender's key pair, as the base58 text it was given in.
    pub sender_secret: String,
    /// The recipient's 32 key bytes.
    pub recipient_key: Vec<u8>,
    /// The sender's address text.
    pub source: String,
    /// The recipient's address text.
    pub destination: String,
    /// The quantity moved.
    pub amount: u64,
}

/// Why a batch could not be planned.
#[derive(Debug, PartialEq, Eq)]
pub enum PlanError {
    /// The sender at this position is no valid base58 key pair.
    MalformedSender { position: usize },
}

/// Pairing stops at the end of the shorter list.
pub open spec fn paired_len(senders: Seq<String>, recipients: Seq<String>) -> int {
    if senders.len() <= recipients.len() {
        senders.len() as int
    } else {
        recipients.len() as int
    }
}

/// The recipient text is a valid address.
pub open spec fn recipient_valid(text: String) -> bool {
    pubkey_parse(text@) is Some
}

/// The sender text is a valid key pair.
pub open spec fn sender_valid(text: String) -> bool {
    sender_key(text@) is Some
}

/// The positions among the first `n` whose recipient parses, in order.
pub open spec fn dispatched_positions(recipients: Seq<String>, n: nat) -> Seq<int>
    decreases n,
{
    if n == 0 {
        Seq::empty()
    } else {
        let before = dispatched_positions(recipients, (n - 1) as nat);
        if recipient_valid(recipients[n - 1]) {
            before.push(n - 1)
        } else {
            before
        }
    }
}

/// The request that the pair (`sender`, `recipient`) becomes.
pub open spec fn request_for(req: TransferRequest, sender: String, recipient: String, amount: u64) -> bool {
    &&& req.sender_secret@ == sender@
    &&& req.recipient_key@ == pubkey_parse(recipient@).unwrap()
    &&& req.source@ == pubkey_display(sender_key(sender@).unwrap())
    &&& req.destination@ == pubkey_display(pubkey_parse(recipient@).unwrap())
    &&& req.amount == amount
}

/// The first `n` senders are all valid key pairs.
pub open spec fn senders_valid_upto(senders: Seq<String>, n: int) -> bool {
    forall|i: int| 0 <= i < n ==> #[trigger] sender_valid(senders[i])
}

/// Pairs senders with recipients by position, up to the shorter list, and
/// makes one request of `amount` per pair whose recipient parses. A pair with
/// an unparsable recipient is left out without error. Every paired sender must
/// be a valid key pair: the first that is not fails the whole batch.
pub fn plan_batch(senders: &Vec<String>, recipients: &Vec<String>, amount: u64) -> (r: Result<Vec<TransferRequest>, PlanError>)
    ensures
        match r {
            Ok(reqs) => {
                let n = paired_len(senders@, recipients@);
                let pos = dispatched_positions(recipients@, n as nat);
                &&& senders_valid_upto(senders@, n)
                &&& reqs@.len() == pos.len()
                &&& forall|j: int| 0 <= j < pos.len() ==>
                    request_for(#[trigger] reqs@[j], senders@[pos[j]], recipients@[pos[j]], amount)
            },
            Err(PlanError::MalformedSender { position }) => {
                &&& position < paired_len(senders@, recipients@)
                &&& !sender_valid(senders@[position as int])
                &&& senders_valid_upto(senders@, position as int)
            },
        },
{
    let n: usize = if senders.len() <= recipients.len() { senders.len() } else { recipients.len() };
    let mut reqs: Vec<TransferRequest> = Vec::new();
    let mut i: usize = 0;
    while i < n
        invariant
            0 <= i <= n,
            n == paired_len(senders@, recipients@),
            senders_valid_upto(senders@, i as int),
            reqs@.len() == dispatched_positions(recipients@, i as nat).len(),
            forall|j: int| 0 <= j < reqs@.len() ==> {
                let p = #[trigger] dispatched_positions(recipients@, i as nat)[j];
                request_for(reqs@[j], senders@[p], recipients@[p], amount)
            },
        decreases n - i,
    {
        let ghost before = dispatched_positions(recipients@, i as nat);
        let source_key = match sender_public_key(senders[i].as_str()) {
            Some(k) => k,
            None => return Err(PlanError::MalformedSender { position: i }),
        };
        match parse_recipient(recipients[i].as_str()) {
            Some(key) => {
                let source = address_text(&source_key);
                let destination = address_text(&key);
                reqs.push(TransferRequest {
                    sender_secret: senders[i].clone(),
                    recipient_key: key,
                    source,
                    destination,
                    amount,
                });
                assert(dispatched_positions(recipients@, (i + 1) as nat) == before.push(i as int));
            },
            None => {},
        }
        assert forall|k: int| 0 <= k < i + 1 implies #[trigger] sender_valid(senders@[k]) by {
            if k < i {
                assert(senders_valid_upto(senders@, i as int));
            }
        }
        i = i + 1;
    }
    Ok(reqs)
}

/// Each dispatched position lies among the first `n`, has a recipient that
/// parses, and the positions rise strictly.
pub proof fn lemma_positions_well_formed(recipients: Seq<String>, n: nat)
    ensures
        forall|j: int| 0 <= j < dispatched_positions(recipients, n).len() ==> {
            let p = #[trigger] dispatched_positions(recipients, n)[j];
            &&& 0 <= p < n
            &&& recipient_valid(recipients[p])
        },
        forall|j: int, k: int| 0 <= j < k < dispatched_positions(recipients, n).len() ==>
            dispatched_positions(recipients, n)[j] < dispatched_positions(recipients, n)[k],
        dispatched_positions(recipients, n).len() <= n,
    decreases n,
{
    if n > 0 {
        lemma_positions_well_formed(recipients, (n - 1) as nat);
    }
}

/// When every paired recipient parses, every pair is dispatched, in order:
/// a batch of `n` such pairs yields `n` requests.
pub proof fn lemma_all_valid_all_dispatched(senders: Seq<String>, recipients: Seq<String>)
    requires
        forall|i: int| 0 <= i < paired_len(senders, recipients) ==> #[trigger] recipient_valid(recipients[i]),
    ensures
        dispatched_positions(recipients, paired_len(senders, recipients) as nat)
            == Seq::new(paired_len(senders, recipients) as nat, |i: int| i),
        dispatched_positions(recipients, paired_len(senders, recipients) as nat).len()
            == paired_len(senders, recipients),
{
    lemma_prefix_all_valid(recipients, paired_len(senders, recipients) as nat);
}

proof fn lemma_prefix_all_valid(recipients: Seq<String>, n: nat)
    requires
        forall|i: int| 0 <= i < n ==> #[trigger] recipient_valid(recipients[i]),
    ensures
        dispatched_positions(recipients, n) == Seq::new(n, |i: int| i),
    decreases n,
{
    if n > 0 {
        lemma_prefix_all_valid(recipients, (n - 1) as nat);
        assert(recipient_valid(recipients[n - 1]));
        assert(dispatched_positions(recipients, n) =~= Seq::new(n, |i: int| i));
    }
}

/// Replacing one paired recipient of an otherwise valid batch by an
/// unparsable text removes exactly that pair: one request fewer, and none at
/// its position.
pub proof fn lemma_malformed_recipient_dropped(
    senders: Seq<String>,
    recipients: Seq<String>,
    position: int,
    malformed: String,
)
    requires
        forall|i: int| 0 <= i < paired_len(senders, recipients) ==> #[trigger] recipient_valid(recipients[i]),
        0 <= position < paired_len(senders, recipients),
        !recipient_valid(malformed),
    ensures
        ({
            let altered = recipients.update(position, malformed);
            let n = paired_len(senders, recipients) as nat;
            &&& paired_len(senders, altered) == n
            &&& dispatched_positions(altered, n).len() == dispatched_positions(recipients, n).len() - 1
            &&& !dispatched_positions(altered, n).contains(position)
        }),
{
    let altered = recipients.update(position, malformed);
    let n = paired_len(senders, recipients) as nat;
    lemma_all_valid_all_dispatched(senders, recipients);
    lemma_one_gap(altered, position, n);
    lemma_positions_well_formed(altered, n);
    if dispatched_positions(altered, n).contains(position) {
        let j = choose|j: int| 0 <= j < dispatched_positions(altered, n).len()
            && dispatched_positions(altered, n)[j] == position;
        assert(recipient_valid(altered[dispatched_positions(altered, n)[j]]));
    }
}

proof fn lemma_one_gap(recipients: Seq<String>, position: int, n: nat)
    requires
        n <= recipients.len(),
        0 <= position < n,
        !recipient_valid(recipients[position]),
        forall|i: int| 0 <= i < n && i != position ==> #[trigger] recipient_valid(recipients[i]),
    ensures
        dispatched_positions(recipients, n).len() == n - 1,
    decreases n,
{
    if n - 1 == position {
        lemma_prefix_all_valid(recipients, (n - 1) as nat);
    } else {
        lemma_one_gap(recipients, position, (n - 1) as nat);
        assert(recipient_valid(recipients[n - 1]));
    }
}

/// Only pairs are dispatched: every request comes from a position below the
/// length of the shorter list, so the surplus of the longer list is never used.
pub proof fn lemma_surplus_unused(senders: Seq<String>, recipients: Seq<String>)
    ensures
        forall|j: int| 0 <= j < dispatched_positions(recipients, paired_len(senders, recipients) as nat).len() ==> {
            let p = #[trigger] dispatched_positions(recipients, paired_len(senders, recipients) as nat)[j];
            &&& 0 <= p < senders.len()
            &&& p < recipients.len()
        },
{
    lemma_positions_well_formed(recipients, paired_len(senders, recipients) as nat);
}

} // verus!
