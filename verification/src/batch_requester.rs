//! Asking the signers of a batch for the batch: a few of them at a time,
//! round the circle of signers from a random start, until one answers or the
//! retries are used up.

use crate::transaction::SignedTransaction;
use crate::types::AccountAddress;
use rand::Rng;
use vstd::prelude::*;

verus! {

/// A peer of the network.
pub type PeerId = AccountAddress;

/// Why the executor has no data to hand out.
#[derive(Clone, Copy, Debug, PartialEq, Eq, Structural)]
pub enum ExecutorError {
    /// The data could not be had from anyone.
    CouldNotGetData,
}

/// Calls `gen::<usize>()` on the random number generator of the thread:
/// any number.
#[verifier::external_body]
fn random_usize() -> usize {
    rand::thread_rng().gen::<usize>()
}

/// Whom to ask, and how often it was tried.
pub struct BatchRequesterState {
    pub signers: Vec<PeerId>,
    pub next_index: usize,
    pub num_retries: usize,
    pub retry_limit: usize,
}

/// `count` signers round the circle, from the one at `start` on.
pub open spec fn peers_from(signers: Seq<PeerId>, start: int, count: nat) -> Seq<PeerId> {
    Seq::new(count, |j: int| signers[(start + j) % (signers.len() as int)])
}

/// `count` signers round the circle, from the one at `start` on.
pub fn select_peers(signers: &Vec<PeerId>, start: usize, count: usize) -> (result: Vec<PeerId>)
    requires
        start < signers@.len(),
    ensures
        result@ == peers_from(signers@, start as int, count as nat),
{
    let mut result: Vec<PeerId> = Vec::new();
    let mut at: usize = start;
    let mut taken: usize = 0;
    proof {
        vstd::arithmetic::div_mod::lemma_small_mod(start as nat, signers@.len());
    }
    while taken < count
        invariant
            taken <= count,
            at < signers@.len(),
            at == (start + taken) % (signers@.len() as int),
            result@ == peers_from(signers@, start as int, taken as nat),
        decreases count - taken,
    {
        result.push(signers[at]);
        proof {
            assert(result@ =~= peers_from(signers@, start as int, (taken + 1) as nat));
            lemma_next_place(start as int, taken as int, signers@.len() as int);
        }
        at = if at == signers.len() - 1 {
            0
        } else {
            at + 1
        };
        taken += 1;
    }
    result
}

/// One step round the circle is one more from the start.
proof fn lemma_next_place(start: int, taken: int, len: int)
    requires
        len > 0,
        start >= 0,
        taken >= 0,
    ensures
        (start + taken + 1) % len == if (start + taken) % len + 1 == len {
            0
        } else {
            (start + taken) % len + 1
        },
{
    let here = (start + taken) % len;
    let rounds = (start + taken) / len;
    assert(start + taken == rounds * len + here) by (nonlinear_arith)
        requires
            len > 0,
            here == (start + taken) % len,
            rounds == (start + taken) / len,
    ;
    if here + 1 == len {
        assert(start + taken + 1 == (rounds + 1) * len) by (nonlinear_arith)
            requires
                start + taken == rounds * len + here,
                here + 1 == len,
        ;
        assert((start + taken + 1) % len == 0) by (nonlinear_arith)
            requires
                len > 0,
                start + taken + 1 == (rounds + 1) * len,
        ;
    } else {
        assert((start + taken + 1) % len == here + 1) by (nonlinear_arith)
            requires
                len > 0,
                0 <= here + 1 < len,
                start + taken + 1 == rounds * len + (here + 1),
        ;
    }
}

/// The place that is `count` steps round the circle from `start`.
pub fn advance(start: usize, count: usize, len: usize) -> (result: usize)
    requires
        start < len,
    ensures
        result == (start + count) % (len as int),
{
    let steps: usize = count % len;
    proof {
        vstd::arithmetic::div_mod::lemma_add_mod_noop(start as int, count as int, len as int);
        vstd::arithmetic::div_mod::lemma_add_mod_noop(start as int, steps as int, len as int);
        vstd::arithmetic::div_mod::lemma_small_mod(steps as nat, len as nat);
    }
    if steps >= len - start {
        proof {
            assert((start + steps) % (len as int) == start + steps - len) by (nonlinear_arith)
                requires
                    len > 0,
                    len <= start + steps < 2 * len,
            ;
        }
        steps - (len - start)
    } else {
        proof {
            assert((start + steps) % (len as int) == start + steps) by (nonlinear_arith)
                requires
                    len > 0,
                    0 <= start + steps < len,
            ;
        }
        start + steps
    }
}

impl BatchRequesterState {
    pub fn new(signers: Vec<PeerId>, retry_limit: usize) -> (result: Self)
        ensures
            result.signers == signers,
            result.next_index == 0,
            result.num_retries == 0,
            result.retry_limit == retry_limit,
    {
        BatchRequesterState { signers, next_index: 0, num_retries: 0, retry_limit }
    }

    /// Where the round starts: at the place that the random number falls
    /// on when nothing was tried yet, so that different nodes start with
    /// different signers; else where the last round ended.
    pub open spec fn round_start(self, random: usize) -> int {
        if self.num_retries == 0 {
            (random as int) % (self.signers@.len() as int)
        } else {
            self.next_index as int
        }
    }

    /// The peers to ask next, given the random number that was drawn: none
    /// once the retries are used up. Else `num_peers` signers round the
    /// circle from the start of the round, and the next round starts behind
    /// them.
    pub fn next_request_peers_from(&mut self, num_peers: usize, random: usize) -> (result: Option<
        Vec<PeerId>,
    >)
        requires
            old(self).signers@.len() > 0,
            old(self).next_index < old(self).signers@.len(),
        ensures
            final(self).signers == old(self).signers,
            final(self).retry_limit == old(self).retry_limit,
            final(self).next_index < final(self).signers@.len(),
            match result {
                Some(peers) => old(self).num_retries < old(self).retry_limit
                    && final(self).num_retries == old(self).num_retries + 1 && peers@
                    == peers_from(
                    old(self).signers@,
                    old(self).round_start(random),
                    num_peers as nat,
                ) && final(self).next_index == (old(self).round_start(random) + num_peers) % (
                old(self).signers@.len() as int),
                None => old(self).num_retries >= old(self).retry_limit && final(self).num_retries
                    == old(self).num_retries && final(self).next_index == old(self).round_start(
                    random,
                ),
            },
    {
        if self.num_retries == 0 {
            self.next_index = random % self.signers.len();
        }
        if self.num_retries < self.retry_limit {
            self.num_retries += 1;
            let ret = select_peers(&self.signers, self.next_index, num_peers);
            self.next_index = advance(self.next_index, num_peers, self.signers.len());
            Some(ret)
        } else {
            None
        }
    }

    /// The peers to ask next: none once the retries are used up, else
    /// `num_peers` signers that follow each other round the circle.
    pub fn next_request_peers(&mut self, num_peers: usize) -> (result: Option<Vec<PeerId>>)
        requires
            old(self).signers@.len() > 0,
            old(self).next_index < old(self).signers@.len(),
        ensures
            final(self).signers == old(self).signers,
            final(self).retry_limit == old(self).retry_limit,
            final(self).next_index < final(self).signers@.len(),
            match result {
                Some(peers) => old(self).num_retries < old(self).retry_limit
                    && final(self).num_retries == old(self).num_retries + 1 && exists|start: int|
                    0 <= start < old(self).signers@.len() && peers@ == #[trigger] peers_from(
                        old(self).signers@,
                        start,
                        num_peers as nat,
                    ),
                None => old(self).num_retries >= old(self).retry_limit && final(self).num_retries
                    == old(self).num_retries,
            },
    {
        let random = random_usize();
        let ghost start = self.round_start(random);
        let result = self.next_request_peers_from(num_peers, random);
        proof {
            if result is Some {
                assert(result.unwrap()@ == peers_from(old(self).signers@, start, num_peers as nat));
            }
        }
        result
    }

    /// What the one who asked for the batch is told: the batch if it came,
    /// else that the data could not be had.
    pub fn serve_request(self, maybe_payload: Option<Vec<SignedTransaction>>) -> (result: Result<
        Vec<SignedTransaction>,
        ExecutorError,
    >)
        ensures
            result == match maybe_payload {
                Some(payload) => Ok::<Vec<SignedTransaction>, ExecutorError>(payload),
                None => Err(ExecutorError::CouldNotGetData),
            },
    {
        match maybe_payload {
            Some(payload) => Ok(payload),
            None => Err(ExecutorError::CouldNotGetData),
        }
    }
}

/// What asks for batches: who it is, how many peers it asks at a time, how
/// often, and how long it waits.
pub struct BatchRequester<T> {
    pub epoch: u64,
    pub my_peer_id: PeerId,
    pub request_num_peers: usize,
    pub retry_limit: usize,
    pub retry_interval_ms: usize,
    pub rpc_timeout_ms: usize,
    pub network_sender: T,
}

/// What to do when the retry interval has passed.
pub enum OnTick {
    /// Ask these peers.
    Ask(Vec<PeerId>),
    /// Wait for the answers that are still out.
    Wait,
    /// Give up: nobody is left to ask and no answer is out.
    GiveUp,
}

/// A request for a batch that is under way.
pub struct BatchRequest {
    pub state: BatchRequesterState,
    pub request_num_peers: usize,
    /// How many answers are still out.
    pub pending: usize,
}

impl<T> BatchRequester<T> {
    pub fn new(
        epoch: u64,
        my_peer_id: PeerId,
        request_num_peers: usize,
        retry_limit: usize,
        retry_interval_ms: usize,
        rpc_timeout_ms: usize,
        network_sender: T,
    ) -> (result: Self)
        ensures
            result.epoch == epoch,
            result.my_peer_id == my_peer_id,
            result.request_num_peers == request_num_peers,
            result.retry_limit == retry_limit,
            result.retry_interval_ms == retry_interval_ms,
            result.rpc_timeout_ms == rpc_timeout_ms,
            result.network_sender == network_sender,
    {
        BatchRequester {
            epoch,
            my_peer_id,
            request_num_peers,
            retry_limit,
            retry_interval_ms,
            rpc_timeout_ms,
            network_sender,
        }
    }

    /// Starts to ask the signers for a batch. Nothing is asked before the
    /// first tick.
    pub fn request_batch(&self, signers: Vec<PeerId>) -> (result: BatchRequest)
        ensures
            result.state.signers == signers,
            result.state.next_index == 0,
            result.state.num_retries == 0,
            result.state.retry_limit == self.retry_limit,
            result.request_num_peers == self.request_num_peers,
            result.pending == 0,
    {
        BatchRequest {
            state: BatchRequesterState::new(signers, self.retry_limit),
            request_num_peers: self.request_num_peers,
            pending: 0,
        }
    }
}

impl BatchRequest {
    /// Whether the request can take a tick.
    pub open spec fn well_formed(&self) -> bool {
        self.state.signers@.len() > 0 && self.state.next_index < self.state.signers@.len()
            && self.pending + self.request_num_peers <= usize::MAX
    }

    /// The retry interval has passed: the next peers are asked while
    /// retries are left; after that the request waits for the answers that
    /// are still out, and gives up when none is.
    pub fn on_tick(&mut self) -> (result: OnTick)
        requires
            old(self).well_formed(),
        ensures
            final(self).request_num_peers == old(self).request_num_peers,
            final(self).state.signers == old(self).state.signers,
            final(self).state.next_index < final(self).state.signers@.len(),
            match result {
                OnTick::Ask(peers) => old(self).state.num_retries < old(self).state.retry_limit
                    && peers@.len() == old(self).request_num_peers && final(self).pending == old(
                    self,
                ).pending + old(self).request_num_peers && final(self).state.num_retries == old(
                    self,
                ).state.num_retries + 1,
                OnTick::Wait => old(self).state.num_retries >= old(self).state.retry_limit && old(
                    self,
                ).pending > 0 && final(self).pending == old(self).pending,
                OnTick::GiveUp => old(self).state.num_retries >= old(self).state.retry_limit
                    && old(self).pending == 0 && final(self).pending == 0,
            },
    {
        match self.state.next_request_peers(self.request_num_peers) {
            Some(peers) => {
                self.pending = self.pending + self.request_num_peers;
                OnTick::Ask(peers)
            },
            None => {
                if self.pending == 0 {
                    OnTick::GiveUp
                } else {
                    OnTick::Wait
                }
            },
        }
    }

    /// An answer came in: whether it ends the request, which a batch does
    /// and a failure does not.
    pub fn on_response(&mut self, is_batch: bool) -> (result: bool)
        ensures
            result == is_batch,
            final(self).state == old(self).state,
            final(self).request_num_peers == old(self).request_num_peers,
            final(self).pending == if old(self).pending > 0 {
                (old(self).pending - 1) as usize
            } else {
                0
            },
    {
        if self.pending > 0 {
            self.pending = self.pending - 1;
        }
        is_batch
    }
}

} // verus!
