//! The durable order queue and its claim protocol.
//!
//! Pending orders live as one file per (photo, profile) in a queue directory.
//! A worker claims an order by renaming `name` to `name.lock`; the rename is
//! the only synchronization primitive, so an order file moves through the
//! states pending, locked and gone exactly as [`queue_step`] says. The
//! surrounding process performs the renames and deletions and reports their
//! outcomes back to an [`OrderFile`].

use vstd::prelude::*;
use vstd::string::StringExecFns;

use crate::text::str_views;
use crate::text::string_to_chars;

verus! {

/// Errors of queue bookkeeping: an operation was asked of an order file that
/// its state does not admit.
#[derive(Clone, Copy, PartialEq, Eq, Structural, Debug)]
pub enum QueueError {
    /// The order file is gone: it was already completed.
    Deleted,
}

/// The lifecycle of one order file. `Pending` and `Locked` are both on disk;
/// `Gone` is the commit point of successful processing.
#[derive(Clone, Copy, PartialEq, Eq, Structural, Debug)]
pub enum OrderFileState {
    Pending,
    Locked,
    Gone,
}

/// The two kinds of transition the protocol performs on one order file:
/// a claim (atomic rename) and a completion (delete after conversion).
#[derive(Clone, Copy, PartialEq, Eq, Structural, Debug)]
pub enum QueueEvent {
    Claim,
    Complete,
}

/// Whether a claim attempt in state `s` wins the race: only a pending
/// order can be claimed; every other attempt observes a lost claim.
pub open spec fn claim_wins(s: OrderFileState) -> bool {
    s is Pending
}

/// The transition table of the order-file state machine: a claim moves
/// pending to locked, a completion moves locked to gone, everything else
/// leaves the state unchanged (a lost claim is a no-op for the loser).
pub open spec fn queue_step(s: OrderFileState, e: QueueEvent) -> OrderFileState {
    match e {
        QueueEvent::Claim => if s is Pending {
            OrderFileState::Locked
        } else {
            s
        },
        QueueEvent::Complete => if s is Locked {
            OrderFileState::Gone
        } else {
            s
        },
    }
}

/// The state after a sequence of events, applied in order.
pub open spec fn queue_run(s: OrderFileState, es: Seq<QueueEvent>) -> OrderFileState
    decreases es.len(),
{
    if es.len() == 0 {
        s
    } else {
        queue_run(queue_step(s, es[0]), es.skip(1))
    }
}

/// How many claim attempts in `es` win, starting from state `s`.
pub open spec fn count_claim_wins(s: OrderFileState, es: Seq<QueueEvent>) -> nat
    decreases es.len(),
{
    if es.len() == 0 {
        0
    } else {
        (if es[0] is Claim && claim_wins(s) {
            1nat
        } else {
            0nat
        }) + count_claim_wins(queue_step(s, es[0]), es.skip(1))
    }
}

/// No event ever returns an order file to the pending state, so once the
/// claim race is decided it stays decided.
pub proof fn lemma_never_pending_again(s: OrderFileState, es: Seq<QueueEvent>)
    requires
        !(s is Pending),
    ensures
        !(queue_run(s, es) is Pending),
        count_claim_wins(s, es) == 0,
    decreases es.len(),
{
    if es.len() > 0 {
        lemma_never_pending_again(queue_step(s, es[0]), es.skip(1));
    }
}

/// At-most-once claim: however many claim attempts race on one order file,
/// and in whatever order the filesystem serializes them, at most one wins;
/// the rest observe a lost claim and do not process the order.
pub proof fn lemma_claim_at_most_once(s: OrderFileState, es: Seq<QueueEvent>)
    ensures
        count_claim_wins(s, es) <= 1,
    decreases es.len(),
{
    if es.len() > 0 {
        if es[0] is Claim && claim_wins(s) {
            lemma_never_pending_again(OrderFileState::Locked, es.skip(1));
        } else {
            lemma_claim_at_most_once(queue_step(s, es[0]), es.skip(1));
        }
    }
}

/// Racing workers that each attempt one claim on a pending order file:
/// exactly one of them wins, however many race and however the renames
/// serialize.
pub proof fn lemma_claim_exactly_once(es: Seq<QueueEvent>)
    requires
        es.len() > 0,
        forall|i: int| 0 <= i < es.len() ==> es[i] is Claim,
    ensures
        count_claim_wins(OrderFileState::Pending, es) == 1,
{
    assert(es[0] is Claim);
    lemma_never_pending_again(OrderFileState::Locked, es.skip(1));
}

/// Completion is terminal: a gone order file stays gone under any further
/// events, and no further claim can win on it. Re-running a worker over a
/// drained queue is therefore a no-op.
pub proof fn lemma_completion_terminal(es: Seq<QueueEvent>)
    ensures
        queue_run(OrderFileState::Gone, es) is Gone,
        count_claim_wins(OrderFileState::Gone, es) == 0,
    decreases es.len(),
{
    if es.len() > 0 {
        lemma_completion_terminal(es.skip(1));
    }
}

/// The suffix that marks a claimed order file.
pub open spec fn lock_extension() -> Seq<char> {
    seq!['.', 'l', 'o', 'c', 'k']
}

/// The path of the lock-renamed form of an order file.
pub open spec fn lock_path_spec(p: Seq<char>) -> Seq<char> {
    p + lock_extension()
}

/// True when a directory entry already bears the lock extension.
pub open spec fn is_lock_name(s: Seq<char>) -> bool {
    s.len() >= 5 && s.skip(s.len() - 5) == lock_extension()
}

/// Whether this entry name ends in the lock extension.
pub fn has_lock_suffix(s: &str) -> (r: bool)
    ensures
        r == is_lock_name(s@),
{
    let chars = string_to_chars(s);
    let n = chars.len();
    if n < 5 {
        return false;
    }
    let r = chars[n - 5] == '.' && chars[n - 4] == 'l' && chars[n - 3] == 'o' && chars[n - 2]
        == 'c' && chars[n - 1] == 'k';
    proof {
        if r {
            assert(s@.skip(s@.len() - 5) =~= lock_extension());
        } else {
            assert(s@.skip(s@.len() - 5).len() == 5);
            if s@.skip(s@.len() - 5) == lock_extension() {
                assert(s@[s@.len() - 5] == lock_extension()[0]);
                assert(s@[s@.len() - 4] == lock_extension()[1]);
                assert(s@[s@.len() - 3] == lock_extension()[2]);
                assert(s@[s@.len() - 2] == lock_extension()[3]);
                assert(s@[s@.len() - 1] == lock_extension()[4]);
            }
        }
    }
    r
}

/// The entries of one scan cycle that are still up for claiming: every
/// directory entry except those already bearing the lock extension, in
/// directory order.
pub fn order_candidates(entries: &Vec<String>) -> (r: Vec<String>)
    ensures
        str_views(r@) == str_views(entries@).filter(|s: Seq<char>| !is_lock_name(s)),
{
    let pred = Ghost(|s: Seq<char>| !is_lock_name(s));
    let mut r: Vec<String> = Vec::new();
    let mut i: usize = 0;
    proof {
        reveal(Seq::filter);
        assert(str_views(entries@.take(0)) =~= Seq::<Seq<char>>::empty());
        assert(str_views(r@) =~= str_views(entries@.take(0)).filter(pred@));
    }
    while i < entries.len()
        invariant
            i <= entries@.len(),
            str_views(r@) == str_views(entries@.take(i as int)).filter(
                |s: Seq<char>| !is_lock_name(s),
            ),
        decreases entries@.len() - i,
    {
        let keep = !has_lock_suffix(entries[i].as_str());
        let ghost prev = str_views(r@);
        if keep {
            r.push(entries[i].clone());
        }
        proof {
            reveal(Seq::filter);
            let t1 = str_views(entries@.take(i + 1 as int));
            assert(t1.drop_last() =~= str_views(entries@.take(i as int)));
            assert(t1.last() == entries@[i as int]@);
            if keep {
                assert(str_views(r@) =~= prev.push(entries@[i as int]@));
            } else {
                assert(str_views(r@) =~= prev);
            }
        }
        i = i + 1;
    }
    proof {
        assert(entries@.take(i as int) =~= entries@);
    }
    r
}

/// Whether an optional batch bound stops the scan after `count` processed
/// orders.
pub fn reached_limit(count: u32, limit: &Option<u32>) -> (r: bool)
    ensures
        r == match *limit {
            Some(n) => count >= n,
            None => false,
        },
{
    match limit {
        Some(n) => count >= *n,
        None => false,
    }
}

/// One order file of the queue directory, with the state the protocol knows
/// it to be in. The path is `None` once the file is gone.
pub struct OrderFile {
    path: Option<String>,
    locked: bool,
}

impl OrderFile {
    /// The state this order file is in.
    pub closed spec fn state(&self) -> OrderFileState {
        match self.path {
            Some(_) => if self.locked {
                OrderFileState::Locked
            } else {
                OrderFileState::Pending
            },
            None => OrderFileState::Gone,
        }
    }

    /// The current on-disk path, while the file exists.
    pub closed spec fn path_spec(&self) -> Seq<char>
        recommends
            !(self.state() is Gone),
    {
        self.path->0@
    }

    /// A freshly scanned, still pending order file.
    pub fn new(path: &str) -> (r: OrderFile)
        ensures
            r.state() is Pending,
            r.path_spec() == path@,
    {
        OrderFile { path: Some(path.to_owned()), locked: false }
    }

    /// The path a winning claim renames this order file to.
    pub fn lock_target(&self) -> (r: Result<String, QueueError>)
        ensures
            match r {
                Ok(p) => !(self.state() is Gone) && p@ == lock_path_spec(self.path_spec()),
                Err(e) => self.state() is Gone && e == QueueError::Deleted,
            },
    {
        match &self.path {
            None => Err(QueueError::Deleted),
            Some(p) => {
                proof {
                    reveal_strlit(".lock");
                }
                let mut t = p.clone();
                t.append(".lock");
                proof {
                    assert(".lock"@ =~= lock_extension());
                }
                Ok(t)
            },
        }
    }

    /// Record a won claim: the rename from `path` to `path.lock` succeeded.
    /// Exactly the pending-to-locked transition of [`queue_step`].
    pub fn on_claimed(&mut self)
        requires
            old(self).state() is Pending,
        ensures
            final(self).state() == queue_step(old(self).state(), QueueEvent::Claim),
            final(self).state() is Locked,
            final(self).path_spec() == lock_path_spec(old(self).path_spec()),
    {
        let target = match &self.path {
            Some(p) => {
                proof {
                    reveal_strlit(".lock");
                }
                let mut t = p.clone();
                t.append(".lock");
                proof {
                    assert(".lock"@ =~= lock_extension());
                }
                Some(t)
            },
            None => None,
        };
        self.path = target;
        self.locked = true;
    }

    /// Record a completion: the locked order file was deleted after a
    /// successful conversion. Exactly the locked-to-gone transition of
    /// [`queue_step`]; the commit point of the order.
    pub fn on_completed(&mut self)
        requires
            old(self).state() is Locked,
        ensures
            final(self).state() == queue_step(old(self).state(), QueueEvent::Complete),
            final(self).state() is Gone,
    {
        self.path = None;
        self.locked = false;
    }

    /// The state this order file is in, as a value.
    pub fn current_state(&self) -> (r: OrderFileState)
        ensures
            r == self.state(),
    {
        match &self.path {
            Some(_) => if self.locked {
                OrderFileState::Locked
            } else {
                OrderFileState::Pending
            },
            None => OrderFileState::Gone,
        }
    }

    /// The on-disk path while the file exists, for the process that performs
    /// the renames and deletions.
    pub fn current_path(&self) -> (r: Option<&String>)
        ensures
            match r {
                Some(p) => !(self.state() is Gone) && p@ == self.path_spec(),
                None => self.state() is Gone,
            },
    {
        self.path.as_ref()
    }
}

} // verus!
