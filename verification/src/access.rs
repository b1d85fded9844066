use vstd::prelude::*;

verus! {

/// Failure of the user/block service. `Unavailable` reports a lookup I/O
/// failure against the durable store; the in-process filter below never
/// raises it, but callers that drive a durable store feed it back through
/// [`chain_may_run`], which must then deny.
#[derive(Clone, Copy, Debug, PartialEq, Eq, Structural)]
pub enum UserServiceError {
    Unavailable,
}

/// A predicate entity over subscriber identities: given a user id, reports
/// blocked / not blocked. Mutated only through its own narrow API; read-only
/// to the access policy.
pub struct UserBlockFilter {
    blocked: Vec<i64>,
}

impl View for UserBlockFilter {
    type V = Set<i64>;

    closed spec fn view(&self) -> Set<i64> {
        self.blocked@.to_set()
    }
}

impl UserBlockFilter {
    pub fn new() -> (r: UserBlockFilter)
        ensures
            r@ == Set::<i64>::empty(),
    {
        let filter = UserBlockFilter { blocked: Vec::new() };
        proof {
            assert(filter.blocked@.to_set() =~= Set::<i64>::empty());
        }
        filter
    }

    /// Mark a subscriber identity as blocked.
    pub fn block(&mut self, user_id: i64)
        ensures
            final(self)@ == old(self)@.insert(user_id),
    {
        self.blocked.push(user_id);
        proof {
            assert(self.blocked@.to_set() =~= old(self).blocked@.to_set().insert(user_id)) by {
                assert(self.blocked@ == old(self).blocked@.push(user_id));
                assert forall|u: i64| self.blocked@.to_set().contains(u) implies old(
                    self,
                ).blocked@.to_set().insert(user_id).contains(u) by {
                    let k = choose|k: int|
                        0 <= k < self.blocked@.len() && self.blocked@[k] == u;
                    if k < old(self).blocked@.len() {
                        assert(old(self).blocked@[k] == u);
                    }
                }
                assert forall|u: i64| old(self).blocked@.to_set().insert(user_id).contains(u)
                    implies self.blocked@.to_set().contains(u) by {
                    if u == user_id {
                        assert(self.blocked@[self.blocked@.len() - 1] == u);
                    } else {
                        let k = choose|k: int|
                            0 <= k < old(self).blocked@.len() && old(self).blocked@[k] == u;
                        assert(self.blocked@[k] == u);
                    }
                }
            }
        }
    }

    /// Whether the given subscriber identity is blocked.
    pub fn is_blocked(&self, user_id: i64) -> (r: bool)
        ensures
            r == self@.contains(user_id),
    {
        let mut i: usize = 0;
        while i < self.blocked.len()
            invariant
                i <= self.blocked.len(),
                forall|k: int| 0 <= k < i ==> self.blocked@[k] != user_id,
            decreases self.blocked.len() - i,
        {
            if self.blocked[i] == user_id {
                proof {
                    assert(self.blocked@.to_set().contains(user_id)) by {
                        assert(self.blocked@[i as int] == user_id);
                    }
                }
                return true;
            }
            i += 1;
        }
        proof {
            if self.blocked@.to_set().contains(user_id) {
                let k = choose|k: int|
                    0 <= k < self.blocked@.len() && self.blocked@[k] == user_id;
                assert(false);
            }
        }
        false
    }
}

/// The chat-scoped access decision for the subscriber-side handler chain:
/// allow the chat iff the subscriber's identity is not blocked. A subscriber
/// chat is the subscriber's own private conversation, so its chat id is the
/// user identity consulted in the filter. Errors of the underlying lookup are
/// surfaced, never turned into permission; the in-process filter itself
/// always answers.
pub fn is_allowed(filter: &UserBlockFilter, chat_id: i64) -> (r: Result<bool, UserServiceError>)
    ensures
        r == Ok::<bool, UserServiceError>(!filter@.contains(chat_id)),
{
    Ok(!filter.is_blocked(chat_id))
}

/// Fail-closed gate over a block-status lookup that may have failed: the
/// subscriber-side handler chain may run iff the lookup succeeded and
/// reported not-blocked. An `Unavailable` answer denies — policy evaluation
/// failure never fails open, since this check gates who can insert data into
/// the relay.
pub fn chain_may_run(lookup_result: Result<bool, UserServiceError>) -> (r: bool)
    ensures
        r == (lookup_result == Ok::<bool, UserServiceError>(false)),
{
    match lookup_result {
        Ok(false) => true,
        _ => false,
    }
}

} // verus!
