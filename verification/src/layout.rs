use vstd::prelude::*;

verus! {

/// How event tokens are shared out on a machine with `parallelism` hardware
/// threads: token 0 belongs to the blocking worker, tokens `1..=high` to the
/// regular workers, token `parallelism` to the reactor, and every token from
/// `parallelism + 1` on names a registered socket through its registry key.
pub struct TokenLayout {
    parallelism: usize,
}

impl View for TokenLayout {
    type V = nat;

    closed spec fn view(&self) -> nat {
        self.parallelism as nat
    }
}

/// The token of the socket registered under `key`.
pub open spec fn spec_source_token(parallelism: nat, key: nat) -> nat {
    parallelism + 1 + key
}

/// The registry key behind a token, if the token names a socket.
pub open spec fn spec_key_of(parallelism: nat, token: nat) -> Option<nat> {
    if token > parallelism {
        Some((token - parallelism - 1) as nat)
    } else {
        None
    }
}

impl TokenLayout {
    /// The layout for a machine with `parallelism` hardware threads.
    pub fn new(parallelism: usize) -> (r: Self)
        ensures
            r@ == parallelism,
    {
        TokenLayout { parallelism }
    }

    /// Token of the blocking worker thread.
    pub fn blocking_worker(&self) -> (r: usize)
        ensures
            r == 0,
    {
        0
    }

    /// Token of the `i`-th regular worker thread, counted from one.
    pub fn regular_worker(&self, i: usize) -> (r: usize)
        requires
            i >= 1,
        ensures
            r == i,
    {
        i
    }

    /// Token of the reactor thread.
    pub fn reactor(&self) -> (r: usize)
        ensures
            r == self@,
    {
        self.parallelism
    }

    /// Token of the socket registered under `key`, or `None` where it would
    /// not fit in a `usize`.
    pub fn source(&self, key: usize) -> (r: Option<usize>)
        ensures
            match r {
                Some(t) => t == spec_source_token(self@, key as nat),
                None => spec_source_token(self@, key as nat) > usize::MAX,
            },
    {
        if self.parallelism < usize::MAX && key <= usize::MAX - self.parallelism - 1 {
            Some(self.parallelism + 1 + key)
        } else {
            None
        }
    }

    /// Registry key of the socket that `token` names, or `None` for the
    /// tokens of the worker and reactor threads.
    pub fn key_of(&self, token: usize) -> (r: Option<usize>)
        ensures
            match r {
                Some(k) => spec_key_of(self@, token as nat) == Some(k as nat),
                None => spec_key_of(self@, token as nat) is None,
            },
    {
        if token > self.parallelism {
            Some(token - self.parallelism - 1)
        } else {
            None
        }
    }
}

/// A socket's token leads back to the key it was made from.
pub proof fn lemma_key_of_source(parallelism: nat, key: nat)
    ensures
        spec_key_of(parallelism, spec_source_token(parallelism, key)) == Some(key),
{
}

/// Two sockets with different keys get different tokens.
pub proof fn lemma_source_tokens_distinct(parallelism: nat, k1: nat, k2: nat)
    requires
        k1 != k2,
    ensures
        spec_source_token(parallelism, k1) != spec_source_token(parallelism, k2),
{
}

/// The thread tokens of a runtime with `high` regular workers, in the order
/// blocking worker, regular workers, reactor.
pub open spec fn thread_tokens(parallelism: nat, high: nat) -> Seq<nat> {
    seq![0nat] + Seq::new(high, |i: int| (i + 1) as nat) + seq![parallelism]
}

/// With fewer regular workers than hardware threads, every thread gets its own
/// token and no thread token names a socket.
pub proof fn lemma_thread_tokens_distinct(parallelism: nat, high: nat)
    requires
        high < parallelism,
    ensures
        forall|i: int, j: int|
            0 <= i < j < thread_tokens(parallelism, high).len() ==> thread_tokens(parallelism, high)[i]
                != thread_tokens(parallelism, high)[j],
        forall|i: int|
            0 <= i < thread_tokens(parallelism, high).len() ==> spec_key_of(
                parallelism,
                #[trigger] thread_tokens(parallelism, high)[i],
            ) is None,
{
    let s = thread_tokens(parallelism, high);
    assert(s.len() == high + 2);
    assert forall|i: int| 0 <= i < s.len() implies #[trigger] s[i] == (if i <= high {
        i as nat
    } else {
        parallelism
    }) by {
        if i == 0 {
        } else if i <= high {
            assert(s[i] == Seq::new(high, |k: int| (k + 1) as nat)[i - 1]);
        } else {
        }
    }
}

} // verus!
