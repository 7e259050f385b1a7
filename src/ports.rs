//! Choosing a free UDP port pair for a server.
//!
//! A server needs its game port and, `PORT_OFFSET` above it, its client
//! port. The search tries pairs `PORT_OFFSET` apart, from the starting port
//! upwards, and settles on the first pair found free. It gives up after
//! `MAX_ATTEMPTS` tries, or when the next pair would not fit in 16 bits,
//! and then settles on the last pair it tried. The caller probes each pair
//! (by binding both sockets and releasing them) and reports the answer.
use vstd::prelude::*;

verus! {

/// Distance between a server's game port and its client port.
pub const PORT_OFFSET: u16 = 10;

/// The port servers use when none is configured.
pub const DEFAULT_PORT: u16 = 27015;

/// How many pairs a search tries at most.
pub const MAX_ATTEMPTS: u32 = 50;

/// Where a search from `start` begins; port 0 means "not configured".
pub open spec fn first_port(start: u16) -> int {
    if start == 0 {
        DEFAULT_PORT as int
    } else {
        start as int
    }
}

/// The game port of the `k`-th pair tried.
pub open spec fn candidate(start: u16, k: nat) -> int {
    first_port(start) + PORT_OFFSET * k
}

/// Whether a search tries the `k`-th pair at all.
pub open spec fn can_probe(start: u16, k: nat) -> bool {
    k < MAX_ATTEMPTS && candidate(start, k) + PORT_OFFSET <= u16::MAX
}

/// The port a search settles on, from the `k`-th pair on, when the `j`-th
/// pair is free exactly if `free[j]` (an unanswered pair counts as taken).
pub open spec fn settle(start: u16, free: Seq<bool>, k: nat) -> int
    decreases MAX_ATTEMPTS - k,
{
    if k + 1 >= MAX_ATTEMPTS || !can_probe(start, k + 1) || (k < free.len() && free[k as int]) {
        candidate(start, k)
    } else {
        settle(start, free, k + 1)
    }
}

pub struct PortSearchView {
    pub start: u16,
    pub port: u16,
    pub attempt: nat,
    pub done: bool,
    pub answers: Seq<bool>,
}

/// The state of a search: it stands at pair `attempt`, all earlier pairs
/// were taken, and once done its port is what `settle` gives.
pub open spec fn search_wf(v: PortSearchView) -> bool {
    &&& v.port == candidate(v.start, v.attempt)
    &&& v.attempt < MAX_ATTEMPTS
    &&& !v.done ==> {
        &&& v.answers.len() == v.attempt
        &&& can_probe(v.start, v.attempt)
        &&& forall|j: int| 0 <= j < v.attempt ==> !v.answers[j]
    }
    &&& v.done ==> v.port == settle(v.start, v.answers, 0)
}

proof fn lemma_settle_skips_taken(start: u16, free: Seq<bool>, k: nat)
    requires
        k < MAX_ATTEMPTS,
        can_probe(start, k),
        forall|j: int| 0 <= j < k ==> !free[j],
        k <= free.len(),
    ensures
        settle(start, free, 0) == settle(start, free, k),
    decreases k,
{
    if k > 0 {
        lemma_settle_skips_taken(start, free, (k - 1) as nat);
    }
}

proof fn lemma_settle_at_least(start: u16, free: Seq<bool>, k: nat)
    ensures
        settle(start, free, k) >= candidate(start, k),
    decreases MAX_ATTEMPTS - k,
{
    if !(k + 1 >= MAX_ATTEMPTS || !can_probe(start, k + 1) || (k < free.len() && free[k as int])) {
        lemma_settle_at_least(start, free, k + 1);
    }
}

/// A search that finds the starting pair taken, and has room to try the
/// next pair, settles on another port; and no search ever settles on port 0.
pub proof fn lemma_taken_start_is_left(start: u16, free: Seq<bool>)
    ensures
        settle(start, free, 0) >= first_port(start) >= 1,
        (free.len() == 0 || !free[0]) && can_probe(start, 1)
            ==> settle(start, free, 0) != first_port(start),
{
    lemma_settle_at_least(start, free, 0);
    if (free.len() == 0 || !free[0]) && can_probe(start, 1) {
        lemma_settle_at_least(start, free, 1);
    }
}

pub struct PortSearch {
    start: u16,
    port: u16,
    attempt: u32,
    done: bool,
    answers: Ghost<Seq<bool>>,
}

impl View for PortSearch {
    type V = PortSearchView;

    closed spec fn view(&self) -> PortSearchView {
        PortSearchView {
            start: self.start,
            port: self.port,
            attempt: self.attempt as nat,
            done: self.done,
            answers: self.answers@,
        }
    }
}

impl PortSearch {
    /// A search from `starting_port` (0 for the default port).
    pub fn new(starting_port: u16) -> (r: PortSearch)
        ensures
            search_wf(r@),
            r@.start == starting_port,
            r@.attempt == 0,
            r@.done == !can_probe(starting_port, 0),
            r@.answers == Seq::<bool>::empty(),
    {
        let first = if starting_port == 0 { DEFAULT_PORT } else { starting_port };
        let done = first > u16::MAX - PORT_OFFSET;
        PortSearch { start: starting_port, port: first, attempt: 0, done, answers: Ghost(Seq::empty()) }
    }

    /// The pair to probe next, `(game port, client port)`, or `None` once
    /// the search has settled.
    pub fn next_pair(&self) -> (r: Option<(u16, u16)>)
        requires
            search_wf(self@),
        ensures
            self@.done ==> r is None,
            !self@.done ==> r == Some((self@.port, (self@.port + PORT_OFFSET) as u16)),
    {
        if self.done {
            None
        } else {
            Some((self.port, self.port + PORT_OFFSET))
        }
    }

    /// Takes the answer for the pair that `next_pair` gave.
    pub fn report(&mut self, free: bool)
        requires
            search_wf(old(self)@),
            !old(self)@.done,
        ensures
            search_wf(final(self)@),
            final(self)@.start == old(self)@.start,
            final(self)@.answers == old(self)@.answers.push(free),
            free ==> final(self)@.done && final(self)@.port == old(self)@.port,
            !free && can_probe(old(self)@.start, old(self)@.attempt + 1) ==> !final(self)@.done
                && final(self)@.attempt == old(self)@.attempt + 1,
            !free && !can_probe(old(self)@.start, old(self)@.attempt + 1) ==> final(self)@.done
                && final(self)@.port == old(self)@.port,
    {
        let ghost k = self.attempt as nat;
        let ghost h = self.answers@.push(free);
        proof {
            lemma_settle_skips_taken(self.start, h, k);
        }
        self.answers = Ghost(h);
        let room = self.attempt + 1 < MAX_ATTEMPTS && self.port <= u16::MAX - 2 * PORT_OFFSET;
        if free || !room {
            self.done = true;
        } else {
            self.attempt = self.attempt + 1;
            self.port = self.port + PORT_OFFSET;
        }
    }

    pub fn is_done(&self) -> (r: bool)
        ensures
            r == self@.done,
    {
        self.done
    }

    /// The port the search settled on; before that, the pair being tried.
    pub fn port(&self) -> (r: u16)
        ensures
            r == self@.port,
    {
        self.port
    }
}

} // verus!
