//! The supervisor of the host's radio adapters.
//!
//! Every few seconds the caller lists the adapters of the host and hands
//! their info tokens to [`AdapterWatcher::poll`], which answers with those
//! that need a scanner task. When a task has finished, the caller says so by
//! [`AdapterWatcher::reap`], and the adapter may be taken up again on a later
//! cycle.

use vstd::prelude::*;

verus! {

/// Seconds between two listings of the adapters.
pub const POLL_INTERVAL_SECONDS: u64 = 5;

/// What a call of [`AdapterWatcher::start`] found.
#[derive(Clone, Copy, Debug, PartialEq, Eq)]
pub enum StartOutcome {
    /// This was the first call: the caller starts the watch loop.
    Started,
    /// The watcher runs already: nothing is to be done.
    AlreadyStarted,
}

/// The info tokens of a list of adapters.
pub open spec fn tokens(adapters: Seq<String>) -> Seq<Seq<char>> {
    Seq::new(adapters.len(), |i: int| adapters[i]@)
}

/// Whether the adapter at index `i` of a listing needs a scanner: its token
/// is not watched yet and occurs nowhere earlier in the listing.
pub open spec fn needs_scanner(watched: Set<Seq<char>>, listing: Seq<Seq<char>>, i: int) -> bool {
    &&& 0 <= i < listing.len()
    &&& !watched.contains(listing[i])
    &&& forall|j: int| 0 <= j < i ==> listing[j] != listing[i]
}

/// One scanner per distinct token, however often a token is listed, in one
/// cycle or over two. Within a listing no two adapters that need a scanner
/// share a token, and every unwatched token of the listing gets one. After
/// the listing's tokens have joined the watched set, a second listing asks
/// for none of them again, nor for any that was watched before.
pub proof fn lemma_one_scanner_per_token(
    watched: Set<Seq<char>>,
    first: Seq<Seq<char>>,
    second: Seq<Seq<char>>,
)
    ensures
        forall|i: int, j: int|
            needs_scanner(watched, first, i) && needs_scanner(watched, first, j) && i != j
                ==> first[i] != first[j],
        forall|k: int|
            0 <= k < first.len() && !watched.contains(#[trigger] first[k]) ==> exists|i: int|
                needs_scanner(watched, first, i) && first[i] == first[k],
        forall|j: int| #[trigger]
            needs_scanner(watched.union(first.to_set()), second, j) ==> !watched.contains(second[j])
                && !first.contains(second[j]),
{
    assert forall|k: int| 0 <= k < first.len() && !watched.contains(#[trigger] first[k]) implies exists|
        i: int,
    |
        needs_scanner(watched, first, i) && first[i] == first[k] by {
        lemma_first_listing(watched, first, k);
    }
}

proof fn lemma_first_listing(watched: Set<Seq<char>>, listing: Seq<Seq<char>>, k: int)
    requires
        0 <= k < listing.len(),
        !watched.contains(listing[k]),
    ensures
        exists|i: int| needs_scanner(watched, listing, i) && listing[i] == listing[k],
    decreases k,
{
    if forall|j: int| 0 <= j < k ==> listing[j] != listing[k] {
        assert(needs_scanner(watched, listing, k));
    } else {
        let j = choose|j: int| 0 <= j < k && listing[j] == listing[k];
        lemma_first_listing(watched, listing, j);
    }
}

/// A token whose task was reaped is taken up again by the next listing that
/// holds it.
pub proof fn lemma_reaped_token_is_taken_up(
    watched: Set<Seq<char>>,
    finished: Set<Seq<char>>,
    listing: Seq<Seq<char>>,
    k: int,
)
    requires
        0 <= k < listing.len(),
        finished.contains(listing[k]),
    ensures
        exists|i: int|
            needs_scanner(watched.difference(finished), listing, i) && listing[i] == listing[k],
{
    lemma_first_listing(watched.difference(finished), listing, k);
}

fn holds_token(list: &Vec<String>, token: &String) -> (found: bool)
    ensures
        found == tokens(list@).contains(token@),
{
    let mut k: usize = 0;
    while k < list.len()
        invariant
            0 <= k <= list@.len(),
            forall|j: int| 0 <= j < k ==> tokens(list@)[j] != token@,
        decreases list@.len() - k,
    {
        if list[k] == *token {
            assert(tokens(list@)[k as int] == token@);
            return true;
        }
        k = k + 1;
    }
    false
}

/// Which adapters have a scanner task, by info token.
#[derive(Debug)]
pub struct AdapterWatcher {
    started: bool,
    watched: Vec<String>,
}

impl AdapterWatcher {
    /// The tokens of the adapters that have a scanner task.
    pub closed spec fn watched(&self) -> Set<Seq<char>> {
        tokens(self.watched@).to_set()
    }

    /// Whether [`AdapterWatcher::start`] has been called.
    pub closed spec fn started(&self) -> bool {
        self.started
    }

    /// A watcher that has not started and watches nothing.
    pub fn new() -> (watcher: Self)
        ensures
            !watcher.started(),
            watcher.watched() == Set::<Seq<char>>::empty(),
    {
        let watcher = AdapterWatcher { started: false, watched: Vec::new() };
        assert(watcher.watched() =~= Set::<Seq<char>>::empty());
        watcher
    }

    /// Marks the watcher as started. Only the first call answers `Started`,
    /// so the watch loop runs once however often its entry point is invoked.
    pub fn start(&mut self) -> (outcome: StartOutcome)
        ensures
            final(self).started(),
            final(self).watched() == old(self).watched(),
            outcome == if old(self).started() {
                StartOutcome::AlreadyStarted
            } else {
                StartOutcome::Started
            },
    {
        if self.started {
            StartOutcome::AlreadyStarted
        } else {
            self.started = true;
            StartOutcome::Started
        }
    }

    /// Whether the adapter with this token has a scanner task.
    pub fn is_watched(&self, token: &String) -> (watched: bool)
        ensures
            watched == self.watched().contains(token@),
    {
        holds_token(&self.watched, token)
    }

    /// Takes the tokens of one listing of the host's adapters and answers
    /// with the indices, in rising order, of those that need a scanner task:
    /// for each unwatched token its first occurrence. All tokens of the
    /// listing are watched from then on.
    pub fn poll(&mut self, adapters: &Vec<String>) -> (spawn: Vec<usize>)
        ensures
            final(self).started() == old(self).started(),
            final(self).watched() == old(self).watched().union(tokens(adapters@).to_set()),
            forall|i: usize|
                spawn@.contains(i) <==> needs_scanner(
                    old(self).watched(),
                    tokens(adapters@),
                    i as int,
                ),
            forall|a: int, b: int| 0 <= a < b < spawn@.len() ==> spawn@[a] < spawn@[b],
    {
        let ghost listing = tokens(adapters@);
        let ghost before = self.watched();
        let mut spawn: Vec<usize> = Vec::new();
        let mut i: usize = 0;
        while i < adapters.len()
            invariant
                0 <= i <= adapters@.len(),
                listing == tokens(adapters@),
                self.started == old(self).started,
                self.watched() == before.union(listing.take(i as int).to_set()),
                forall|k: usize|
                    spawn@.contains(k) <==> k < i && needs_scanner(before, listing, k as int),
                forall|a: int| 0 <= a < spawn@.len() ==> spawn@[a] < i,
                forall|a: int, b: int| 0 <= a < b < spawn@.len() ==> spawn@[a] < spawn@[b],
            decreases adapters@.len() - i,
        {
            let ghost watched_here = self.watched();
            let ghost spawn_here = spawn@;
            let known = holds_token(&self.watched, &adapters[i]);
            assert(listing[i as int] == adapters@[i as int]@);
            assert(known == watched_here.contains(listing[i as int]));
            assert(listing.take(i as int + 1) =~= listing.take(i as int).push(listing[i as int]));
            assert(listing.take(i as int + 1).to_set() =~= listing.take(i as int).to_set().insert(
                listing[i as int],
            )) by {
                lemma_push_to_set(listing.take(i as int), listing[i as int]);
            }
            assert(!known <==> needs_scanner(before, listing, i as int)) by {
                lemma_take_contains(listing, i as int);
            }
            if !known {
                let ghost list_here = self.watched@;
                self.watched.push(adapters[i].clone());
                spawn.push(i);
                proof {
                    assert(tokens(self.watched@) =~= tokens(list_here).push(listing[i as int]));
                    lemma_push_to_set(tokens(list_here), listing[i as int]);
                    assert(self.watched() =~= before.union(
                        listing.take(i as int + 1).to_set(),
                    ));
                    assert(spawn@ == spawn_here.push(i));
                    assert forall|k: usize|
                        spawn@.contains(k) <==> k < i + 1 && needs_scanner(
                            before,
                            listing,
                            k as int,
                        ) by {
                        lemma_push_contains(spawn_here, i, k);
                    }
                }
            } else {
                assert(self.watched() =~= before.union(listing.take(i as int + 1).to_set()));
            }
            i = i + 1;
        }
        assert(listing.take(i as int) =~= listing);
        spawn
    }

    /// Forgets the adapters whose scanner task has finished, so that a later
    /// listing takes them up again.
    pub fn reap(&mut self, finished: &Vec<String>)
        ensures
            final(self).started() == old(self).started(),
            final(self).watched() == old(self).watched().difference(tokens(finished@).to_set()),
    {
        let ghost before = tokens(self.watched@);
        let ghost gone = tokens(finished@).to_set();
        let mut kept: Vec<String> = Vec::new();
        let mut i: usize = 0;
        while i < self.watched.len()
            invariant
                0 <= i <= self.watched@.len(),
                self.started == old(self).started,
                self.watched == old(self).watched,
                before == tokens(self.watched@),
                gone == tokens(finished@).to_set(),
                tokens(kept@).to_set() == before.take(i as int).to_set().difference(gone),
            decreases self.watched@.len() - i,
        {
            let ghost kept_here = kept@;
            let done = holds_token(finished, &self.watched[i]);
            assert(before[i as int] == self.watched@[i as int]@);
            assert(before.take(i as int + 1) =~= before.take(i as int).push(before[i as int]));
            proof {
                lemma_push_to_set(before.take(i as int), before[i as int]);
            }
            if !done {
                kept.push(self.watched[i].clone());
                proof {
                    assert(tokens(kept@) =~= tokens(kept_here).push(before[i as int]));
                    lemma_push_to_set(tokens(kept_here), before[i as int]);
                }
            }
            assert(tokens(kept@).to_set() =~= before.take(i as int + 1).to_set().difference(gone));
            i = i + 1;
        }
        assert(before.take(i as int) =~= before);
        self.watched = kept;
    }
}

proof fn lemma_push_to_set(list: Seq<Seq<char>>, token: Seq<char>)
    ensures
        list.push(token).to_set() == list.to_set().insert(token),
{
    assert forall|t: Seq<char>| list.push(token).to_set().contains(t) <==> list.to_set().insert(
        token,
    ).contains(t) by {
        if list.push(token).contains(t) {
            let k = choose|k: int| 0 <= k < list.push(token).len() && list.push(token)[k] == t;
            if k < list.len() {
                assert(list[k] == t);
            }
        }
        if list.contains(t) {
            let k = choose|k: int| 0 <= k < list.len() && list[k] == t;
            assert(list.push(token)[k] == t);
        }
        if t == token {
            assert(list.push(token)[list.len() as int] == t);
        }
    }
    assert(list.push(token).to_set() =~= list.to_set().insert(token));
}

proof fn lemma_take_contains(list: Seq<Seq<char>>, i: int)
    requires
        0 <= i < list.len(),
    ensures
        list.take(i).to_set().contains(list[i]) <==> exists|j: int| 0 <= j < i && list[j] == list[i],
{
    if list.take(i).contains(list[i]) {
        let j = choose|j: int| 0 <= j < list.take(i).len() && list.take(i)[j] == list[i];
        assert(list[j] == list[i]);
    }
    if exists|j: int| 0 <= j < i && list[j] == list[i] {
        let j = choose|j: int| 0 <= j < i && list[j] == list[i];
        assert(list.take(i)[j] == list[i]);
    }
}

proof fn lemma_push_contains(list: Seq<usize>, last: usize, k: usize)
    ensures
        list.push(last).contains(k) <==> list.contains(k) || k == last,
{
    if list.push(last).contains(k) {
        let a = choose|a: int| 0 <= a < list.push(last).len() && list.push(last)[a] == k;
        if a < list.len() {
            assert(list[a] == k);
        }
    }
    if list.contains(k) {
        let a = choose|a: int| 0 <= a < list.len() && list[a] == k;
        assert(list.push(last)[a] == k);
    }
    if k == last {
        assert(list.push(last)[list.len() as int] == last);
    }
}

} // verus!
