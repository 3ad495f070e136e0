//! Chunk indexing and the registry of loaded terrain chunks.
//!
//! The world is tiled along the forward axis (negative z) by square chunks of
//! `CHUNK_SIZE` units. Chunk `i` covers forward distances `[i * CHUNK_SIZE,
//! (i + 1) * CHUNK_SIZE)`. Each tick the streamer makes sure that the `WINDOW`
//! chunks starting at the player's own chunk exist; chunks are never evicted.
use std::collections::HashMap;
use vstd::prelude::*;

verus! {

broadcast use vstd::std_specs::hash::group_hash_axioms;

/// Edge length of one terrain chunk, in world units.
pub const CHUNK_SIZE: u64 = 200;

/// Number of chunks kept loaded, starting at the player's own chunk.
pub const WINDOW: u64 = 5;

/// Largest index `chunk_index` can produce: `2^63 / CHUNK_SIZE`, rounded down.
pub const MAX_INDEX: u64 = 46116860184273879;

/// Index of the chunk under a forward coordinate: `floor(|forward| / CHUNK_SIZE)`.
pub open spec fn index_of(forward: int) -> int {
    vstd::math::abs(forward) as int / CHUNK_SIZE as int
}

/// Index of the chunk that holds the player.
///
/// `forward` is the player's forward-axis coordinate with its fraction dropped
/// (truncated toward zero). Because `CHUNK_SIZE` is a whole number,
/// `floor(|z| / CHUNK_SIZE) == floor(floor(|z|) / CHUNK_SIZE)`, so dropping the
/// fraction never changes the index.
pub fn chunk_index(forward: i64) -> (r: u64)
    ensures
        r as int == index_of(forward as int),
        r <= MAX_INDEX,
{
    let magnitude: u64 = if forward < 0 {
        ((-(forward + 1)) as u64) + 1
    } else {
        forward as u64
    };
    magnitude / CHUNK_SIZE
}

/// Surface points drawn on each new chunk to place obstacles.
pub const OBSTACLES_PER_CHUNK: usize = 2;

/// Forward distance at which chunk `index` is placed: `index * CHUNK_SIZE`.
/// Every index that a plan can return is accepted.
pub fn chunk_offset(index: u64) -> (r: u64)
    requires
        index < MAX_INDEX + WINDOW,
    ensures
        r == index * CHUNK_SIZE,
{
    index * CHUNK_SIZE
}

/// The indices among the `count` indices starting at `first` that are not in
/// `loaded`, in increasing order.
pub open spec fn window_gaps(loaded: Set<u64>, first: int, count: nat) -> Seq<u64>
    decreases count,
{
    if count == 0 {
        Seq::empty()
    } else {
        let before = window_gaps(loaded, first, (count - 1) as nat);
        let k = (first + count - 1) as u64;
        if loaded.contains(k) {
            before
        } else {
            before.push(k)
        }
    }
}

/// The chunks that one ensure-step generates when the player stands in chunk
/// `current` and the chunks in `loaded` already exist.
pub open spec fn chunks_to_generate(loaded: Set<u64>, current: int) -> Seq<u64> {
    window_gaps(loaded, current, WINDOW as nat)
}

/// `window_gaps` holds exactly the unloaded indices of its range, each once
/// and in increasing order.
pub proof fn lemma_window_gaps(loaded: Set<u64>, first: int, count: nat)
    requires
        0 <= first,
        first + count <= u64::MAX + 1,
    ensures
        forall|k: u64|
            #[trigger] window_gaps(loaded, first, count).contains(k) <==> (first <= k < first
                + count && !loaded.contains(k)),
        forall|i: int, j: int|
            0 <= i < j < window_gaps(loaded, first, count).len() ==> #[trigger] window_gaps(
                loaded,
                first,
                count,
            )[i] < #[trigger] window_gaps(loaded, first, count)[j],
        forall|i: int|
            0 <= i < window_gaps(loaded, first, count).len() ==> first <= #[trigger] window_gaps(
                loaded,
                first,
                count,
            )[i] < first + count,
    decreases count,
{
    if count > 0 {
        let c1 = (count - 1) as nat;
        lemma_window_gaps(loaded, first, c1);
        let before = window_gaps(loaded, first, c1);
        let k = (first + count - 1) as u64;
        if !loaded.contains(k) {
            let after = before.push(k);
            assert forall|x: u64| #[trigger] after.contains(x) <==> (first <= x < first + count
                && !loaded.contains(x)) by {
                if after.contains(x) {
                    let i = choose|i: int| 0 <= i < after.len() && after[i] == x;
                    if i < before.len() {
                        assert(before.contains(x));
                    }
                }
                if first <= x < first + count && !loaded.contains(x) {
                    if x == k {
                        assert(after[before.len() as int] == x);
                    } else {
                        assert(before.contains(x));
                        let i = choose|i: int| 0 <= i < before.len() && before[i] == x;
                        assert(after[i] == x);
                    }
                }
            }
        } else {
            assert forall|x: u64| #[trigger] before.contains(x) <==> (first <= x < first + count
                && !loaded.contains(x)) by {
                if first <= x < first + count && !loaded.contains(x) {
                    assert(x != k);
                }
            }
        }
    }
}

/// Generating what one ensure-step asks for leaves nothing for a second
/// ensure-step at the same position: the step is idempotent.
pub proof fn lemma_ensure_step_idempotent(loaded: Set<u64>, current: u64)
    requires
        current <= MAX_INDEX,
    ensures
        chunks_to_generate(
            loaded.union(chunks_to_generate(loaded, current as int).to_set()),
            current as int,
        ) == Seq::<u64>::empty(),
{
    let first = chunks_to_generate(loaded, current as int);
    let after = loaded.union(first.to_set());
    let second = chunks_to_generate(after, current as int);
    lemma_window_gaps(loaded, current as int, WINDOW as nat);
    lemma_window_gaps(after, current as int, WINDOW as nat);
    if second.len() > 0 {
        let k = second[0];
        assert(second.contains(k));
        assert(!after.contains(k));
        assert(first.contains(k));
        assert(first.to_set().contains(k));
    }
    assert(second =~= Seq::<u64>::empty());
}

/// Registry from chunk index to the handle of the chunk generated for it.
///
/// At most one handle is held per index, and an index is present exactly when
/// its chunk (and its obstacles) have been generated.
pub struct LoadedChunks {
    chunks: HashMap<u64, u64>,
}

impl View for LoadedChunks {
    type V = Map<u64, u64>;

    closed spec fn view(&self) -> Map<u64, u64> {
        self.chunks@
    }
}

impl LoadedChunks {
    /// An empty registry.
    pub fn new() -> (r: Self)
        ensures
            r@ == Map::<u64, u64>::empty(),
    {
        LoadedChunks { chunks: HashMap::new() }
    }

    /// Whether chunk `index` has been generated.
    pub fn is_loaded(&self, index: u64) -> (r: bool)
        ensures
            r == self@.contains_key(index),
    {
        self.chunks.contains_key(&index)
    }

    /// The handle registered for chunk `index`, if any.
    pub fn handle(&self, index: u64) -> (r: Option<u64>)
        ensures
            r == (if self@.contains_key(index) {
                Some(self@[index])
            } else {
                None
            }),
    {
        match self.chunks.get(&index) {
            Some(h) => Some(*h),
            None => None,
        }
    }

    /// Number of chunks generated so far.
    pub fn len(&self) -> (r: usize)
        ensures
            r == self@.len(),
    {
        self.chunks.len()
    }

    /// The chunks to generate when the player stands in chunk `current`: the
    /// indices of `[current, current + WINDOW)` not yet loaded, in increasing
    /// order.
    pub fn plan(&self, current: u64) -> (r: Vec<u64>)
        requires
            current <= MAX_INDEX,
        ensures
            r@ == chunks_to_generate(self@.dom(), current as int),
            forall|k: u64|
                #[trigger] r@.contains(k) <==> (current <= k < current + WINDOW
                    && !self@.contains_key(k)),
    {
        let mut r: Vec<u64> = Vec::new();
        let mut n: u64 = 0;
        while n < WINDOW
            invariant
                current <= MAX_INDEX,
                n <= WINDOW,
                r@ == window_gaps(self@.dom(), current as int, n as nat),
            decreases WINDOW - n,
        {
            let k = current + n;
            if !self.chunks.contains_key(&k) {
                r.push(k);
            }
            n = n + 1;
        }
        proof {
            lemma_window_gaps(self@.dom(), current as int, WINDOW as nat);
        }
        r
    }

    /// The ensure-step for a player at forward coordinate `forward` (fraction
    /// dropped, see `chunk_index`): the chunks of the window starting at the
    /// player's chunk that are not loaded yet, in increasing order.
    pub fn plan_at(&self, forward: i64) -> (r: Vec<u64>)
        ensures
            r@ == chunks_to_generate(self@.dom(), index_of(forward as int)),
            forall|k: u64|
                #[trigger] r@.contains(k) <==> (index_of(forward as int) <= k < index_of(
                    forward as int,
                ) + WINDOW && !self@.contains_key(k)),
    {
        let current = chunk_index(forward);
        self.plan(current)
    }

    /// Records `handle` as the chunk generated for `index`. An index that is
    /// already loaded keeps its handle, and `false` is returned.
    pub fn register(&mut self, index: u64, handle: u64) -> (r: bool)
        ensures
            r == !old(self)@.contains_key(index),
            r ==> final(self)@ == old(self)@.insert(index, handle),
            !r ==> final(self)@ == old(self)@,
    {
        if self.chunks.contains_key(&index) {
            false
        } else {
            self.chunks.insert(index, handle);
            true
        }
    }
}

} // verus!
