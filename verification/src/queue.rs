//! Non-destructive playback queue with true shuffle.
//!
//! The queue keeps the user's original track order next to a shuffled order,
//! so shuffle can be toggled off without losing the position: enabling
//! shuffles a copy and moves the current track to its front, disabling finds
//! the current track back in the original order.

use vstd::prelude::*;
use vstd::seq_lib::*;

verus! {

/// Index of the first track of `s` whose characters equal `t`, or -1.
pub open spec fn first_match(s: Seq<String>, t: Seq<char>) -> int
    decreases s.len(),
{
    if s.len() == 0 {
        -1
    } else if s[0]@ == t {
        0
    } else {
        let r = first_match(s.drop_first(), t);
        if r == -1 {
            -1
        } else {
            r + 1
        }
    }
}

/// What `first_match` finds: the unique first matching index, or nothing.
pub proof fn lemma_first_match(s: Seq<String>, t: Seq<char>)
    ensures
        first_match(s, t) == -1 ==> forall|i: int| 0 <= i < s.len() ==> (#[trigger] s[i])@ != t,
        first_match(s, t) != -1 ==> {
            let r = first_match(s, t);
            0 <= r < s.len() && s[r]@ == t && forall|i: int| 0 <= i < r ==> (#[trigger] s[i])@ != t
        },
    decreases s.len(),
{
    if s.len() > 0 && s[0]@ != t {
        lemma_first_match(s.drop_first(), t);
        let d = s.drop_first();
        assert(forall|i: int| 1 <= i < s.len() ==> #[trigger] s[i] == d[i - 1]);
    }
}

/// Scans for the first track whose characters equal `t`.
fn index_of_match(v: &Vec<String>, t: &String) -> (r: Option<usize>)
    ensures
        match r {
            Some(k) => k < v@.len() && first_match(v@, t@) == k as int,
            None => first_match(v@, t@) == -1,
        },
{
    let mut i: usize = 0;
    while i < v.len()
        invariant
            i <= v@.len(),
            forall|j: int| 0 <= j < i ==> (#[trigger] v@[j])@ != t@,
        decreases v@.len() - i,
    {
        if v[i].eq(t) {
            proof {
                lemma_first_match(v@, t@);
            }
            return Some(i);
        }
        i += 1;
    }
    proof {
        lemma_first_match(v@, t@);
    }
    None
}

/// Swaps two tracks in place.
fn swap_tracks(v: &mut Vec<String>, i: usize, j: usize)
    requires
        i < old(v)@.len(),
        j < old(v)@.len(),
    ensures
        final(v)@ == old(v)@.update(i as int, old(v)@[j as int]).update(
            j as int,
            old(v)@[i as int],
        ),
        final(v)@.to_multiset() == old(v)@.to_multiset(),
        final(v)@.len() == old(v)@.len(),
{
    let ghost pre = v@;
    let a = v[i].clone();
    let b = v[j].clone();
    *vstd::std_specs::vec::vec_index_mut(v, i) = b;
    *vstd::std_specs::vec::vec_index_mut(v, j) = a;
    proof {
        broadcast use group_to_multiset_ensures;

        assert(v@ == pre.update(i as int, pre[j as int]).update(j as int, pre[i as int]));
        assert(pre.update(i as int, pre[j as int]).to_multiset() == pre.to_multiset().insert(
            pre[j as int],
        ).remove(pre[i as int]));
        assert(pre.contains(pre[i as int]));
        assert(pre.to_multiset().count(pre[i as int]) > 0);
        assert(pre.contains(pre[j as int]));
        assert(pre.to_multiset().count(pre[j as int]) > 0);
        assert(v@.to_multiset() =~= pre.to_multiset());
    }
}

/// Copies a track list element by element.
fn clone_tracks(v: &Vec<String>) -> (r: Vec<String>)
    ensures
        r@ == v@,
{
    let mut out: Vec<String> = Vec::new();
    let mut i: usize = 0;
    while i < v.len()
        invariant
            i <= v@.len(),
            out@.len() == i,
            forall|j: int| 0 <= j < i ==> out@[j] == v@[j],
        decreases v@.len() - i,
    {
        out.push(v[i].clone());
        i += 1;
    }
    proof {
        assert(out@ =~= v@);
    }
    out
}

/// One step of the 64-bit linear congruential generator used for shuffling.
fn lcg_next(state: u64) -> u64 {
    state.wrapping_mul(6364136223846793005).wrapping_add(1442695040888963407)
}

/// Relies on std::time::SystemTime for a shuffle seed drawn from the clock;
/// nothing is promised of its value.
#[verifier::external_body]
fn clock_seed() -> u64 {
    std::time::SystemTime::now()
        .duration_since(std::time::UNIX_EPOCH)
        .map(|d| d.as_nanos() as u64)
        .unwrap_or(42)
}

/// In-place Fisher-Yates shuffle: the result holds exactly the tracks it
/// was given, in some order drawn from the clock-seeded generator.
pub fn fisher_yates_shuffle(items: &mut Vec<String>)
    ensures
        final(items)@.len() == old(items)@.len(),
        final(items)@.to_multiset() == old(items)@.to_multiset(),
{
    let len = items.len();
    if len <= 1 {
        return;
    }
    let mut rng_state = clock_seed();
    let mut i = len - 1;
    while i >= 1
        invariant
            i < len == items@.len(),
            items@.to_multiset() == old(items)@.to_multiset(),
        decreases i,
    {
        rng_state = lcg_next(rng_state);
        proof {
            assert(rng_state >> 33u64 <= 0x7FFF_FFFFu64) by (bit_vector);
        }
        let j = ((rng_state >> 33) as usize) % (i + 1);
        swap_tracks(items, i, j);
        i -= 1;
    }
}

/// Non-destructive playback queue; see the module description.
pub struct PlaybackQueue {
    original_order: Vec<String>,
    shuffled_order: Vec<String>,
    current_index: usize,
    shuffle_enabled: bool,
}

impl PlaybackQueue {
    /// The track list as the user queued it.
    pub closed spec fn original(self) -> Seq<String> {
        self.original_order@
    }

    /// The shuffled track list (meaningful only while shuffle is on).
    pub closed spec fn shuffled(self) -> Seq<String> {
        self.shuffled_order@
    }

    /// Position of the current track in the active order.
    pub closed spec fn index(self) -> nat {
        self.current_index as nat
    }

    /// Whether shuffle mode is on.
    pub closed spec fn shuffle_on(self) -> bool {
        self.shuffle_enabled
    }

    /// The order playback follows: the shuffled list while shuffle is on
    /// and non-empty, the original list otherwise.
    pub open spec fn active(self) -> Seq<String> {
        if self.shuffle_on() && self.shuffled().len() > 0 {
            self.shuffled()
        } else {
            self.original()
        }
    }

    /// The characters of the current track, when the index is in range.
    pub open spec fn current_view(self) -> Option<Seq<char>> {
        if self.index() < self.active().len() {
            Some(self.active()[self.index() as int]@)
        } else {
            None
        }
    }

    /// Queue validity: while shuffle is on the shuffled list holds exactly
    /// the original tracks, and the index is in range or zero.
    pub open spec fn wf(self) -> bool {
        (self.shuffle_on() ==> self.shuffled().to_multiset() == self.original().to_multiset())
            && (self.index() == 0 || self.index() < self.active().len())
    }

    /// An empty queue, shuffle off, at position zero.
    pub fn new() -> (r: PlaybackQueue)
        ensures
            r.wf(),
            r.original().len() == 0,
            r.shuffled().len() == 0,
            r.index() == 0,
            !r.shuffle_on(),
    {
        PlaybackQueue {
            original_order: Vec::new(),
            shuffled_order: Vec::new(),
            current_index: 0,
            shuffle_enabled: false,
        }
    }

    /// Replaces the queue contents with a new list of track paths.
    pub fn set_tracks(&mut self, tracks: Vec<String>)
        ensures
            final(self).wf(),
            final(self).original() == tracks@,
            final(self).shuffled().len() == 0,
            final(self).index() == 0,
            !final(self).shuffle_on(),
    {
        self.original_order = tracks;
        self.shuffled_order.clear();
        self.current_index = 0;
        self.shuffle_enabled = false;
    }

    /// The active track list (shuffled when shuffle is on).
    pub fn active_order(&self) -> (r: &[String])
        ensures
            r@ == self.active(),
    {
        if self.shuffle_enabled && !self.shuffled_order.is_empty() {
            self.shuffled_order.as_slice()
        } else {
            self.original_order.as_slice()
        }
    }

    /// The current track path, if any.
    pub fn current_track(&self) -> (r: Option<String>)
        ensures
            r is Some <==> self.current_view() is Some,
            r matches Some(s) ==> self.current_view() == Some(s@),
    {
        if self.shuffle_enabled && !self.shuffled_order.is_empty() {
            if self.current_index < self.shuffled_order.len() {
                Some(self.shuffled_order[self.current_index].clone())
            } else {
                None
            }
        } else {
            if self.current_index < self.original_order.len() {
                Some(self.original_order[self.current_index].clone())
            } else {
                None
            }
        }
    }

    /// Advances to the next track when one remains; returns the new
    /// current track.
    pub fn next(&mut self) -> (r: Option<String>)
        requires
            old(self).wf(),
        ensures
            final(self).wf(),
            final(self).original() == old(self).original(),
            final(self).shuffled() == old(self).shuffled(),
            final(self).shuffle_on() == old(self).shuffle_on(),
            final(self).index() == if old(self).index() + 1 < old(self).active().len() {
                old(self).index() + 1
            } else {
                old(self).index()
            },
            r is Some <==> final(self).current_view() is Some,
            r matches Some(s) ==> final(self).current_view() == Some(s@),
    {
        let order_len = self.active_order().len();
        if self.current_index + 1 < order_len {
            self.current_index += 1;
        }
        self.current_track()
    }

    /// Steps back to the previous track; returns the new current track.
    pub fn previous(&mut self) -> (r: Option<String>)
        requires
            old(self).wf(),
        ensures
            final(self).wf(),
            final(self).original() == old(self).original(),
            final(self).shuffled() == old(self).shuffled(),
            final(self).shuffle_on() == old(self).shuffle_on(),
            final(self).index() == if old(self).index() > 0 {
                old(self).index() - 1
            } else {
                0
            },
            r is Some <==> final(self).current_view() is Some,
            r matches Some(s) ==> final(self).current_view() == Some(s@),
    {
        if self.current_index > 0 {
            self.current_index -= 1;
        }
        self.current_track()
    }

    /// Jumps to an index of the active order; out-of-range indices are
    /// ignored.
    pub fn jump_to(&mut self, index: usize)
        requires
            old(self).wf(),
        ensures
            final(self).wf(),
            final(self).original() == old(self).original(),
            final(self).shuffled() == old(self).shuffled(),
            final(self).shuffle_on() == old(self).shuffle_on(),
            final(self).index() == if index < old(self).active().len() {
                index as nat
            } else {
                old(self).index()
            },
    {
        if index < self.active_order().len() {
            self.current_index = index;
        }
    }

    pub fn is_shuffle_enabled(&self) -> (r: bool)
        ensures
            r == self.shuffle_on(),
    {
        self.shuffle_enabled
    }

    pub fn current_index(&self) -> (r: usize)
        ensures
            r == self.index(),
    {
        self.current_index
    }

    pub fn len(&self) -> (r: usize)
        ensures
            r == self.active().len(),
    {
        self.active_order().len()
    }

    pub fn is_empty(&self) -> (r: bool)
        ensures
            r == (self.active().len() == 0),
    {
        self.active_order().is_empty()
    }

    /// Toggles shuffle mode.  Enabling shuffles a copy of the original
    /// order and carries the current track to its front; disabling resolves
    /// the current track back to its place in the original order.
    pub fn toggle_shuffle(&mut self, enable: bool)
        requires
            old(self).wf(),
        ensures
            final(self).wf(),
            final(self).original() == old(self).original(),
            enable == old(self).shuffle_on() ==> *final(self) == *old(self),
            enable != old(self).shuffle_on() ==> final(self).shuffle_on() == enable,
            enable && !old(self).shuffle_on() ==> {
                &&& final(self).shuffled().to_multiset() == old(self).original().to_multiset()
                &&& (old(self).current_view() matches Some(t) ==> final(self).index() == 0
                    && final(self).current_view() == Some(t))
                &&& (old(self).current_view() is None ==> final(self).index() == old(
                    self,
                ).index())
            },
            !enable && old(self).shuffle_on() ==> {
                &&& final(self).shuffled().len() == 0
                &&& (old(self).current_view() matches Some(t) ==> {
                    &&& final(self).index() == if first_match(old(self).original(), t) >= 0 {
                        first_match(old(self).original(), t) as nat
                    } else {
                        0
                    }
                    &&& (first_match(old(self).original(), t) >= 0 ==> final(self).current_view()
                        == Some(t))
                })
                &&& (old(self).current_view() is None ==> final(self).index() == old(
                    self,
                ).index())
            },
    {
        if enable == self.shuffle_enabled {
            return;
        }
        if enable {
            let current = self.current_track();
            self.shuffled_order = clone_tracks(&self.original_order);
            fisher_yates_shuffle(&mut self.shuffled_order);
            match current {
                Some(track) => {
                    proof {
                        broadcast use group_to_multiset_ensures;

                        let oc = old(self).original()[old(self).index() as int];
                        assert(old(self).original().contains(oc));
                        assert(old(self).original().to_multiset().count(oc) > 0);
                        assert(self.shuffled_order@.to_multiset().count(oc) > 0);
                        assert(self.shuffled_order@.contains(oc));
                        lemma_first_match(self.shuffled_order@, track@);
                        if first_match(self.shuffled_order@, track@) == -1 {
                            let k = choose|k: int|
                                0 <= k < self.shuffled_order@.len() && self.shuffled_order@[k]
                                    == oc;
                            assert(self.shuffled_order@[k]@ != track@);
                            assert(false);
                        }
                    }
                    match index_of_match(&self.shuffled_order, &track) {
                        Some(pos) => {
                            proof {
                                lemma_first_match(self.shuffled_order@, track@);
                            }
                            swap_tracks(&mut self.shuffled_order, 0, pos);
                            proof {
                                assert(self.shuffled_order@[0]@ == track@);
                            }
                        },
                        None => {
                        },
                    }
                    self.current_index = 0;
                },
                None => {
                },
            }
        } else {
            let current = self.current_track();
            match current {
                Some(track) => {
                    self.current_index = match index_of_match(&self.original_order, &track) {
                        Some(pos) => pos,
                        None => 0,
                    };
                    proof {
                        if first_match(self.original_order@, track@) >= 0 {
                            lemma_first_match(self.original_order@, track@);
                        }
                    }
                },
                None => {
                },
            }
            self.shuffled_order.clear();
        }
        self.shuffle_enabled = enable;
    }
}

} // verus!
