//! # Boards
//!
//! A board is a list of memory regions, each holding cards and attributes,
//! that a VM reads and changes on behalf of a player. A board decides which
//! regions that player may touch, and hands out fresh card ids.

pub mod memory_region;
pub mod player_board;
pub mod verification_board;

use vstd::prelude::*;
use crate::board::memory_region::{MemoryRegion, MemoryRegionView};

verus! {

/// Why a region could not be reached.
#[derive(Clone, Copy, Debug, PartialEq, Eq, Structural)]
pub enum Error {
    /// The region exists, but the current player may not touch it.
    AccessViolation { player_id: u32, region_index: u32 },
    /// There is no region with that index.
    NoSuchRegion { index: u32 },
}

/// What a board shows a VM: its regions, which of them the current player
/// may touch, who that player is, and the id the next new card gets.
pub struct BoardView {
    pub regions: Seq<MemoryRegionView>,
    pub readable: Seq<bool>,
    pub owner: u32,
    pub card_index: u32,
}

/// Region `index` of `b`, or why the current player cannot reach it.
pub open spec fn spec_region_access(b: BoardView, index: usize) -> Result<MemoryRegionView, Error> {
    if index < b.regions.len() {
        if b.readable[index as int] {
            Ok(b.regions[index as int])
        } else {
            Err(Error::AccessViolation { player_id: b.owner, region_index: index as u32 })
        }
    } else {
        Err(Error::NoSuchRegion { index: index as u32 })
    }
}

/// The board a VM runs on.
pub trait Board {
    /// What the board keeps beside what it shows a VM, such as who owns
    /// each region; nothing a VM can do changes it.
    type Setup;

    /// What the board shows a VM.
    spec fn board_view(&self) -> BoardView;

    /// What the board keeps beside what it shows a VM.
    spec fn setup(&self) -> Self::Setup;

    /// The id of the next new card; the one after it becomes the next.
    fn generate_card_id(&mut self) -> (r: u32)
        requires
            old(self).board_view().card_index < u32::MAX,
        ensures
            r == old(self).board_view().card_index,
            final(self).board_view() == (BoardView { card_index: (r + 1) as u32, ..old(self).board_view() }),
            final(self).setup() =~~= old(self).setup(),
    ;

    /// Region `region_index`, to read and change, if the current player may
    /// touch it; what is done to it is done to the board.
    fn memory_region(&mut self, region_index: usize) -> (r: Result<&mut MemoryRegion, Error>)
        ensures
            spec_region_access(old(self).board_view(), region_index) is Ok ==> (r matches Ok(region)
                && region@ == spec_region_access(old(self).board_view(), region_index)->Ok_0
                && final(self).board_view().regions == old(self).board_view().regions.update(region_index as int, final(region)@)
                && final(self).board_view().readable == old(self).board_view().readable
                && final(self).board_view().owner == old(self).board_view().owner
                && final(self).board_view().card_index == old(self).board_view().card_index),
            spec_region_access(old(self).board_view(), region_index) is Err ==> (r matches Err(e)
                && e == spec_region_access(old(self).board_view(), region_index)->Err_0
                && final(self).board_view() == old(self).board_view()),
            final(self).setup() =~~= old(self).setup(),
    ;

    /// The current player.
    fn owner(&self) -> (r: u32)
        ensures
            r == self.board_view().owner,
    ;

    /// The number of regions.
    fn region_count(&self) -> (r: usize)
        ensures
            r == self.board_view().regions.len(),
    ;

    /// Walks the regions that the current player may touch, from the first.
    fn iter_mut(&mut self) -> (r: IterMut<'_, Self>)
        where
            Self: Sized,
        ensures
            r.counter == 0,
            (*r.board).board_view() == old(self).board_view(),
            (*r.board).setup() == old(self).setup(),
            (*final(r.board)).board_view() == final(self).board_view(),
            (*final(r.board)).setup() == final(self).setup(),
    {
        IterMut { counter: 0, board: self }
    }
}

/// The first index from `from` on of a region that the current player may
/// touch; when there is none, the number of regions, or `from` if that is
/// past them.
pub open spec fn next_readable(b: BoardView, from: int) -> int
    decreases b.regions.len() - from,
{
    if from >= b.regions.len() {
        from
    } else if b.readable[from] {
        from
    } else {
        next_readable(b, from + 1)
    }
}

/// Hands out, one after the other, the regions of a board that the current
/// player may touch, skipping the others.
pub struct IterMut<'a, Brd: Board> {
    pub counter: usize,
    pub board: &'a mut Brd,
}

impl<'a, Brd: Board> IterMut<'a, Brd> {
    /// The next region that the current player may touch, or `None` when
    /// there is no other; what is done to the region is done to the board.
    pub fn next(&mut self) -> (r: Option<&mut MemoryRegion>)
        requires
            (*old(self).board).board_view().regions.len() <= usize::MAX,
        ensures
            ({
                let b = (*old(self).board).board_view();
                let k = next_readable(b, old(self).counter as int);
                &&& (*final(final(self).board)).board_view() == (*final(old(self).board)).board_view()
                &&& (*final(final(self).board)).setup() == (*final(old(self).board)).setup()
                &&& (*final(self).board).setup() == (*old(self).board).setup()
                &&& k < b.regions.len() ==> (r matches Some(region)
                    && region@ == b.regions[k]
                    && handed_out(
                        b,
                        old(self).counter as int,
                        final(region)@,
                        (*final(self).board).board_view(),
                        final(self).counter as int,
                    )
                    && final(self).counter == k + 1
                    && (*final(self).board).board_view().regions == b.regions.update(k, final(region)@)
                    && (*final(self).board).board_view().readable == b.readable
                    && (*final(self).board).board_view().owner == b.owner
                    && (*final(self).board).board_view().card_index == b.card_index)
                &&& k >= b.regions.len() ==> (r is None
                    && final(self).counter == k
                    && (*final(self).board).board_view() == b)
                &&& readable_from(b, old(self).counter as int) == if k < b.regions.len() {
                    seq![k] + readable_from((*final(self).board).board_view(), final(self).counter as int)
                } else {
                    Seq::<int>::empty()
                }
            }),
    {
        let ghost b = (*self.board).board_view();
        let mut counter = self.counter;
        loop
            invariant
                old(self).counter <= counter,
                counter <= b.regions.len() || counter == old(self).counter,
                next_readable(b, old(self).counter as int) == next_readable(b, counter as int),
                (*self.board).board_view() == b,
                b == (*old(self).board).board_view(),
                b.regions.len() <= usize::MAX,
                self.counter == old(self).counter,
                (*final(self.board)).board_view() == (*final(old(self).board)).board_view(),
                (*final(self.board)).setup() == (*final(old(self).board)).setup(),
                (*self.board).setup() == (*old(self).board).setup(),
            ensures
                counter < b.regions.len(),
                b.readable[counter as int],
                next_readable(b, old(self).counter as int) == counter,
                (*self.board).board_view() == b,
                b == (*old(self).board).board_view(),
                self.counter == old(self).counter,
                (*final(self.board)).board_view() == (*final(old(self).board)).board_view(),
                (*final(self.board)).setup() == (*final(old(self).board)).setup(),
                (*self.board).setup() == (*old(self).board).setup(),
            decreases b.regions.len() - counter,
        {
            match self.board.memory_region(counter) {
                Ok(_) => {
                    proof {
                        assert((*self.board).board_view().regions =~= b.regions);
                    }
                    break;
                },
                Err(Error::AccessViolation { .. }) => {
                    counter = counter + 1;
                },
                Err(Error::NoSuchRegion { .. }) => {
                    self.counter = counter;
                    proof {
                        lemma_walk(b, old(self).counter as int);
                    }
                    return None;
                },
            }
        }
        match self.board.memory_region(counter) {
            Ok(region) => {
                self.counter = counter + 1;
                proof {
                    lemma_walk(b, old(self).counter as int);
                    assert forall|b2: BoardView|
                        b2.regions.len() == b.regions.len() && b2.readable == b.readable implies #[trigger] readable_from(
                        b2,
                        counter + 1,
                    ) == readable_from(b, counter + 1) by {
                        lemma_walk_ignores_contents(b2, b, counter + 1);
                    }
                }
                Some(region)
            },
            Err(_) => None,
        }
    }
}

/// The indices of the regions of `b` that the current player may touch,
/// from `from` on, in increasing order.
pub open spec fn readable_from(b: BoardView, from: int) -> Seq<int>
    decreases b.regions.len() - from,
{
    if from >= b.regions.len() {
        Seq::empty()
    } else if b.readable[from] {
        seq![from] + readable_from(b, from + 1)
    } else {
        readable_from(b, from + 1)
    }
}

/// The walk of [`IterMut::next`] from `from` on: it hands out exactly the
/// regions that the current player may touch, each once and in increasing
/// order. The first one handed out is the first such index; the walk then
/// goes on from the index after it; when there is none left, it ends.
pub proof fn lemma_walk(b: BoardView, from: int)
    requires
        0 <= from,
    ensures
        forall|x: int| #[trigger] readable_from(b, from).contains(x) <==> (from <= x < b.regions.len() && b.readable[x]),
        forall|i: int, j: int|
            0 <= i < j < readable_from(b, from).len() ==> #[trigger] readable_from(b, from)[i] < #[trigger] readable_from(
                b,
                from,
            )[j],
        next_readable(b, from) < b.regions.len() ==> readable_from(b, from) == seq![next_readable(b, from)]
            + readable_from(b, next_readable(b, from) + 1),
        next_readable(b, from) >= b.regions.len() ==> readable_from(b, from) == Seq::<int>::empty(),
        from <= next_readable(b, from),
    decreases b.regions.len() - from,
{
    if from < b.regions.len() {
        lemma_walk(b, from + 1);
        let rest = readable_from(b, from + 1);
        if b.readable[from] {
            let w = seq![from] + rest;
            assert forall|x: int| w.contains(x) <==> (from <= x < b.regions.len() && b.readable[x]) by {
                if w.contains(x) {
                    let k = choose|k: int| 0 <= k < w.len() && w[k] == x;
                    if k > 0 {
                        assert(rest[k - 1] == x);
                        assert(rest.contains(x));
                    } else {
                        assert(w[0] == from);
                    }
                }
                if from <= x < b.regions.len() && b.readable[x] {
                    if x == from {
                        assert(w[0] == x);
                    } else {
                        assert(rest.contains(x));
                        let k = choose|k: int| 0 <= k < rest.len() && rest[k] == x;
                        assert(w[k + 1] == x);
                    }
                }
            }
            assert forall|i: int, j: int| 0 <= i < j < w.len() implies w[i] < w[j] by {
                assert(w.len() == rest.len() + 1);
                assert(w[j] == rest[j - 1]);
                assert(rest.contains(rest[j - 1]));
                assert(from + 1 <= rest[j - 1]);
                if i > 0 {
                    assert(w[i] == rest[i - 1]);
                    assert(rest[i - 1] < rest[j - 1]);
                } else {
                    assert(w[i] == from);
                }
            }
        }
    }
}

/// One call of [`IterMut::next`] that handed out a region, as its contract
/// states it: on a board that showed `b`, with the counter at `c`, it handed
/// out the region at `next_readable(b, c)`, which was left holding `v`; the
/// board then shows `b2`, and the counter is `c2`.
pub open spec fn handed_out(b: BoardView, c: int, v: MemoryRegionView, b2: BoardView, c2: int) -> bool {
    let k = next_readable(b, c);
    &&& k < b.regions.len()
    &&& c2 == k + 1
    &&& b2 == (BoardView { regions: b.regions.update(k, v), ..b })
}

/// The region indices that a run of calls handed out, read off the counters
/// that the iterator had after each call.
pub open spec fn handed_indices(counters: Seq<int>) -> Seq<int> {
    Seq::new((counters.len() - 1) as nat, |i: int| counters[i + 1] - 1)
}

/// A run of [`IterMut::next`] calls that each handed out a region: the
/// iterator went through the boards `boards` and the counters `counters`,
/// and the caller left the `i`-th region handed out holding `given[i]`.
/// The regions handed out are the first ones of the walk, in increasing
/// order and each once, and the walk goes on from where the run stopped;
/// each region handed out holds what the caller left in it, and every other
/// region is as it was; which regions the player may touch, the player and
/// the card counter do not change.
pub proof fn lemma_iter_mut_walk(boards: Seq<BoardView>, counters: Seq<int>, given: Seq<MemoryRegionView>)
    requires
        boards.len() == given.len() + 1,
        counters.len() == given.len() + 1,
        0 <= counters[0],
        forall|i: int|
            0 <= i < given.len() ==> #[trigger] handed_out(
                boards[i],
                counters[i],
                given[i],
                boards[i + 1],
                counters[i + 1],
            ),
    ensures
        readable_from(boards[0], counters[0]) == handed_indices(counters) + readable_from(
            boards.last(),
            counters.last(),
        ),
        forall|i: int, j: int|
            0 <= i < j < given.len() ==> #[trigger] handed_indices(counters)[i] < #[trigger] handed_indices(
                counters,
            )[j],
        forall|i: int| 0 <= i < counters.len() ==> counters[0] <= #[trigger] counters[i] <= counters.last(),
        forall|i: int|
            0 <= i < given.len() ==> counters[0] <= #[trigger] handed_indices(counters)[i] < boards[0].regions.len(),
        forall|i: int|
            0 <= i < given.len() ==> boards.last().regions[#[trigger] handed_indices(counters)[i]] == given[i],
        forall|j: int|
            0 <= j < boards[0].regions.len() && !handed_indices(counters).contains(j) ==> #[trigger] boards.last().regions[j]
                == boards[0].regions[j],
        boards.last().regions.len() == boards[0].regions.len(),
        boards.last().readable == boards[0].readable,
        boards.last().owner == boards[0].owner,
        boards.last().card_index == boards[0].card_index,
    decreases given.len(),
{
    let n = given.len() as int;
    let h = handed_indices(counters);
    if n == 0 {
        assert(h =~= Seq::<int>::empty());
        assert(readable_from(boards[0], counters[0]) =~= h + readable_from(boards.last(), counters.last()));
    } else {
        let bs = boards.drop_last();
        let cs = counters.drop_last();
        let gs = given.drop_last();
        assert forall|i: int| 0 <= i < gs.len() implies #[trigger] handed_out(
            bs[i],
            cs[i],
            gs[i],
            bs[i + 1],
            cs[i + 1],
        ) by {
            assert(handed_out(boards[i], counters[i], given[i], boards[i + 1], counters[i + 1]));
        }
        lemma_iter_mut_walk(bs, cs, gs);
        let hs = handed_indices(cs);
        let prev = boards[n - 1];
        let c = counters[n - 1];
        let k = next_readable(prev, c);
        assert(handed_out(prev, c, given[n - 1], boards[n], counters[n]));
        assert(bs.last() == prev);
        assert(cs.last() == c);
        lemma_walk(prev, c);
        lemma_walk_ignores_contents(prev, boards[n], k + 1);
        assert(h =~= hs + seq![k]);
        assert(readable_from(boards[0], counters[0]) =~= h + readable_from(boards.last(), counters.last()));
        assert forall|i: int| 0 <= i < counters.len() implies counters[0] <= #[trigger] counters[i]
            <= counters.last() by {
            if i < n {
                assert(counters[i] == cs[i]);
            }
        }
        assert forall|i: int, j: int| 0 <= i < j < given.len() implies #[trigger] h[i] < #[trigger] h[j] by {
            assert(h[i] == hs[i]);
            if j < n - 1 {
                assert(h[j] == hs[j]);
            } else {
                assert(cs[i + 1] <= c);
            }
        }
        assert forall|i: int| 0 <= i < given.len() implies counters[0] <= #[trigger] h[i] < boards[0].regions.len() by {
            if i < n - 1 {
                assert(h[i] == hs[i]);
            }
        }
        assert forall|i: int| 0 <= i < given.len() implies boards.last().regions[#[trigger] h[i]] == given[i] by {
            if i < n - 1 {
                assert(h[i] == hs[i]);
                assert(cs[i + 1] <= c);
                assert(bs.last().regions[hs[i]] == gs[i]);
            }
        }
        assert forall|j: int|
            0 <= j < boards[0].regions.len() && !h.contains(j) implies #[trigger] boards.last().regions[j]
            == boards[0].regions[j] by {
            if hs.contains(j) {
                let i = choose|i: int| 0 <= i < hs.len() && hs[i] == j;
                assert(h[i] == j);
            }
            if j == k {
                assert(h[n - 1] == k);
            }
            assert(bs.last().regions[j] == bs[0].regions[j]);
        }
    }
}

/// A whole walk of [`IterMut::next`] from a fresh iterator: calls that each
/// handed out a region, through the boards `boards` and the counters
/// `counters`, the caller leaving the `i`-th region handed out holding
/// `given[i]`, and then a call that returned `None` (its contract says that
/// one does exactly when no region the current player may touch is left).
/// The regions handed out are exactly those that [`Board::memory_region`]
/// gives on the board the walk started on, in increasing order of index and
/// each once; each holds what the caller left in it, and every other region
/// is as it was.
pub proof fn lemma_iter_mut_full_walk(boards: Seq<BoardView>, counters: Seq<int>, given: Seq<MemoryRegionView>)
    requires
        boards.len() == given.len() + 1,
        counters.len() == given.len() + 1,
        counters[0] == 0,
        boards[0].regions.len() <= usize::MAX,
        forall|i: int|
            0 <= i < given.len() ==> #[trigger] handed_out(
                boards[i],
                counters[i],
                given[i],
                boards[i + 1],
                counters[i + 1],
            ),
        next_readable(boards.last(), counters.last()) >= boards.last().regions.len(),
    ensures
        handed_indices(counters) == readable_from(boards[0], 0),
        forall|x: int|
            #[trigger] handed_indices(counters).contains(x) <==> (0 <= x < boards[0].regions.len()
                && spec_region_access(boards[0], x as usize) is Ok),
        forall|i: int, j: int|
            0 <= i < j < given.len() ==> #[trigger] handed_indices(counters)[i] < #[trigger] handed_indices(
                counters,
            )[j],
        forall|i: int|
            0 <= i < given.len() ==> boards.last().regions[#[trigger] handed_indices(counters)[i]] == given[i],
        forall|j: int|
            0 <= j < boards[0].regions.len() && !handed_indices(counters).contains(j) ==> #[trigger] boards.last().regions[j]
                == boards[0].regions[j],
        boards.last().regions.len() == boards[0].regions.len(),
        boards.last().readable == boards[0].readable,
        boards.last().owner == boards[0].owner,
        boards.last().card_index == boards[0].card_index,
{
    lemma_iter_mut_walk(boards, counters, given);
    lemma_walk(boards.last(), counters.last());
    lemma_walk(boards[0], 0);
    let h = handed_indices(counters);
    assert(h =~= readable_from(boards[0], 0));
    assert forall|x: int|
        #[trigger] h.contains(x) <==> (0 <= x < boards[0].regions.len() && spec_region_access(
            boards[0],
            x as usize,
        ) is Ok) by {
        if 0 <= x < boards[0].regions.len() {
            assert(x as usize as int == x);
        }
    }
}

/// The walk does not depend on what the regions hold, only on which of
/// them the current player may touch: handing out a region and changing it
/// leaves the rest of the walk as it was.
pub proof fn lemma_walk_ignores_contents(b1: BoardView, b2: BoardView, from: int)
    requires
        b1.regions.len() == b2.regions.len(),
        b1.readable == b2.readable,
    ensures
        readable_from(b1, from) == readable_from(b2, from),
        next_readable(b1, from) == next_readable(b2, from),
    decreases b1.regions.len() - from,
{
    if from < b1.regions.len() {
        lemma_walk_ignores_contents(b1, b2, from + 1);
    }
}

} // verus!
