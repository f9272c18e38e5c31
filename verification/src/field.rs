//! The playing field. Horizontal positions are whole pixels, rounded down, with
//! zero in the middle of the window; everything scrolls to the left, and the
//! borders below decide what happens to the things that cross them.

use vstd::prelude::*;

verus! {

/// Width of the window.
pub const WIDTH: u32 = 500;

/// How far inside the field's width an obstacle is taken away.
pub const DESPAWN_MARGIN: u32 = 100;

/// Width and height of the bird. An obstacle counts as passed once it lies
/// further left of the middle than this.
pub const SPRITE_SIZE: u32 = 100;

/// Width of one background picture: 6.8 times the window's.
pub const BACKGROUND_WIDTH: u32 = 68 * WIDTH / 10;

/// Where the picture that follows a used one is put.
pub const BACKGROUND_RESPAWN_X: u32 = BACKGROUND_WIDTH - 2;

/// The indices of the entries of `xs` that lie strictly left of `border`, in
/// rising order.
pub open spec fn left_of(xs: Seq<i64>, border: int) -> Seq<usize>
    decreases xs.len(),
{
    if xs.len() == 0 {
        Seq::empty()
    } else if xs.last() < border {
        left_of(xs.drop_last(), border).push((xs.len() - 1) as usize)
    } else {
        left_of(xs.drop_last(), border)
    }
}

/// `left_of` holds exactly the indices of the entries left of the border, each
/// once and in rising order.
pub proof fn lemma_left_of(xs: Seq<i64>, border: int)
    requires
        xs.len() <= usize::MAX,
    ensures
        left_of(xs, border).len() <= xs.len(),
        forall|k: int|
            0 <= k < left_of(xs, border).len() ==> {
                let i = #[trigger] left_of(xs, border)[k];
                i < xs.len() && xs[i as int] < border
            },
        forall|j: int, k: int|
            0 <= j < k < left_of(xs, border).len() ==> left_of(xs, border)[j] < left_of(
                xs,
                border,
            )[k],
        forall|i: int|
            0 <= i < xs.len() && #[trigger] xs[i] < border ==> left_of(xs, border).contains(
                i as usize,
            ),
    decreases xs.len(),
{
    if xs.len() > 0 {
        let front = xs.drop_last();
        let last = (xs.len() - 1) as usize;
        lemma_left_of(front, border);
        let sub = left_of(front, border);
        let all = left_of(xs, border);
        assert forall|i: int| 0 <= i < xs.len() && #[trigger] xs[i] < border implies all.contains(
            i as usize,
        ) by {
            if i < front.len() {
                assert(front[i] < border);
                let k = choose|k: int| 0 <= k < sub.len() && sub[k] == i as usize;
                assert(all[k] == i as usize);
            } else {
                assert(all[all.len() - 1] == last);
            }
        }
    }
}

/// Moving the border to the right loses nothing: what lies left of `near` lies
/// left of every border at or beyond it.
pub proof fn lemma_left_of_widens(xs: Seq<i64>, near: int, far: int)
    requires
        xs.len() <= usize::MAX,
        near <= far,
    ensures
        forall|k: int|
            0 <= k < left_of(xs, near).len() ==> left_of(xs, far).contains(
                #[trigger] left_of(xs, near)[k],
            ),
{
    lemma_left_of(xs, near);
    lemma_left_of(xs, far);
    assert forall|k: int| 0 <= k < left_of(xs, near).len() implies left_of(xs, far).contains(
        #[trigger] left_of(xs, near)[k],
    ) by {
        let i = left_of(xs, near)[k];
        assert(xs[i as int] < far);
    }
}

/// Collects the indices of the entries of `xs` that lie strictly left of
/// `border`, in rising order.
pub fn indices_left_of(xs: &Vec<i64>, border: i64) -> (out: Vec<usize>)
    ensures
        out@ == left_of(xs@, border as int),
{
    let mut out: Vec<usize> = Vec::new();
    let mut i: usize = 0;
    while i < xs.len()
        invariant
            i <= xs.len(),
            out@ == left_of(xs@.take(i as int), border as int),
        decreases xs.len() - i,
    {
        assert(xs@.take(i + 1).drop_last() == xs@.take(i as int));
        if xs[i] < border {
            out.push(i);
        }
        i += 1;
    }
    assert(xs@.take(xs.len() as int) == xs@);
    out
}

/// The border behind which an obstacle is taken away, on a field of the given
/// width: the margin short of a full width left of the middle.
pub open spec fn despawn_border(width: u32) -> int {
    -(width - DESPAWN_MARGIN)
}

/// Picks the obstacles to take away, among those at the positions `xs`: the
/// ones that have scrolled past the despawn border of a field of that width.
pub fn destroy_obstacles(xs: &Vec<i64>, width: u32) -> (gone: Vec<usize>)
    ensures
        gone@ == left_of(xs@, despawn_border(width)),
{
    let border: i64 = DESPAWN_MARGIN as i64 - width as i64;
    indices_left_of(xs, border)
}

/// Picks the background pictures that are used up, among those at the positions
/// `xs`: the ones that lie more than their own width left of the middle. Each
/// gives way to a new one at `BACKGROUND_RESPAWN_X`.
pub fn infinite_scroll(xs: &Vec<i64>) -> (used: Vec<usize>)
    ensures
        used@ == left_of(xs@, -(BACKGROUND_WIDTH as int)),
{
    let border: i64 = -(BACKGROUND_WIDTH as i64);
    indices_left_of(xs, border)
}

} // verus!
