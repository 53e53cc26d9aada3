//! What a depth-limited minimax search of the game reports, and what holds of
//! its report.

use vstd::prelude::*;
use crate::position::Position;

verus! {

/// Whether a score found later replaces the best one so far: only a strictly
/// greater one does where the greatest is sought, only a strictly smaller one
/// where the smallest is.
pub open spec fn improves(is_max: bool, later: int, best: int) -> bool {
    if is_max {
        later > best
    } else {
        later < best
    }
}

/// What the search reports of a position that was reached by marking `space`:
/// a space and a score. Where no depth is left or the game is over, these are
/// `space` itself and the score of the position. Otherwise they are the space
/// and the score of the best reply, each reply being searched one level less
/// deep and with the opposite aim.
pub open spec fn search(p: Position, space: int, depth: nat, is_max: bool) -> (int, int)
    decreases depth, 0nat, 0nat,
{
    if depth == 0 || p.state() > -1 {
        (space, p.score())
    } else {
        best_reply(p, (depth - 1) as nat, is_max, p.open_spaces().len())
    }
}

/// The score of the reply to `p` that marks its `k`-th empty space: what the
/// search, `depth` levels deep and with the opposite aim, reports as the
/// score of the position after that mark.
pub open spec fn reply_score(p: Position, depth: nat, is_max: bool, k: int) -> int
    decreases depth, 0nat, 1nat,
{
    let space = p.open_spaces()[k] as int;
    search(p.place(space), space, depth, !is_max).1
}

/// The best of the first `n` replies to `p`: the space that it marks and its
/// score. The replies are taken in ascending order of their space, and a
/// later one replaces the best so far only if its score improves on it. With
/// no reply at all the score is the least, or the greatest, that `isize` has,
/// and the space is 0.
pub open spec fn best_reply(p: Position, depth: nat, is_max: bool, n: nat) -> (int, int)
    decreases depth, 1nat, n,
{
    if n == 0 {
        (0, if is_max { isize::MIN as int } else { isize::MAX as int })
    } else {
        let best = best_reply(p, depth, is_max, (n - 1) as nat);
        let later = reply_score(p, depth, is_max, n - 1);
        if improves(is_max, later, best.1) {
            (p.open_spaces()[n - 1] as int, later)
        } else {
            best
        }
    }
}

/// Whether the `k`-th reply is the best of the first `n`: the best has its
/// space and its score, and no earlier reply has that score.
pub open spec fn is_first_best(p: Position, depth: nat, is_max: bool, n: nat, k: int) -> bool {
    &&& 0 <= k < n
    &&& best_reply(p, depth, is_max, n) == (
        p.open_spaces()[k] as int,
        reply_score(p, depth, is_max, k),
    )
    &&& forall|j: int|
        0 <= j < k ==> #[trigger] reply_score(p, depth, is_max, j) != best_reply(
            p,
            depth,
            is_max,
            n,
        ).1
}

/// The score that a search reports is never beyond that of a won game.
pub proof fn lemma_search_score_bounds(p: Position, space: int, depth: nat, is_max: bool)
    requires
        p.wf(),
    ensures
        -1_000_000 <= search(p, space, depth, is_max).1 <= 1_000_000,
    decreases depth, 0nat, 0nat,
{
    p.lemma_state_is_one_of_four();
    if depth > 0 && p.state() == -1 {
        p.lemma_not_full_has_open_space();
        lemma_best_reply_score_bounds(p, (depth - 1) as nat, is_max, p.open_spaces().len());
    }
}

/// The score of a reply is never beyond that of a won game.
pub proof fn lemma_reply_score_bounds(p: Position, depth: nat, is_max: bool, k: int)
    requires
        p.wf(),
        0 <= k < p.open_spaces().len(),
    ensures
        -1_000_000 <= reply_score(p, depth, is_max, k) <= 1_000_000,
    decreases depth, 0nat, 1nat,
{
    p.lemma_open_spaces();
    let space = p.open_spaces()[k] as int;
    p.lemma_place_keeps_wf(space);
    lemma_search_score_bounds(p.place(space), space, depth, !is_max);
}

/// The score of the best of one or more replies is never beyond that of a
/// won game.
pub proof fn lemma_best_reply_score_bounds(p: Position, depth: nat, is_max: bool, n: nat)
    requires
        p.wf(),
        1 <= n <= p.open_spaces().len(),
    ensures
        -1_000_000 <= best_reply(p, depth, is_max, n).1 <= 1_000_000,
    decreases depth, 1nat, n,
{
    lemma_reply_score_bounds(p, depth, is_max, n - 1);
    if n > 1 {
        lemma_best_reply_score_bounds(p, depth, is_max, (n - 1) as nat);
    } else {
        // the first reply improves on the score that stands for no reply
        assert(best_reply(p, depth, is_max, 0).1 == if is_max {
            isize::MIN as int
        } else {
            isize::MAX as int
        });
    }
}

/// Among the first `n` replies none improves on the best, and the best is
/// the earliest reply with its score: the best has the space and the score
/// of that reply.
pub proof fn lemma_best_reply_is_first_best(p: Position, depth: nat, is_max: bool, n: nat)
    requires
        p.wf(),
        1 <= n <= p.open_spaces().len(),
    ensures
        forall|k: int|
            0 <= k < n ==> !improves(
                is_max,
                #[trigger] reply_score(p, depth, is_max, k),
                best_reply(p, depth, is_max, n).1,
            ),
        exists|k: int| #[trigger] is_first_best(p, depth, is_max, n, k),
    decreases n,
{
    lemma_reply_score_bounds(p, depth, is_max, n - 1);
    let later = reply_score(p, depth, is_max, n - 1);
    let shorter = best_reply(p, depth, is_max, (n - 1) as nat);
    if n > 1 {
        lemma_best_reply_is_first_best(p, depth, is_max, (n - 1) as nat);
        if improves(is_max, later, shorter.1) {
            assert(is_first_best(p, depth, is_max, n, n - 1));
        } else {
            let fewer = (n - 1) as nat;
            let k = choose|k: int| #[trigger] is_first_best(p, depth, is_max, fewer, k);
            assert(is_first_best(p, depth, is_max, n, k));
        }
    } else {
        assert(shorter.1 == if is_max {
            isize::MIN as int
        } else {
            isize::MAX as int
        });
        assert(is_first_best(p, depth, is_max, n, 0));
    }
}

/// Where the game is in progress and the search has depth left, it reports
/// the greatest score among the replies if it seeks the greatest, the
/// smallest if it seeks the smallest, and the space that the earliest reply
/// with that score marks.
pub proof fn lemma_search_takes_first_best(p: Position, space: int, depth: nat, is_max: bool)
    requires
        p.wf(),
        p.state() == -1,
        depth > 0,
    ensures
        p.open_spaces().len() > 0,
        forall|k: int|
            0 <= k < p.open_spaces().len() ==> !improves(
                is_max,
                #[trigger] reply_score(p, (depth - 1) as nat, is_max, k),
                search(p, space, depth, is_max).1,
            ),
        exists|k: int|
            0 <= k < p.open_spaces().len() && search(p, space, depth, is_max) == (
                p.open_spaces()[k] as int,
                #[trigger] reply_score(p, (depth - 1) as nat, is_max, k),
            ) && forall|j: int|
                0 <= j < k ==> #[trigger] reply_score(p, (depth - 1) as nat, is_max, j) != search(
                    p,
                    space,
                    depth,
                    is_max,
                ).1,
{
    p.lemma_not_full_has_open_space();
    let n = p.open_spaces().len();
    let below = (depth - 1) as nat;
    lemma_best_reply_is_first_best(p, below, is_max, n);
    let k = choose|k: int| #[trigger] is_first_best(p, below, is_max, n, k);
    assert(search(p, space, depth, is_max) == (
        p.open_spaces()[k] as int,
        reply_score(p, below, is_max, k),
    ));
}

/// The space that a search reports is the one that led to the position where
/// no depth is left or the game is over. Otherwise it is an empty space of
/// the position.
pub proof fn lemma_search_reports_free_space(p: Position, space: int, depth: nat, is_max: bool)
    requires
        p.wf(),
    ensures
        depth == 0 || p.state() > -1 ==> search(p, space, depth, is_max).0 == space,
        depth > 0 && p.state() == -1 ==> p.free(search(p, space, depth, is_max).0),
{
    if depth > 0 && p.state() == -1 {
        lemma_search_takes_first_best(p, space, depth, is_max);
        p.lemma_open_spaces();
    }
}

/// Where a player who seeks the greatest score can end the game at once with
/// a win of player 2, the search reports the score of that win.
pub proof fn lemma_search_scores_a_win_at_hand(p: Position, space: int, depth: nat, k: int)
    requires
        p.wf(),
        p.state() == -1,
        depth > 0,
        0 <= k < p.open_spaces().len(),
        p.place(p.open_spaces()[k] as int).state() == 2,
    ensures
        search(p, space, depth, true).1 == 1_000_000,
{
    lemma_search_takes_first_best(p, space, depth, true);
    lemma_search_score_bounds(p, space, depth, true);
    assert(reply_score(p, (depth - 1) as nat, true, k) == 1_000_000);
}

/// Where a player who seeks the greatest score can end the game at once with
/// a win of player 2, and no earlier reply reaches the score of a win, the
/// search reports the space of that win.
pub proof fn lemma_search_takes_a_win_at_hand(p: Position, space: int, depth: nat, k: int)
    requires
        p.wf(),
        p.state() == -1,
        depth > 0,
        0 <= k < p.open_spaces().len(),
        p.place(p.open_spaces()[k] as int).state() == 2,
        forall|j: int|
            0 <= j < k ==> #[trigger] reply_score(p, (depth - 1) as nat, true, j) != 1_000_000,
    ensures
        search(p, space, depth, true) == (p.open_spaces()[k] as int, 1_000_000int),
{
    lemma_search_takes_first_best(p, space, depth, true);
    lemma_search_scores_a_win_at_hand(p, space, depth, k);
    assert(reply_score(p, (depth - 1) as nat, true, k) == 1_000_000);
}

} // verus!
