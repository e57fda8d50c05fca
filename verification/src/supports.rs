//! The supports of the winners of an election, and their regrouping by voter.

use crate::elections::{ExtendedBalance, StakedAssignment};
use crate::vectors::copy_of;
use vstd::prelude::*;

verus! {

/// An identifier of voters and targets. Identifiers are totally ordered.
pub trait IdentifierT: Copy {
    /// The place of the identifier in the order of all identifiers.
    spec fn rank(self) -> int;

    /// Different identifiers have different places.
    proof fn rank_identifies(a: Self, b: Self)
        ensures
            a.rank() == b.rank() ==> a == b,
    ;

    /// Whether `self` comes before `other`.
    fn precedes(&self, other: &Self) -> (b: bool)
        ensures
            b == (self.rank() < other.rank()),
    ;
}

impl IdentifierT for u32 {
    open spec fn rank(self) -> int {
        self as int
    }

    proof fn rank_identifies(a: Self, b: Self) {
    }

    fn precedes(&self, other: &Self) -> (b: bool) {
        *self < *other
    }
}

impl IdentifierT for u64 {
    open spec fn rank(self) -> int {
        self as int
    }

    proof fn rank_identifies(a: Self, b: Self) {
    }

    fn precedes(&self, other: &Self) -> (b: bool) {
        *self < *other
    }
}

impl IdentifierT for u128 {
    open spec fn rank(self) -> int {
        self as int
    }

    proof fn rank_identifies(a: Self, b: Self) {
    }

    fn precedes(&self, other: &Self) -> (b: bool) {
        *self < *other
    }
}

/// The backing that a winner of an election has.
#[derive(Clone, PartialEq, Eq, Debug)]
pub struct Support<AccountId> {
    /// Total support.
    pub total: ExtendedBalance,
    /// The voters that back the winner, each with the amount it gives.
    pub voters: Vec<(AccountId, ExtendedBalance)>,
}

/// The winners of an election, each with its support.
pub type Supports<AccountId> = Vec<(AccountId, Support<AccountId>)>;

/// A voter's backing of one target.
pub struct Edge<AccountId> {
    pub voter: AccountId,
    pub target: AccountId,
    pub amount: ExtendedBalance,
}

/// The edges that lead to `target`, in the order of its voters.
pub open spec fn support_edges<AccountId>(
    target: AccountId,
    voters: Seq<(AccountId, ExtendedBalance)>,
) -> Seq<Edge<AccountId>> {
    voters.map_values(
        |v: (AccountId, ExtendedBalance)| Edge { voter: v.0, target: target, amount: v.1 },
    )
}

/// All edges of `supports`: those of the first winner first, each winner's edges in
/// the order of its voters.
pub open spec fn edges<AccountId>(supports: Seq<(AccountId, Support<AccountId>)>) -> Seq<
    Edge<AccountId>,
>
    decreases supports.len(),
{
    if supports.len() == 0 {
        Seq::empty()
    } else {
        edges(supports.drop_last()) + support_edges(
            supports.last().0,
            supports.last().1.voters@,
        )
    }
}

/// The targets that `who` backs among `edges`, with the amounts, in the order of the
/// edges.
pub open spec fn votes_of<AccountId>(edges: Seq<Edge<AccountId>>, who: AccountId) -> Seq<
    (AccountId, ExtendedBalance),
>
    decreases edges.len(),
{
    if edges.len() == 0 {
        Seq::empty()
    } else if edges.last().voter == who {
        votes_of(edges.drop_last(), who).push((edges.last().target, edges.last().amount))
    } else {
        votes_of(edges.drop_last(), who)
    }
}

/// Whether `staked` groups `edges` by voter: the voters come in ascending order, each
/// once; each has all of its edges, in their order; and every voter of an edge is
/// there.
pub open spec fn grouped<AccountId: IdentifierT>(
    staked: Seq<StakedAssignment<AccountId>>,
    edges: Seq<Edge<AccountId>>,
) -> bool {
    &&& forall|i: int, j: int|
        0 <= i < j < staked.len() ==> (#[trigger] staked[i]).who.rank() < (
        #[trigger] staked[j]).who.rank()
    &&& forall|i: int|
        0 <= i < staked.len() ==> (#[trigger] staked[i]).distribution@.len() > 0
            && staked[i].distribution@ == votes_of(edges, staked[i].who)
    &&& forall|k: int|
        0 <= k < edges.len() ==> exists|i: int|
            0 <= i < staked.len() && (#[trigger] staked[i]).who == (#[trigger] edges[k]).voter
}

/// A voter without an edge has no votes.
proof fn no_edge_no_votes<AccountId>(edges: Seq<Edge<AccountId>>, who: AccountId)
    requires
        forall|k: int| 0 <= k < edges.len() ==> (#[trigger] edges[k]).voter != who,
    ensures
        votes_of(edges, who) == Seq::<(AccountId, ExtendedBalance)>::empty(),
    decreases edges.len(),
{
    if edges.len() > 0 {
        let rest = edges.drop_last();
        assert forall|k: int| 0 <= k < rest.len() implies (#[trigger] rest[k]).voter != who by {
            assert(rest[k] == edges[k]);
        }
        no_edge_no_votes(rest, who);
        assert(edges.last() == edges[edges.len() - 1]);
    }
}

/// Adds the edge from `voter` to `target` to the grouping of the edges `done`.
fn add_edge<AccountId: IdentifierT>(
    staked: &mut Vec<StakedAssignment<AccountId>>,
    voter: AccountId,
    target: AccountId,
    amount: ExtendedBalance,
    Ghost(done): Ghost<Seq<Edge<AccountId>>>,
)
    requires
        grouped(old(staked)@, done),
    ensures
        grouped(final(staked)@, done.push(Edge { voter, target, amount })),
{
    let ghost edge = Edge { voter, target, amount };
    let ghost all = done.push(edge);
    let ghost before = staked@;
    assert(all.drop_last() =~= done);
    assert(all.last() == edge);
    let mut pos: usize = 0;
    while pos < staked.len() && staked[pos].who.precedes(&voter)
        invariant
            0 <= pos <= staked@.len(),
            staked@ == before,
            forall|i: int| 0 <= i < pos ==> (#[trigger] staked@[i]).who.rank() < voter.rank(),
        decreases staked@.len() - pos,
    {
        pos = pos + 1;
    }
    if pos < staked.len() && !voter.precedes(&staked[pos].who) {
        proof {
            AccountId::rank_identifies(staked@[pos as int].who, voter);
        }
        let mut distribution = copy_of(&staked[pos].distribution);
        distribution.push((target, amount));
        staked.set(pos, StakedAssignment { who: voter, distribution });
        proof {
            let after = staked@;
            assert forall|i: int| 0 <= i < after.len() implies (#[trigger] after[i]).who
                == before[i].who by {}
            assert forall|i: int| 0 <= i < after.len() implies (
            #[trigger] after[i]).distribution@.len() > 0 && after[i].distribution@ == votes_of(
                all,
                after[i].who,
            ) by {
                if i != pos {
                    assert(after[i] == before[i]);
                    assert(before[i].who.rank() != before[pos as int].who.rank());
                }
            }
            assert forall|k: int| 0 <= k < all.len() implies exists|i: int|
                0 <= i < after.len() && (#[trigger] after[i]).who == (#[trigger] all[k]).voter by {
                if k < done.len() {
                    assert(all[k] == done[k]);
                    let i = choose|i: int|
                        0 <= i < before.len() && (#[trigger] before[i]).who == done[k].voter;
                    assert(after[i].who == all[k].voter);
                } else {
                    assert(after[pos as int].who == all[k].voter);
                }
            }
        }
    } else {
        let mut distribution: Vec<(AccountId, ExtendedBalance)> = Vec::new();
        distribution.push((target, amount));
        staked.insert(pos, StakedAssignment { who: voter, distribution });
        proof {
            let after = staked@;
            assert(after.len() == before.len() + 1);
            assert forall|i: int| 0 <= i < pos implies #[trigger] after[i] == before[i] by {}
            assert forall|i: int| pos < i < after.len() implies #[trigger] after[i] == before[i
                - 1] by {}
            assert forall|i: int| pos <= i < before.len() implies voter.rank() < (
            #[trigger] before[i]).who.rank() by {
                if i > pos {
                    assert(before[pos as int].who.rank() < before[i].who.rank());
                }
            }
            assert forall|k: int| 0 <= k < done.len() implies (#[trigger] done[k]).voter
                != voter by {
                let i = choose|i: int|
                    0 <= i < before.len() && (#[trigger] before[i]).who == done[k].voter;
                if i < pos {
                    assert(before[i].who.rank() < voter.rank());
                } else {
                    assert(voter.rank() < before[i].who.rank());
                }
            }
            no_edge_no_votes(done, voter);
            assert(after[pos as int].distribution@ =~= votes_of(all, voter));
            assert forall|i: int, j: int| 0 <= i < j < after.len() implies (
            #[trigger] after[i]).who.rank() < (#[trigger] after[j]).who.rank() by {
                if i < pos && j > pos {
                    assert(before[i].who.rank() < voter.rank());
                    assert(voter.rank() < before[j - 1].who.rank());
                } else if i < pos && j < pos {
                    assert(before[i].who.rank() < before[j].who.rank());
                } else if i > pos {
                    assert(before[i - 1].who.rank() < before[j - 1].who.rank());
                } else if i == pos {
                    assert(voter.rank() < before[j - 1].who.rank());
                } else {
                    assert(before[i].who.rank() < voter.rank());
                }
            }
            assert forall|i: int| 0 <= i < after.len() implies (
            #[trigger] after[i]).distribution@.len() > 0 && after[i].distribution@ == votes_of(
                all,
                after[i].who,
            ) by {
                if i < pos {
                    assert(before[i].who.rank() < voter.rank());
                    assert(before[i].distribution@ == votes_of(done, before[i].who));
                } else if i > pos {
                    assert(voter.rank() < before[i - 1].who.rank());
                    assert(before[i - 1].distribution@ == votes_of(done, before[i - 1].who));
                }
            }
            assert forall|k: int| 0 <= k < all.len() implies exists|i: int|
                0 <= i < after.len() && (#[trigger] after[i]).who == (#[trigger] all[k]).voter by {
                if k < done.len() {
                    assert(all[k] == done[k]);
                    let i = choose|i: int|
                        0 <= i < before.len() && (#[trigger] before[i]).who == done[k].voter;
                    if i < pos {
                        assert(after[i].who == all[k].voter);
                    } else {
                        assert(after[i + 1] == before[i]);
                        assert(after[i + 1].who == all[k].voter);
                    }
                } else {
                    assert(after[pos as int].who == all[k].voter);
                }
            }
        }
    }
}

/// Converts the supports of the winners into the staked assignments of the voters:
/// one assignment for each voter, in ascending order of the voters, with the targets
/// that the voter backs in the order of `supports`.
pub fn supports_to_staked_assignment<AccountId: IdentifierT>(
    supports: Supports<AccountId>,
) -> (staked: Vec<StakedAssignment<AccountId>>)
    ensures
        grouped(staked@, edges(supports@)),
{
    let mut staked: Vec<StakedAssignment<AccountId>> = Vec::new();
    let ghost mut done: Seq<Edge<AccountId>> = Seq::empty();
    let mut s: usize = 0;
    while s < supports.len()
        invariant
            0 <= s <= supports@.len(),
            grouped(staked@, done),
            done == edges(supports@.take(s as int)),
        decreases supports@.len() - s,
    {
        let target = supports[s].0;
        let ghost start = done;
        let mut p: usize = 0;
        while p < supports[s].1.voters.len()
            invariant
                0 <= s < supports@.len(),
                0 <= p <= supports@[s as int].1.voters@.len(),
                target == supports@[s as int].0,
                grouped(staked@, done),
                done == start + support_edges(target, supports@[s as int].1.voters@).take(
                    p as int,
                ),
            decreases supports@[s as int].1.voters@.len() - p,
        {
            let (voter, amount) = supports[s].1.voters[p];
            add_edge(&mut staked, voter, target, amount, Ghost(done));
            proof {
                let all = support_edges(target, supports@[s as int].1.voters@);
                assert(all.take(p + 1) =~= all.take(p as int).push(all[p as int]));
                assert(start + all.take(p + 1) =~= (start + all.take(p as int)).push(
                    all[p as int],
                ));
                done = done.push(Edge { voter, target, amount });
            }
            p = p + 1;
        }
        proof {
            let all = support_edges(target, supports@[s as int].1.voters@);
            assert(all.take(p as int) =~= all);
            assert(supports@.take(s + 1).drop_last() =~= supports@.take(s as int));
            assert(supports@.take(s + 1).last() == supports@[s as int]);
        }
        s = s + 1;
    }
    assert(supports@.take(s as int) =~= supports@);
    staked
}

} // verus!
