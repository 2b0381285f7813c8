use vstd::prelude::*;

use crate::key::Key;
use crate::state::MoaiError;

verus! {

/// The entry a caller presents as the current leader, with its stored vote count.
#[derive(Clone, Copy, Debug, PartialEq, Eq)]
pub struct MemeRef {
    pub key: Key,
    pub vote: u64,
}

/// The leader after an entry `candidate` has reached `candidate_vote` votes.
///
/// With no leader yet the candidate leads. Otherwise the caller must present
/// the live leader; the candidate takes over when the leader's count is not
/// above its own, so ties go to the candidate.
pub open spec fn top_vote_outcome(
    current: Option<Key>,
    candidate: Key,
    candidate_vote: u64,
    presented: Option<MemeRef>,
) -> Result<Key, MoaiError> {
    match current {
        None => Ok(candidate),
        Some(leader) => match presented {
            None => Err(MoaiError::TopVoteNotProvided),
            Some(p) => if p.key != leader {
                Err(MoaiError::TopVoteNotProvided)
            } else if p.vote <= candidate_vote {
                Ok(candidate)
            } else {
                Ok(leader)
            },
        },
    }
}

/// Decides which entry leads once `candidate` has `candidate_vote` votes.
pub fn next_top_vote(
    current: Option<Key>,
    candidate: Key,
    candidate_vote: u64,
    presented: Option<MemeRef>,
) -> (r: Result<Key, MoaiError>)
    ensures
        r == top_vote_outcome(current, candidate, candidate_vote, presented),
{
    match current {
        None => Ok(candidate),
        Some(leader) => match presented {
            None => Err(MoaiError::TopVoteNotProvided),
            Some(p) => {
                if !p.key.same(&leader) {
                    Err(MoaiError::TopVoteNotProvided)
                } else if p.vote <= candidate_vote {
                    Ok(candidate)
                } else {
                    Ok(leader)
                }
            },
        },
    }
}

/// Whenever the tracker accepts, the entry left leading has at least as many
/// votes as each entry it was compared with. With no leader the candidate
/// leads; otherwise either the candidate leads with no fewer votes than the
/// presented leader, or the presented leader stays with more votes than the
/// candidate. Entries never compared are not covered.
pub proof fn lemma_leader_dominates_compared(
    current: Option<Key>,
    candidate: Key,
    candidate_vote: u64,
    presented: Option<MemeRef>,
)
    requires
        top_vote_outcome(current, candidate, candidate_vote, presented) is Ok,
    ensures
        ({
            let leader = top_vote_outcome(current, candidate, candidate_vote, presented)->Ok_0;
            &&& current is None ==> leader == candidate
            &&& current is Some ==> {
                let p = presented->Some_0;
                &&& presented is Some
                &&& Some(p.key) == current
                &&& (leader == candidate && p.vote <= candidate_vote) || (leader == p.key
                    && p.vote > candidate_vote)
            }
        }),
{
}

} // verus!
