//! The capsule hand-off protocol: how a triple travels through a
//! host-managed opaque capsule, and the rule set that makes its release fire
//! at most once even though the capsule can be dropped or claimed out of
//! order.
//!
//! A capsule starts out tagged as active; its producer-side destructor is
//! then the sole remaining owner and must release the triple. A consumer
//! claims the capsule by taking the triple out and renaming the tag, after
//! which the destructor does nothing and the consumer alone is responsible
//! for the release. There is no transition back: a claim on an already
//! claimed capsule fails with an error instead of aliasing the triple.

use vstd::prelude::*;

use crate::error::Error;
use crate::tensor::ManagedTriple;

verus! {

/// The two states of a capsule's tag.
#[derive(Clone, Copy, Debug, PartialEq, Eq, Structural)]
pub enum CapsuleTag {
    /// The producer's destructor is the sole remaining owner and will
    /// release the triple when the capsule dies.
    Active,
    /// A consumer has taken the triple; the producer's destructor must do
    /// nothing.
    Claimed,
}

/// The tag state after a claim attempt: claiming an active capsule marks it
/// claimed, and a claimed capsule stays claimed forever.
pub open spec fn claim_transition(tag: CapsuleTag) -> CapsuleTag {
    match tag {
        CapsuleTag::Active => CapsuleTag::Claimed,
        CapsuleTag::Claimed => CapsuleTag::Claimed,
    }
}

/// A claim attempt succeeds exactly when the capsule is still active.
pub open spec fn claim_succeeds(tag: CapsuleTag) -> bool {
    tag is Active
}

/// The well-known name carried by a capsule that has not been claimed yet.
/// All interoperating implementations must use exactly this name.
pub fn active_tag_name() -> (r: &'static str)
    ensures
        r@ == "dltensor"@,
{
    "dltensor"
}

/// The well-known name a consumer renames the capsule to upon claiming it,
/// so that the producer-side destructor will not release the triple.
pub fn claimed_tag_name() -> (r: &'static str)
    ensures
        r@ == "used_dltensor"@,
{
    "used_dltensor"
}

/// The wire name of a tag state.
pub fn tag_name(tag: CapsuleTag) -> (r: &'static str)
    ensures
        tag is Active ==> r@ == "dltensor"@,
        tag is Claimed ==> r@ == "used_dltensor"@,
{
    match tag {
        CapsuleTag::Active => "dltensor",
        CapsuleTag::Claimed => "used_dltensor",
    }
}

/// What the producer-side capsule destructor must do, given what the host
/// reports: nothing for a claimed capsule (the consumer owns the release);
/// a report through the host's unraisable-error channel when the capsule
/// carries the active tag but hands back no triple; otherwise it is the
/// sole remaining owner and must release. Any in-flight host error state is
/// saved around the whole operation and restored afterwards.
#[derive(Clone, Copy, Debug, PartialEq, Eq, Structural)]
pub enum DeleterAction {
    /// The capsule was claimed; ownership moved to the consumer.
    Ignore,
    /// The capsule is unclaimed but its pointer could not be read back;
    /// surface the failure without raising.
    ReportUnraisable,
    /// The destructor is the sole owner: run the triple's release.
    Release,
}

/// Decide the producer-side destructor's action from what the host object
/// system reports about the dying capsule.
pub fn deleter_action(claimed: bool, pointer_is_null: bool) -> (r: DeleterAction)
    ensures
        claimed ==> r is Ignore,
        !claimed && pointer_is_null ==> r is ReportUnraisable,
        !claimed && !pointer_is_null ==> r is Release,
{
    if claimed {
        DeleterAction::Ignore
    } else if pointer_is_null {
        DeleterAction::ReportUnraisable
    } else {
        DeleterAction::Release
    }
}

/// A host-managed opaque capsule wrapping one triple: a two-state tagged
/// handle. While the tag is active the capsule still holds the triple;
/// once claimed, the triple is gone and can never be handed out again.
#[derive(Debug)]
pub struct Capsule<T> {
    tag: CapsuleTag,
    triple: Option<ManagedTriple<T>>,
}

impl<T> Capsule<T> {
    /// The capsule's current tag.
    pub closed spec fn spec_tag(&self) -> CapsuleTag {
        self.tag
    }

    /// The triple still held, if any.
    pub closed spec fn spec_triple(&self) -> Option<ManagedTriple<T>> {
        self.triple
    }

    /// A capsule holds its triple exactly as long as it is active.
    pub open spec fn wf(&self) -> bool {
        (self.spec_tag() is Active) == (self.spec_triple() is Some)
    }

    /// Producer side: wrap a triple in a fresh capsule carrying the active
    /// tag. Until someone claims it, the capsule itself is the sole owner
    /// and its destructor will release the triple.
    pub fn new(triple: ManagedTriple<T>) -> (r: Self)
        ensures
            r.wf(),
            r.spec_tag() is Active,
            r.spec_triple() == Some(triple),
    {
        Capsule { tag: CapsuleTag::Active, triple: Some(triple) }
    }

    /// The capsule's current tag.
    pub fn tag(&self) -> (r: CapsuleTag)
        ensures
            r == self.spec_tag(),
    {
        self.tag
    }

    /// The wire name the capsule currently carries.
    pub fn name(&self) -> (r: &'static str)
        ensures
            self.spec_tag() is Active ==> r@ == "dltensor"@,
            self.spec_tag() is Claimed ==> r@ == "used_dltensor"@,
    {
        tag_name(self.tag)
    }

    /// Consumer side: claim the capsule. On an active capsule this takes
    /// the triple out and renames the tag to claimed, so the producer-side
    /// destructor becomes a no-op and the caller is now solely responsible
    /// for the release. On a capsule already claimed it fails with a tag
    /// mismatch and changes nothing; the triple is never handed out twice.
    pub fn claim(&mut self) -> (r: Result<ManagedTriple<T>, Error>)
        requires
            old(self).wf(),
        ensures
            final(self).wf(),
            final(self).spec_tag() == claim_transition(old(self).spec_tag()),
            final(self).spec_triple() is None,
            claim_succeeds(old(self).spec_tag())
                ==> (r matches Ok(t) && Some(t) == old(self).spec_triple()),
            !claim_succeeds(old(self).spec_tag())
                ==> r == Err::<ManagedTriple<T>, Error>(Error::CapsuleTagMismatch)
                    && *final(self) == *old(self),
    {
        match self.tag {
            CapsuleTag::Active => {
                self.tag = CapsuleTag::Claimed;
                let triple = self.triple.take();
                match triple {
                    Some(t) => Ok(t),
                    None => {
                        proof {
                            assert(false);
                        }
                        Err(Error::CapsuleTagMismatch)
                    }
                }
            }
            CapsuleTag::Claimed => Err(Error::CapsuleTagMismatch),
        }
    }

    /// Host side: the capsule dies. If it is still active, the destructor
    /// is the sole remaining owner and the triple comes back out to be
    /// released — dropping it runs the release exactly once. If it was
    /// claimed, nothing is returned and nothing is released here, because
    /// the consumer took the triple and owns its release.
    pub fn finalize(self) -> (r: Option<ManagedTriple<T>>)
        requires
            self.wf(),
        ensures
            self.spec_tag() is Active ==> r == self.spec_triple() && r is Some,
            self.spec_tag() is Claimed ==> r is None,
    {
        self.triple
    }
}

/// How many attempts in a run of tag states would succeed: an attempt made
/// while the tag is active succeeds, one made while it is claimed fails.
pub open spec fn count_claim_successes(states: Seq<CapsuleTag>) -> int
    decreases states.len(),
{
    if states.len() == 0 {
        0
    } else {
        (if claim_succeeds(states[0]) { 1int } else { 0int })
            + count_claim_successes(states.drop_first())
    }
}

/// Once a capsule is claimed it stays claimed, so no attempt in a run that
/// starts from the claimed state ever succeeds.
pub proof fn lemma_claimed_is_absorbing(states: Seq<CapsuleTag>)
    requires
        states.len() > 0,
        states[0] is Claimed,
        forall|i: int| 0 <= i < states.len() - 1
            ==> states[i + 1] == claim_transition(#[trigger] states[i]),
    ensures
        count_claim_successes(states) == 0,
    decreases states.len(),
{
    let rest = states.drop_first();
    assert(count_claim_successes(states) == 0 + count_claim_successes(rest));
    if rest.len() > 0 {
        assert(rest[0] == states[1]);
        assert(states[1] == claim_transition(states[0]));
        assert forall|i: int| 0 <= i < rest.len() - 1
            implies rest[i + 1] == claim_transition(#[trigger] rest[i]) by {
            assert(rest[i] == states[i + 1]);
            assert(rest[i + 1] == states[i + 2]);
        }
        lemma_claimed_is_absorbing(rest);
    } else {
        assert(rest.len() == 0);
        assert(count_claim_successes(rest) == 0);
    }
}

/// Release-once: however many claims are attempted on one capsule, at most
/// one of them succeeds. The runs quantified over are exactly those the
/// protocol can produce: each claim attempt moves the tag by
/// `claim_transition`.
pub proof fn lemma_claims_succeed_at_most_once(states: Seq<CapsuleTag>)
    requires
        forall|i: int| 0 <= i < states.len() - 1
            ==> states[i + 1] == claim_transition(#[trigger] states[i]),
    ensures
        count_claim_successes(states) <= 1,
{
    if states.len() == 0 {
        assert(count_claim_successes(states) == 0);
    } else if states[0] is Claimed {
        lemma_claimed_is_absorbing(states);
    } else {
        let rest = states.drop_first();
        assert(count_claim_successes(states) == 1 + count_claim_successes(rest));
        if rest.len() > 0 {
            assert(rest[0] == states[1]);
            assert(states[1] == claim_transition(states[0]));
            assert(rest[0] is Claimed);
            assert forall|i: int| 0 <= i < rest.len() - 1
                implies rest[i + 1] == claim_transition(#[trigger] rest[i]) by {
                assert(rest[i] == states[i + 1]);
                assert(rest[i + 1] == states[i + 2]);
            }
            lemma_claimed_is_absorbing(rest);
        } else {
            assert(rest.len() == 0);
            assert(count_claim_successes(rest) == 0);
        }
    }
}

} // verus!
