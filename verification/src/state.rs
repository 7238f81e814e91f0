use crate::pubkey::Pubkey;
use vstd::prelude::*;

verus! {

/// The eight trait slots of a collectible.
#[derive(Clone, Copy, Debug, PartialEq, Eq, Structural)]
pub struct Traits {
    pub background: u8,
    pub body: u8,
    pub clothes: u8,
    pub head: u8,
    pub insidehead: u8,
    pub eyes: u8,
    pub mouths: u8,
    pub hats: u8,
}

/// The record kept for one collectible: its trait slots and the bump seed it
/// was opened with.
#[derive(Clone, Copy, Debug, PartialEq, Eq, Structural)]
pub struct CommitState {
    pub background: u8,
    pub body: u8,
    pub clothes: u8,
    pub head: u8,
    pub insidehead: u8,
    pub eyes: u8,
    pub mouths: u8,
    pub hats: u8,
    pub bump: u8,
}

/// The shared record that pays the service fee and names the trusted creator.
#[derive(Clone, Copy, Debug, PartialEq, Eq)]
pub struct Bank {
    pub bump: u8,
    pub creator_key: Pubkey,
}

/// What is stored at an address.
#[derive(Clone, Copy, Debug, PartialEq, Eq)]
pub enum Record {
    /// Nothing: the address is vacant or a plain wallet.
    Empty,
    Bank(Bank),
    Commit(CommitState),
}

impl CommitState {
    /// The record with the given bump seed and trait slots.
    pub open spec fn with(bump: u8, traits: Traits) -> CommitState {
        CommitState {
            background: traits.background,
            body: traits.body,
            clothes: traits.clothes,
            head: traits.head,
            insidehead: traits.insidehead,
            eyes: traits.eyes,
            mouths: traits.mouths,
            hats: traits.hats,
            bump,
        }
    }

    /// The trait slots of the record.
    pub open spec fn traits_spec(&self) -> Traits {
        Traits {
            background: self.background,
            body: self.body,
            clothes: self.clothes,
            head: self.head,
            insidehead: self.insidehead,
            eyes: self.eyes,
            mouths: self.mouths,
            hats: self.hats,
        }
    }

    /// Builds the record with the given bump seed and trait slots.
    pub fn new(bump: u8, traits: Traits) -> (state: CommitState)
        ensures
            state == CommitState::with(bump, traits),
    {
        CommitState {
            background: traits.background,
            body: traits.body,
            clothes: traits.clothes,
            head: traits.head,
            insidehead: traits.insidehead,
            eyes: traits.eyes,
            mouths: traits.mouths,
            hats: traits.hats,
            bump,
        }
    }

    /// Reads the trait slots of the record.
    #[verifier::when_used_as_spec(traits_spec)]
    pub fn traits(&self) -> (traits: Traits)
        ensures
            traits == self.traits_spec(),
    {
        Traits {
            background: self.background,
            body: self.body,
            clothes: self.clothes,
            head: self.head,
            insidehead: self.insidehead,
            eyes: self.eyes,
            mouths: self.mouths,
            hats: self.hats,
        }
    }

    /// Writing trait slots and reading them back gives what was written, and
    /// the bump seed is kept.
    pub proof fn lemma_with_traits(bump: u8, traits: Traits)
        ensures
            CommitState::with(bump, traits).traits() == traits,
            CommitState::with(bump, traits).bump == bump,
    {
    }
}

impl Default for CommitState {
    /// The record with every slot and the bump seed zero.
    fn default() -> (state: CommitState)
        ensures
            state == CommitState::with(
                0,
                (Traits {
                    background: 0,
                    body: 0,
                    clothes: 0,
                    head: 0,
                    insidehead: 0,
                    eyes: 0,
                    mouths: 0,
                    hats: 0,
                }),
            ),
    {
        CommitState {
            background: 0,
            body: 0,
            clothes: 0,
            head: 0,
            insidehead: 0,
            eyes: 0,
            mouths: 0,
            hats: 0,
            bump: 0,
        }
    }
}

impl Default for Bank {
    /// The bank record with bump seed zero and the all-zero creator address.
    fn default() -> (bank: Bank)
        ensures
            bank.bump == 0,
            bank.creator_key@ == Seq::new(32, |i: int| 0u8),
    {
        Bank { bump: 0, creator_key: Pubkey::default() }
    }
}

} // verus!
