//! Numbers for the fetches that leave the client.
//!
//! A slot is known to whoever sends its request only by its name, and a
//! name lives on when its fetch is dropped: by a reload, or because the
//! screen that asked was left. So every fetch that leaves gets a number, and
//! an outcome is taken only under the number that its slot awaits.

use vstd::prelude::*;
use crate::view::Fetch;
use crate::view::Slot;

verus! {

/// The numbers that were given out, and for each slot the number of the
/// fetch that it awaits.
#[derive(Debug, PartialEq, Eq)]
pub struct Tickets {
    /// The number that was given out last.
    pub issued: u64,
    pub page: Option<u64>,
    pub action: Option<u64>,
    pub info: Option<u64>,
    pub variables: Option<u64>,
    pub alternatives: Option<u64>,
    pub experts: Option<u64>,
    pub criteria: Option<u64>,
    pub scale: Option<u64>,
}

/// The number after `number`: the next one, and after the last one the
/// first again.
pub open spec fn following(number: u64) -> u64 {
    if number == u64::MAX {
        0
    } else {
        (number + 1) as u64
    }
}

/// The number that is given out `steps` fetches after `number` was.
pub open spec fn later(number: u64, steps: nat) -> u64
    decreases steps,
{
    if steps == 0 {
        number
    } else {
        following(later(number, (steps - 1) as nat))
    }
}

/// The slots of some fetches, in their order.
pub open spec fn slots_of(fetches: Seq<Fetch>) -> Seq<Slot> {
    fetches.map_values(|fetch: Fetch| fetch.slot)
}

/// The numbers go on in one row: what is `second` steps after what is
/// `first` steps after a number is `first + second` steps after it.
pub proof fn lemma_later_adds(number: u64, first: nat, second: nat)
    ensures
        later(later(number, first), second) == later(number, first + second),
    decreases second,
{
    if second > 0 {
        lemma_later_adds(number, first, (second - 1) as nat);
        assert((first + second - 1) as nat == first + (second - 1) as nat);
    }
}

/// Whether `number` is one of the `count` numbers given out after `last`.
pub open spec fn given_after(last: u64, count: nat, number: u64) -> bool {
    exists|steps: nat| 1 <= steps <= count && number == #[trigger] later(last, steps)
}

impl Tickets {
    /// What a slot awaits after fetches have left is what it awaited
    /// before, or the number of one of these fetches.
    pub proof fn lemma_awaited_after(self, slots: Seq<Slot>, slot: Slot)
        ensures
            self.issued_for_all(slots).issued == later(self.issued, slots.len()),
            self.issued_for_all(slots).awaited(slot) == self.awaited(slot) || (
            self.issued_for_all(slots).awaited(slot) matches Some(number) && given_after(
                self.issued,
                slots.len(),
                number,
            )),
        decreases slots.len(),
    {
        if slots.len() > 0 {
            let before = self.issued_for_all(slots.drop_last());
            self.lemma_awaited_after(slots.drop_last(), slot);
            let after = before.issued_for(slots.last());
            assert(after.issued == later(self.issued, slots.len()));
            if after.awaited(slot) != self.awaited(slot) {
                if after.awaited(slot) == before.awaited(slot) {
                    let number = before.awaited(slot)->0;
                    let steps = choose|steps: nat|
                        1 <= steps <= slots.len() - 1 && number == #[trigger] later(self.issued, steps);
                    assert(1 <= steps <= slots.len() && number == later(self.issued, steps));
                } else {
                    assert(after.awaited(slot) == Some(later(self.issued, slots.len())));
                }
            }
        }
    }

    /// No outcome of a fetch that was dropped is taken. Once the slots were
    /// told to forget what they awaited, a slot awaits a number only if a
    /// fetch has left for it since, and then it is the number of such a
    /// fetch: under every other number an outcome is turned away.
    pub proof fn only_what_left_since_is_awaited(self, slots: Seq<Slot>, slot: Slot, number: u64)
        requires
            self.forgotten().issued_for_all(slots).awaited(slot) == Some(number),
        ensures
            given_after(self.issued, slots.len(), number),
            slots.contains(slot),
    {
        self.forgotten().lemma_awaited_after(slots, slot);
        self.forgotten().lemma_awaits_only_what_left(slots, slot);
    }

    /// A slot for which no fetch has left awaits what it awaited before.
    pub proof fn lemma_awaits_only_what_left(self, slots: Seq<Slot>, slot: Slot)
        ensures
            !slots.contains(slot) ==> self.issued_for_all(slots).awaited(slot) == self.awaited(slot),
        decreases slots.len(),
    {
        if slots.len() > 0 {
            self.lemma_awaits_only_what_left(slots.drop_last(), slot);
            if !slots.contains(slot) {
                assert(slots.last() == slots[slots.len() - 1]);
                assert(slots.last() != slot);
                assert forall|i: int| 0 <= i < slots.drop_last().len() implies slots.drop_last()[i]
                    != slot by {
                    assert(slots.drop_last()[i] == slots[i]);
                }
            }
        }
    }

    /// The number of the fetch that `slot` awaits, if it awaits one.
    pub open spec fn awaited(self, slot: Slot) -> Option<u64> {
        match slot {
            Slot::Page => self.page,
            Slot::Action => self.action,
            Slot::Info => self.info,
            Slot::Variables => self.variables,
            Slot::Alternatives => self.alternatives,
            Slot::Experts => self.experts,
            Slot::Criteria => self.criteria,
            Slot::Scale => self.scale,
        }
    }

    /// The tickets where `slot` awaits `number`, or nothing.
    pub open spec fn with(self, slot: Slot, number: Option<u64>) -> Tickets {
        match slot {
            Slot::Page => Tickets { page: number, ..self },
            Slot::Action => Tickets { action: number, ..self },
            Slot::Info => Tickets { info: number, ..self },
            Slot::Variables => Tickets { variables: number, ..self },
            Slot::Alternatives => Tickets { alternatives: number, ..self },
            Slot::Experts => Tickets { experts: number, ..self },
            Slot::Criteria => Tickets { criteria: number, ..self },
            Slot::Scale => Tickets { scale: number, ..self },
        }
    }

    /// The tickets once a fetch has left for `slot`: it has the number
    /// after the one given out last, and the slot awaits it.
    pub open spec fn issued_for(self, slot: Slot) -> Tickets {
        Tickets { issued: following(self.issued), ..self }.with(slot, Some(following(self.issued)))
    }

    /// The tickets once fetches have left for `slots`, one after the other.
    pub open spec fn issued_for_all(self, slots: Seq<Slot>) -> Tickets
        decreases slots.len(),
    {
        if slots.len() == 0 {
            self
        } else {
            self.issued_for_all(slots.drop_last()).issued_for(slots.last())
        }
    }

    /// The numbers that the next `count` fetches get, in their order.
    pub open spec fn numbers(self, count: nat) -> Seq<u64> {
        Seq::new(count, |k: int| later(self.issued, (k + 1) as nat))
    }

    /// The tickets where no slot awaits anything. The numbers go on from
    /// where they are.
    pub open spec fn forgotten(self) -> Tickets {
        Tickets {
            issued: self.issued,
            page: None,
            action: None,
            info: None,
            variables: None,
            alternatives: None,
            experts: None,
            criteria: None,
            scale: None,
        }
    }

    /// The tickets once an outcome has come in for `slot` under `number`:
    /// where the slot awaits that number it awaits nothing any more, and
    /// else nothing has changed.
    pub open spec fn redeemed(self, slot: Slot, number: u64) -> Tickets {
        if self.awaited(slot) == Some(number) {
            self.with(slot, None)
        } else {
            self
        }
    }

    /// Tickets before the first fetch.
    pub fn new() -> (tickets: Self)
        ensures
            tickets.issued == 0,
            tickets == tickets.forgotten(),
    {
        Tickets {
            issued: 0,
            page: None,
            action: None,
            info: None,
            variables: None,
            alternatives: None,
            experts: None,
            criteria: None,
            scale: None,
        }
    }

    /// Gives the fetch that leaves for `slot` its number.
    pub fn issue(&mut self, slot: Slot) -> (number: u64)
        ensures
            number == following(old(self).issued),
            *final(self) == old(self).issued_for(slot),
    {
        let number: u64 = if self.issued == u64::MAX {
            0
        } else {
            self.issued + 1
        };
        self.issued = number;
        match slot {
            Slot::Page => {
                self.page = Some(number);
            },
            Slot::Action => {
                self.action = Some(number);
            },
            Slot::Info => {
                self.info = Some(number);
            },
            Slot::Variables => {
                self.variables = Some(number);
            },
            Slot::Alternatives => {
                self.alternatives = Some(number);
            },
            Slot::Experts => {
                self.experts = Some(number);
            },
            Slot::Criteria => {
                self.criteria = Some(number);
            },
            Slot::Scale => {
                self.scale = Some(number);
            },
        }
        number
    }

    /// Gives each of `fetches` its number, in their order, and puts the
    /// numbers after those in `numbers`.
    pub fn issue_all(&mut self, fetches: &Vec<Fetch>, numbers: &mut Vec<u64>)
        ensures
            *final(self) == old(self).issued_for_all(slots_of(fetches@)),
            final(numbers)@ == old(numbers)@ + old(self).numbers(fetches@.len()),
            final(self).issued == later(old(self).issued, fetches@.len()),
    {
        let mut i: usize = 0;
        proof {
            assert(slots_of(fetches@).take(0) =~= Seq::<Slot>::empty());
            assert(numbers@ =~= old(numbers)@ + old(self).numbers(0));
        }
        while i < fetches.len()
            invariant
                i <= fetches@.len(),
                *self == old(self).issued_for_all(slots_of(fetches@).take(i as int)),
                self.issued == later(old(self).issued, i as nat),
                numbers@ == old(numbers)@ + old(self).numbers(i as nat),
            decreases fetches@.len() - i,
        {
            let number = self.issue(fetches[i].slot);
            numbers.push(number);
            proof {
                let slots = slots_of(fetches@);
                assert(slots.take(i + 1).drop_last() =~= slots.take(i as int));
                assert(slots.take(i + 1).last() == fetches@[i as int].slot);
                assert(numbers@ =~= old(numbers)@ + old(self).numbers((i + 1) as nat));
            }
            i = i + 1;
        }
        proof {
            assert(slots_of(fetches@).take(fetches@.len() as int) =~= slots_of(fetches@));
        }
    }

    /// Takes in the number under which an outcome has come in for `slot`,
    /// and says whether the slot awaits it.
    pub fn redeem(&mut self, slot: Slot, number: u64) -> (awaited: bool)
        ensures
            awaited == (old(self).awaited(slot) == Some(number)),
            *final(self) == old(self).redeemed(slot, number),
    {
        let held = match slot {
            Slot::Page => self.page,
            Slot::Action => self.action,
            Slot::Info => self.info,
            Slot::Variables => self.variables,
            Slot::Alternatives => self.alternatives,
            Slot::Experts => self.experts,
            Slot::Criteria => self.criteria,
            Slot::Scale => self.scale,
        };
        let awaited = match held {
            Some(held) => held == number,
            None => false,
        };
        if awaited {
            match slot {
                Slot::Page => {
                    self.page = None;
                },
                Slot::Action => {
                    self.action = None;
                },
                Slot::Info => {
                    self.info = None;
                },
                Slot::Variables => {
                    self.variables = None;
                },
                Slot::Alternatives => {
                    self.alternatives = None;
                },
                Slot::Experts => {
                    self.experts = None;
                },
                Slot::Criteria => {
                    self.criteria = None;
                },
                Slot::Scale => {
                    self.scale = None;
                },
            }
        }
        awaited
    }

    /// Lets every slot await nothing: what was on its way is of no use any
    /// more.
    pub fn forget(&mut self)
        ensures
            *final(self) == old(self).forgotten(),
    {
        self.page = None;
        self.action = None;
        self.info = None;
        self.variables = None;
        self.alternatives = None;
        self.experts = None;
        self.criteria = None;
        self.scale = None;
    }
}

} // verus!
