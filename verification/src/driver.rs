//! Drivers: the policy that turns a named counter into an index.

use crate::dictionary::{counter_of, Counters, DriverDictionary};
use bevy::utils::Uuid;
use vstd::prelude::*;

verus! {

/// A driver names a counter and says whether resolving it advances the counter.
#[derive(Debug)]
pub struct ControlDriver {
    /// The name under which the counter stands in the dictionaries.
    pub name: String,
    /// Whether each resolution stages the counter of the next pass.
    pub auto: bool,
}

/// `Uuid::new_v4` draws a random identifier, and its `to_string` writes it in
/// the hyphenated form: 32 hexadecimal digits in five groups, 36 characters.
/// Nothing is claimed of which identifier comes out.
#[verifier::external_body]
fn random_name() -> (name: String)
    ensures
        name@.len() == 36,
{
    Uuid::new_v4().to_string()
}

impl ControlDriver {
    /// The index that this driver selects among `size` entries when its counter
    /// is read from `prev`: the counter modulo `size`, and zero where there is
    /// nothing to select from.
    pub open spec fn index_in(&self, prev: Counters, size: usize) -> usize {
        if size == 0 {
            0
        } else {
            (counter_of(prev, self.name@) % size) as usize
        }
    }

    /// What `next` holds once this driver has been resolved against `prev`.
    /// An automatic driver stages one more than the index it selected, not
    /// reduced modulo `size`; any other driver stages nothing.
    pub open spec fn advanced(&self, prev: Counters, next: Counters, size: usize) -> Counters {
        if size != 0 && self.auto {
            next.insert(self.name@, (self.index_in(prev, size) + 1) as usize)
        } else {
            next
        }
    }

    /// The automatic driver of the counter called `name`.
    pub fn automatic(name: String) -> (driver: Self)
        ensures
            driver.name == name,
            driver.auto,
    {
        ControlDriver { name, auto: true }
    }

    /// Selects an index among `size` entries. The counter is read from `prev`
    /// only; an automatic driver writes its next value to `next`.
    pub fn resolve(
        &self,
        prev: &DriverDictionary,
        next: &mut DriverDictionary,
        size: usize,
    ) -> (index: usize)
        ensures
            index == self.index_in(prev@, size),
            final(next)@ == self.advanced(prev@, old(next)@, size),
            size > 0 ==> index < size,
            size == 0 ==> index == 0 && final(next)@ == old(next)@,
            !self.auto ==> final(next)@ == old(next)@,
    {
        if size == 0 {
            return 0;
        }
        let value = prev.get(self.name.clone()) % size;

        if self.auto {
            next.insert(self.name.clone(), value + 1);
        }
        value
    }

    /// An automatic driver stages the index it selected plus one, and a pass
    /// that reads what was staged, over the same number of entries, selects the
    /// entry after it, going round from the last to the first.
    pub proof fn lemma_auto_advance(&self, prev: Counters, next: Counters, size: usize)
        requires
            self.auto,
            size > 0,
        ensures
            counter_of(self.advanced(prev, next, size), self.name@) == counter_of(
                prev,
                self.name@,
            ) % size + 1,
            self.index_in(self.advanced(prev, next, size), size) == (counter_of(prev, self.name@)
                % size + 1) % (size as int),
    {
    }
}

impl Default for ControlDriver {
    /// An automatic driver under a freshly drawn random name.
    fn default() -> (driver: Self)
        ensures
            driver.auto,
            driver.name@.len() == 36,
    {
        ControlDriver::automatic(random_name())
    }
}

} // verus!
