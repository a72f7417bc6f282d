//! Effects, and the scripted sequences that apply them.

use vstd::prelude::*;

verus! {

/// A colour: hue, saturation, brightness and kelvin.
#[derive(Clone, Copy, Debug, PartialEq, Eq)]
pub struct ColourSpec(pub u16, pub u16, pub u16, pub u16);

/// A visual state that a light can be brought into.
#[derive(Clone, Debug, PartialEq, Eq)]
pub enum Effect {
    /// The whole light in one colour.
    SolidColour(ColourSpec),
    /// One colour per segment of `scale_factor` zones; a segment without a
    /// colour is dark.
    MultiColour { colours: Vec<Option<ColourSpec>>, scale_factor: u8 },
}

/// One step of a sequence.
#[derive(Clone, Debug, PartialEq, Eq)]
pub enum Operation {
    /// Bring the light into the effect named `to`, over `transition_ms`
    /// milliseconds.
    Transition { to: String, transition_ms: u32 },
    /// Wait for this many milliseconds.
    DelayMs(u64),
    /// Let the zones rotate with this period, for `duration_ns` nanoseconds
    /// or without an end.
    Rotate { period: u32, duration_ns: Option<u64> },
}

/// A catalogue of named effects, and the operations to run in order.
#[derive(Clone, Debug, PartialEq, Eq)]
pub struct Sequence {
    /// The effects by name; no name occurs twice.
    pub effects: Vec<(String, Effect)>,
    pub ops: Vec<Operation>,
}

/// The first effect at or after position `from` that is named `name`.
pub open spec fn lookup_from(effects: Seq<(String, Effect)>, name: Seq<char>, from: int) -> Option<
    Effect,
>
    decreases effects.len() - from,
{
    if from < 0 || from >= effects.len() {
        None
    } else if effects[from].0@ == name {
        Some(effects[from].1)
    } else {
        lookup_from(effects, name, from + 1)
    }
}

/// The effect that the catalogue holds under `name`.
pub open spec fn lookup(effects: Seq<(String, Effect)>, name: Seq<char>) -> Option<Effect> {
    lookup_from(effects, name, 0)
}

impl Sequence {
    /// No name occurs twice in the catalogue.
    pub open spec fn names_distinct(&self) -> bool {
        forall|i: int, j: int|
            0 <= i < j < self.effects@.len() ==> self.effects@[i].0@ != self.effects@[j].0@
    }

    /// Every transition names an effect of the catalogue.
    pub open spec fn resolves(&self) -> bool {
        forall|k: int|
            0 <= k < self.ops@.len() ==> (#[trigger] self.ops@[k] matches Operation::Transition {
                to,
                ..
            } ==> lookup(self.effects@, to@) is Some)
    }

    /// The sequence can be run.
    pub open spec fn well_formed(&self) -> bool {
        self.names_distinct() && self.resolves()
    }

    /// Whether no name occurs twice in the catalogue.
    pub fn has_distinct_names(&self) -> (b: bool)
        ensures
            b == self.names_distinct(),
    {
        let mut j: usize = 0;
        while j < self.effects.len()
            invariant
                j <= self.effects@.len(),
                forall|a: int, b: int| 0 <= a < b < j ==> self.effects@[a].0@ != self.effects@[b].0@,
            decreases self.effects@.len() - j,
        {
            let mut i: usize = 0;
            while i < j
                invariant
                    i <= j < self.effects@.len(),
                    forall|a: int| 0 <= a < i ==> self.effects@[a].0@ != self.effects@[j as int].0@,
                decreases j - i,
            {
                if self.effects[i].0 == self.effects[j].0 {
                    return false;
                }
                i = i + 1;
            }
            j = j + 1;
        }
        true
    }

    /// Whether every transition names an effect of the catalogue.
    pub fn all_resolve(&self) -> (b: bool)
        ensures
            b == self.resolves(),
    {
        let mut k: usize = 0;
        while k < self.ops.len()
            invariant
                k <= self.ops@.len(),
                forall|m: int|
                    0 <= m < k ==> (#[trigger] self.ops@[m] matches Operation::Transition {
                        to,
                        ..
                    } ==> lookup(self.effects@, to@) is Some),
            decreases self.ops@.len() - k,
        {
            match &self.ops[k] {
                Operation::Transition { to, .. } => {
                    if self.effect(to).is_none() {
                        return false;
                    }
                },
                _ => {},
            }
            k = k + 1;
        }
        true
    }

    /// How many operations can be run before one fails: the position of the
    /// first transition that names no effect of the catalogue, or the number
    /// of operations where there is none.
    pub fn resolved_prefix(&self) -> (n: usize)
        ensures
            n <= self.ops@.len(),
            forall|m: int|
                0 <= m < n ==> (#[trigger] self.ops@[m] matches Operation::Transition {
                    to,
                    ..
                } ==> lookup(self.effects@, to@) is Some),
            n < self.ops@.len() ==> (self.ops@[n as int] matches Operation::Transition { to, .. }
                && lookup(self.effects@, to@) is None),
    {
        let mut k: usize = 0;
        while k < self.ops.len()
            invariant
                k <= self.ops@.len(),
                forall|m: int|
                    0 <= m < k ==> (#[trigger] self.ops@[m] matches Operation::Transition {
                        to,
                        ..
                    } ==> lookup(self.effects@, to@) is Some),
            decreases self.ops@.len() - k,
        {
            match &self.ops[k] {
                Operation::Transition { to, .. } => {
                    if self.effect(to).is_none() {
                        return k;
                    }
                },
                _ => {},
            }
            k = k + 1;
        }
        k
    }

    /// Whether the sequence can be run.
    pub fn is_well_formed(&self) -> (b: bool)
        ensures
            b == self.well_formed(),
    {
        self.has_distinct_names() && self.all_resolve()
    }

    /// Looks an effect up by its name.
    pub fn effect(&self, name: &String) -> (found: Option<&Effect>)
        ensures
            match found {
                Some(effect) => lookup(self.effects@, name@) == Some(*effect),
                None => lookup(self.effects@, name@) is None,
            },
    {
        let mut i: usize = 0;
        while i < self.effects.len()
            invariant
                i <= self.effects@.len(),
                lookup(self.effects@, name@) == lookup_from(self.effects@, name@, i as int),
            decreases self.effects@.len() - i,
        {
            if self.effects[i].0 == *name {
                return Some(&self.effects[i].1);
            }
            i = i + 1;
        }
        None
    }
}

} // verus!
