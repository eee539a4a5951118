//! A circuit under construction, as far as gates need it: fresh targets whose
//! values come from outside, and targets that are the difference of two
//! earlier ones.
//!
//! A target is an index into the list of operations that the builder has
//! recorded. Given a value for every fresh target, each target has a value;
//! recording further operations never changes the value of an earlier target.

use crate::extension::{ext_sub, QuadraticExtension};
use vstd::prelude::*;

verus! {

/// A handle on a wire slot of a circuit under construction: it names the
/// slot and holds no value.
#[derive(Clone, Copy, Debug, PartialEq, Eq, Structural)]
pub struct ExtensionTarget {
    pub index: usize,
}

/// How the value of a target comes about.
#[derive(Clone, Copy, Debug, PartialEq, Eq, Structural)]
pub enum Operation {
    /// The value is supplied from outside, as input number `ordinal`.
    Virtual { ordinal: usize },
    /// The value is that of target `minuend` less that of target
    /// `subtrahend`, both recorded earlier.
    Sub { minuend: usize, subtrahend: usize },
}

/// The value of target `t` in a circuit with the given operations, where
/// `inputs` holds the value of each virtual target.
pub open spec fn target_value(operations: Seq<Operation>, inputs: Seq<(int, int)>, t: int) -> (
    int,
    int,
)
    decreases t,
{
    if 0 <= t < operations.len() {
        match operations[t] {
            Operation::Virtual { ordinal } => inputs[ordinal as int],
            Operation::Sub { minuend, subtrahend } => if minuend < t && subtrahend < t {
                ext_sub(
                    target_value(operations, inputs, minuend as int),
                    target_value(operations, inputs, subtrahend as int),
                )
            } else {
                (0, 0)
            },
        }
    } else {
        (0, 0)
    }
}

/// The value of a target depends on the operations up to it only.
pub proof fn lemma_target_value_prefix(
    earlier: Seq<Operation>,
    later: Seq<Operation>,
    inputs: Seq<(int, int)>,
    t: int,
)
    requires
        earlier.len() <= later.len(),
        forall|i: int| 0 <= i < earlier.len() ==> earlier[i] == later[i],
        0 <= t < earlier.len(),
    ensures
        target_value(earlier, inputs, t) == target_value(later, inputs, t),
    decreases t,
{
    match earlier[t] {
        Operation::Virtual { ordinal } => {},
        Operation::Sub { minuend, subtrahend } => {
            if minuend < t && subtrahend < t {
                lemma_target_value_prefix(earlier, later, inputs, minuend as int);
                lemma_target_value_prefix(earlier, later, inputs, subtrahend as int);
            }
        },
    }
}

/// A circuit under construction.
pub struct CircuitBuilder {
    operations: Vec<Operation>,
    num_virtual: usize,
}

impl CircuitBuilder {
    #[verifier::type_invariant]
    spec fn well_formed(&self) -> bool {
        &&& self.num_virtual <= self.operations@.len()
        &&& forall|t: int|
            0 <= t < self.operations@.len() ==> match #[trigger] self.operations@[t] {
                Operation::Virtual { ordinal } => ordinal < self.num_virtual,
                Operation::Sub { minuend, subtrahend } => minuend < t && subtrahend < t,
            }
    }

    /// The operations recorded so far; target `t` is the result of
    /// operation `t`.
    pub closed spec fn operations(&self) -> Seq<Operation> {
        self.operations@
    }

    /// The number of virtual targets made so far.
    pub closed spec fn num_inputs(&self) -> nat {
        self.num_virtual as nat
    }

    /// Whether `t` is a target of this circuit.
    pub open spec fn has_target(&self, t: ExtensionTarget) -> bool {
        t.index < self.operations().len()
    }

    /// Whether every one of `targets` is a target of this circuit.
    pub open spec fn has_targets(&self, targets: Seq<ExtensionTarget>) -> bool {
        forall|i: int| 0 <= i < targets.len() ==> self.has_target(#[trigger] targets[i])
    }

    /// The value of target `t`, where `inputs` holds the value of each
    /// virtual target.
    pub open spec fn value(&self, inputs: Seq<(int, int)>, t: ExtensionTarget) -> (int, int) {
        target_value(self.operations(), inputs, t.index as int)
    }

    /// The value of each of `targets`.
    pub open spec fn values(&self, inputs: Seq<(int, int)>, targets: Seq<ExtensionTarget>) -> Seq<
        (int, int),
    > {
        Seq::new(targets.len(), |i: int| self.value(inputs, targets[i]))
    }

    /// Whether this circuit is `earlier` with further operations recorded.
    pub open spec fn extends(&self, earlier: &Self) -> bool {
        &&& earlier.operations().len() <= self.operations().len()
        &&& forall|i: int|
            0 <= i < earlier.operations().len() ==> earlier.operations()[i] == self.operations()[i]
        &&& earlier.num_inputs() <= self.num_inputs()
    }

    /// Whether every target of `earlier` has in this circuit the value that
    /// it has in `earlier`, whatever the inputs.
    pub open spec fn keeps_values(&self, earlier: &Self) -> bool {
        forall|inputs: Seq<(int, int)>, t: ExtensionTarget|
            earlier.has_target(t) ==> self.has_target(t) && #[trigger] self.value(inputs, t)
                == earlier.value(inputs, t)
    }

    /// A circuit that is extended keeps the value of every target it had.
    pub proof fn lemma_extends_keeps(&self, earlier: &Self)
        requires
            self.extends(earlier),
        ensures
            self.keeps_values(earlier),
    {
        assert forall|inputs: Seq<(int, int)>, t: ExtensionTarget|
            earlier.has_target(t) implies self.has_target(t) && #[trigger] self.value(inputs, t)
            == earlier.value(inputs, t) by {
            self.lemma_extends_keeps_value(earlier, inputs, t);
        }
    }

    /// A circuit that is extended keeps the value of a target it had.
    pub proof fn lemma_extends_keeps_value(
        &self,
        earlier: &Self,
        inputs: Seq<(int, int)>,
        t: ExtensionTarget,
    )
        requires
            self.extends(earlier),
            earlier.has_target(t),
        ensures
            self.has_target(t),
            self.value(inputs, t) == earlier.value(inputs, t),
    {
        lemma_target_value_prefix(earlier.operations(), self.operations(), inputs, t.index as int);
    }

    /// A circuit that is extended keeps the value of every target it had.
    pub proof fn lemma_extends_keeps_values(
        &self,
        earlier: &Self,
        inputs: Seq<(int, int)>,
        targets: Seq<ExtensionTarget>,
    )
        requires
            self.extends(earlier),
            earlier.has_targets(targets),
        ensures
            self.has_targets(targets),
            self.values(inputs, targets) == earlier.values(inputs, targets),
    {
        assert forall|i: int| 0 <= i < targets.len() implies self.has_target(
            #[trigger] targets[i],
        ) && self.value(inputs, targets[i]) == earlier.value(inputs, targets[i]) by {
            self.lemma_extends_keeps_value(earlier, inputs, targets[i]);
        }
        assert(self.values(inputs, targets) =~= earlier.values(inputs, targets));
    }

    /// A circuit with no target.
    pub fn new() -> (r: Self)
        ensures
            r.operations() == Seq::<Operation>::empty(),
            r.num_inputs() == 0,
    {
        CircuitBuilder { operations: Vec::new(), num_virtual: 0 }
    }

    /// The number of targets.
    pub fn num_targets(&self) -> (n: usize)
        ensures
            n == self.operations().len(),
    {
        self.operations.len()
    }

    /// Makes a target whose value is supplied from outside, as the next
    /// input.
    pub fn add_virtual_extension_target(&mut self) -> (t: ExtensionTarget)
        ensures
            final(self).operations() == old(self).operations().push(
                Operation::Virtual { ordinal: old(self).num_inputs() as usize },
            ),
            final(self).num_inputs() == old(self).num_inputs() + 1,
            t.index == old(self).operations().len(),
            final(self).extends(old(self)),
            final(self).keeps_values(old(self)),
            forall|inputs: Seq<(int, int)>|
                old(self).num_inputs() < inputs.len() ==> #[trigger] final(self).value(inputs, t)
                    == inputs[old(self).num_inputs() as int],
    {
        proof {
            use_type_invariant(&*self);
        }
        let mut taken = CircuitBuilder::new();
        core::mem::swap(self, &mut taken);
        let CircuitBuilder { mut operations, num_virtual } = taken;
        let index: usize = operations.len();
        operations.push(Operation::Virtual { ordinal: num_virtual });
        let grown: usize = operations.len();
        *self = CircuitBuilder { operations, num_virtual: num_virtual + 1 };
        proof {
            self.lemma_extends_keeps(old(self));
        }
        ExtensionTarget { index }
    }

    /// Makes `n` targets whose values are supplied from outside, as the next
    /// `n` inputs in order.
    pub fn add_virtual_extension_targets(&mut self, n: usize) -> (targets: Vec<ExtensionTarget>)
        ensures
            targets@.len() == n,
            final(self).extends(old(self)),
            final(self).keeps_values(old(self)),
            final(self).num_inputs() == old(self).num_inputs() + n,
            final(self).operations().len() == old(self).operations().len() + n,
            final(self).has_targets(targets@),
            forall|i: int|
                0 <= i < n ==> (#[trigger] targets@[i]).index == old(self).operations().len() + i,
            forall|inputs: Seq<(int, int)>, i: int|
                0 <= i < n && old(self).num_inputs() + n <= inputs.len() ==> #[trigger]
                    final(self).value(inputs, targets@[i]) == inputs[old(self).num_inputs() + i],
    {
        let mut targets: Vec<ExtensionTarget> = Vec::new();
        let mut k: usize = 0;
        while k < n
            invariant
                k <= n,
                targets@.len() == k,
                self.extends(old(self)),
                self.num_inputs() == old(self).num_inputs() + k,
                self.operations().len() == old(self).operations().len() + k,
                self.has_targets(targets@),
                forall|i: int|
                    0 <= i < k ==> (#[trigger] targets@[i]).index == old(self).operations().len()
                        + i,
                forall|inputs: Seq<(int, int)>, i: int|
                    0 <= i < k && old(self).num_inputs() + k <= inputs.len() ==> #[trigger]
                        self.value(inputs, targets@[i]) == inputs[old(self).num_inputs() + i],
            decreases n - k,
        {
            let ghost before = *self;
            let ghost made = targets@;
            let t = self.add_virtual_extension_target();
            targets.push(t);
            proof {
                assert forall|i: int| 0 <= i < k + 1 implies self.has_target(
                    #[trigger] targets@[i],
                ) by {
                    if i < k {
                        assert(before.has_target(made[i]));
                    }
                }
                assert forall|inputs: Seq<(int, int)>, i: int|
                    0 <= i < k + 1 && old(self).num_inputs() + k + 1
                        <= inputs.len() implies #[trigger] self.value(inputs, targets@[i])
                    == inputs[old(self).num_inputs() + i] by {
                    if i < k {
                        assert(before.has_target(made[i]));
                        self.lemma_extends_keeps_value(&before, inputs, made[i]);
                    }
                }
            }
            k = k + 1;
        }
        proof {
            self.lemma_extends_keeps(old(self));
        }
        targets
    }

    /// Makes the target whose value is that of `a` less that of `b`.
    pub fn sub_extension(&mut self, a: ExtensionTarget, b: ExtensionTarget) -> (t: ExtensionTarget)
        requires
            old(self).has_target(a),
            old(self).has_target(b),
        ensures
            final(self).operations() == old(self).operations().push(
                Operation::Sub { minuend: a.index, subtrahend: b.index },
            ),
            final(self).num_inputs() == old(self).num_inputs(),
            t.index == old(self).operations().len(),
            final(self).extends(old(self)),
            final(self).keeps_values(old(self)),
            forall|inputs: Seq<(int, int)>| #[trigger]
                final(self).value(inputs, t) == ext_sub(
                    old(self).value(inputs, a),
                    old(self).value(inputs, b),
                ),
    {
        proof {
            use_type_invariant(&*self);
        }
        let ghost before = self.operations@;
        let mut taken = CircuitBuilder::new();
        core::mem::swap(self, &mut taken);
        let CircuitBuilder { mut operations, num_virtual } = taken;
        let index: usize = operations.len();
        operations.push(Operation::Sub { minuend: a.index, subtrahend: b.index });
        *self = CircuitBuilder { operations, num_virtual };
        proof {
            assert forall|inputs: Seq<(int, int)>| #[trigger]
                self.value(inputs, ExtensionTarget { index }) == ext_sub(
                    old(self).value(inputs, a),
                    old(self).value(inputs, b),
                ) by {
                lemma_target_value_prefix(before, self.operations@, inputs, a.index as int);
                lemma_target_value_prefix(before, self.operations@, inputs, b.index as int);
            }
            self.lemma_extends_keeps(old(self));
        }
        ExtensionTarget { index }
    }

    /// The value of every target, where `inputs` holds the value of each
    /// virtual target.
    pub fn evaluate(&self, inputs: &[QuadraticExtension]) -> (values: Vec<QuadraticExtension>)
        requires
            inputs@.len() >= self.num_inputs(),
        ensures
            values@.len() == self.operations().len(),
            forall|t: int|
                0 <= t < values@.len() ==> (#[trigger] values@[t])@ == target_value(
                    self.operations(),
                    inputs.deep_view(),
                    t,
                ),
    {
        proof {
            use_type_invariant(self);
        }
        let mut values: Vec<QuadraticExtension> = Vec::new();
        let mut t: usize = 0;
        while t < self.operations.len()
            invariant
                t <= self.operations@.len(),
                values@.len() == t,
                self.well_formed(),
                inputs@.len() >= self.num_virtual,
                forall|s: int|
                    0 <= s < t ==> (#[trigger] values@[s])@ == target_value(
                        self.operations@,
                        inputs.deep_view(),
                        s,
                    ),
            decreases self.operations@.len() - t,
        {
            let value = match self.operations[t] {
                Operation::Virtual { ordinal } => inputs[ordinal],
                Operation::Sub { minuend, subtrahend } => values[minuend].sub(values[subtrahend]),
            };
            values.push(value);
            t = t + 1;
        }
        values
    }
}

} // verus!
