//! Witness generators: the units through which a gate fills in the wires that
//! no other gate supplies.
//!
//! A generator reads the wires that are known and writes wires that were not.
//! It never changes a wire that is known, and where it cannot run yet it
//! leaves the witness as it is and says so. In what order the generators of a
//! row run, and when one is tried again, is for the caller to decide.
//!
//! A generator can say what it does: when it is ready, and what it makes of
//! a witness then. What a run of generators that all say so leaves behind is
//! `run_all`, and the number of them that could not run is `pending_count`.

use crate::field::GoldilocksField;
use vstd::prelude::*;

verus! {

/// Whether `later` knows every wire that `earlier` knows, with the same
/// value.
pub open spec fn witness_extends(later: Seq<Option<int>>, earlier: Seq<Option<int>>) -> bool {
    &&& later.len() == earlier.len()
    &&& forall|i: int| 0 <= i < earlier.len() && earlier[i] is Some ==> later[i] == earlier[i]
}

/// Whether `after` can be what running `count` generators, each once, makes
/// of the witness `before`: known wires keep their value, and with no
/// generator nothing changes.
pub open spec fn is_run_outcome(
    count: nat,
    before: Seq<Option<int>>,
    after: Seq<Option<int>>,
) -> bool {
    &&& witness_extends(after, before)
    &&& count == 0 ==> after == before
}

/// The wires of a trace, as far as they are known.
pub struct PartialWitness {
    wires: Vec<Option<GoldilocksField>>,
}

impl View for PartialWitness {
    type V = Seq<Option<int>>;

    closed spec fn view(&self) -> Seq<Option<int>> {
        Seq::new(
            self.wires@.len(),
            |i: int|
                match self.wires@[i] {
                    Some(value) => Some(value@),
                    None => None,
                },
        )
    }
}

impl PartialWitness {
    /// A witness of `len` wires, none of them known.
    pub fn new(len: usize) -> (r: Self)
        ensures
            r@ == Seq::new(len as nat, |i: int| None::<int>),
    {
        let mut wires: Vec<Option<GoldilocksField>> = Vec::new();
        let mut i: usize = 0;
        while i < len
            invariant
                i <= len,
                wires@.len() == i,
                forall|k: int| 0 <= k < i ==> wires@[k] is None,
            decreases len - i,
        {
            wires.push(None);
            i = i + 1;
        }
        let r = PartialWitness { wires };
        assert(r@ =~= Seq::new(len as nat, |i: int| None::<int>));
        r
    }

    /// The number of wires.
    pub fn len(&self) -> (n: usize)
        ensures
            n == self@.len(),
    {
        self.wires.len()
    }

    /// The value of wire `index`, if it is known.
    pub fn get(&self, index: usize) -> (value: Option<GoldilocksField>)
        requires
            index < self@.len(),
        ensures
            match value {
                Some(v) => self@[index as int] == Some(v@),
                None => self@[index as int] is None,
            },
    {
        self.wires[index]
    }

    /// Makes wire `index`, which was not known, known to be `value`.
    pub fn set(&mut self, index: usize, value: GoldilocksField)
        requires
            index < old(self)@.len(),
            old(self)@[index as int] is None,
        ensures
            final(self)@ == old(self)@.update(index as int, Some(value@)),
            witness_extends(final(self)@, old(self)@),
    {
        self.wires[index] = Some(value);
        assert(self@ =~= old(self)@.update(index as int, Some(value@)));
    }
}

/// A unit that computes wires from wires.
pub trait WitnessGenerator {
    /// Whether `is_ready` and `generated` say what this generator does. Of a
    /// generator that leaves this false, nothing is known but that it keeps
    /// the wires that are known.
    open spec fn is_described(&self) -> bool {
        false
    }

    /// Whether the wires that this generator reads are known in `witness`.
    open spec fn is_ready(&self, witness: Seq<Option<int>>) -> bool {
        false
    }

    /// The witness that this generator makes of `witness`, where it is
    /// ready.
    open spec fn generated(&self, witness: Seq<Option<int>>) -> Seq<Option<int>> {
        witness
    }

    /// Writes the wires that this generator determines, if the wires that it
    /// reads are known, and says whether it did. Wires that were known keep
    /// their value; a generator that cannot run yet changes nothing. A
    /// generator that says what it does runs exactly where it is ready, and
    /// leaves the witness that it says.
    fn run(&self, witness: &mut PartialWitness) -> (done: bool)
        ensures
            witness_extends(final(witness)@, old(witness)@),
            !done ==> final(witness)@ == old(witness)@,
            self.is_described() ==> done == self.is_ready(old(witness)@),
            self.is_described() && done ==> final(witness)@ == self.generated(old(witness)@),
    ;
}

/// Whether each of `generators` says what it does.
pub open spec fn all_described(generators: Seq<Box<dyn WitnessGenerator>>) -> bool {
    forall|k: int| 0 <= k < generators.len() ==> (#[trigger] generators[k]).is_described()
}

/// What one run of `generator` makes of `witness`.
pub open spec fn run_once<G: WitnessGenerator + ?Sized>(
    generator: &G,
    witness: Seq<Option<int>>,
) -> Seq<Option<int>> {
    if generator.is_ready(witness) {
        generator.generated(witness)
    } else {
        witness
    }
}

/// What running the first `n` of `generators`, each once and in order,
/// makes of `witness`.
pub open spec fn run_all(
    generators: Seq<Box<dyn WitnessGenerator>>,
    witness: Seq<Option<int>>,
    n: nat,
) -> Seq<Option<int>>
    decreases n,
{
    if n == 0 {
        witness
    } else {
        run_once(&*generators[n - 1], run_all(generators, witness, (n - 1) as nat))
    }
}

/// How many of the first `n` of `generators` are not ready when their turn
/// comes, where each is run once and in order.
pub open spec fn pending_count(
    generators: Seq<Box<dyn WitnessGenerator>>,
    witness: Seq<Option<int>>,
    n: nat,
) -> nat
    decreases n,
{
    if n == 0 {
        0
    } else {
        let before = pending_count(generators, witness, (n - 1) as nat);
        if generators[n - 1].is_ready(run_all(generators, witness, (n - 1) as nat)) {
            before
        } else {
            before + 1
        }
    }
}

/// Runs each of `generators` once, in order, on the witness that the ones
/// before it have left, and says how many of them could not run yet. Wires
/// that were known keep their value, and with no generator the witness stays
/// as it is. Where every generator says what it does, the witness that is
/// left and the number that is returned are those of `run_all` and
/// `pending_count`.
pub fn run_generators(
    generators: &Vec<Box<dyn WitnessGenerator>>,
    witness: &mut PartialWitness,
) -> (pending: usize)
    ensures
        is_run_outcome(generators@.len(), old(witness)@, final(witness)@),
        pending <= generators@.len(),
        final(witness)@ == old(witness)@ || pending < generators@.len(),
        all_described(generators@) ==> final(witness)@ == run_all(
            generators@,
            old(witness)@,
            generators@.len(),
        ),
        all_described(generators@) ==> pending == pending_count(
            generators@,
            old(witness)@,
            generators@.len(),
        ),
{
    let mut pending: usize = 0;
    let mut k: usize = 0;
    while k < generators.len()
        invariant
            k <= generators@.len(),
            pending <= k,
            witness_extends(witness@, old(witness)@),
            witness@ == old(witness)@ || pending < k,
            all_described(generators@) ==> witness@ == run_all(
                generators@,
                old(witness)@,
                k as nat,
            ),
            all_described(generators@) ==> pending == pending_count(
                generators@,
                old(witness)@,
                k as nat,
            ),
        decreases generators@.len() - k,
    {
        let ghost before = witness@;
        let done = generators[k].run(witness);
        proof {
            if all_described(generators@) {
                assert(generators@[k as int].is_described());
                assert(witness@ == run_once(&*generators@[k as int], before));
            }
        }
        if !done {
            pending = pending + 1;
        }
        k = k + 1;
    }
    pending
}

} // verus!
