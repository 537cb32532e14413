//! The predicate-circuit abstraction: column/gate layout, one-row regions,
//! and instance bindings.
//!
//! Every predicate circuit in this library shares one shape: a handful of
//! advice columns (private witnesses, public parameters, one result), one
//! instance column, and exactly one gate, guarded by a selector, enforcing
//! only `result * (result - 1) = 0` — boolean-ness of the result.  The
//! predicate's actual logic (comparison, range membership, equality, ratio
//! threshold) is deliberately *not* encoded in the constraint system: it is
//! computed out of circuit during assignment and merely asserted boolean in
//! circuit.  That limitation is a documented design choice of this system,
//! preserved here as such: soundness of "the published boolean matches the
//! private data" rests on the witness-assignment functions, which is exactly
//! why those functions carry verified contracts.
//!
//! Cell values are modelled in the integer domain (see `encoding`): every
//! value the circuits handle is a field element lifted from a `u64`.

use vstd::prelude::*;

verus! {

/// A cell value: either a concrete witness or the distinguished "unknown"
/// used for key-generation instances.  Arithmetic on unknown values must
/// degrade to unknown without erroring.
#[derive(Clone, Copy, PartialEq, Eq, Structural, Debug)]
pub enum WitnessValue {
    Unknown,
    Known(u64),
}

impl WitnessValue {
    pub open spec fn is_known(self) -> bool {
        self is Known
    }

    pub open spec fn value(self) -> u64
        recommends
            self.is_known(),
    {
        self->0
    }
}

/// The one gate form this abstraction installs: guarded by `selector`, it
/// enforces `result * (result - 1) = 0` on the cell in `result_column`.
#[derive(Clone, Copy, PartialEq, Eq, Structural, Debug)]
pub struct BooleanGate {
    pub selector: usize,
    pub result_column: usize,
}

/// A reference to an assigned cell, handed back by the assignment functions
/// so the caller can bind the result to the public instance.
#[derive(Clone, Copy, PartialEq, Eq, Structural, Debug)]
pub struct CellRef {
    pub column: usize,
}

/// The declared layout: how many advice columns, instance columns and
/// selectors exist, which columns have equality-copying enabled, and which
/// gates are installed.  Equality-copying cannot be changed after
/// configuration, so configuration functions must enable it on every column
/// they hand out.
pub struct ConstraintLayout {
    pub num_advice: usize,
    pub num_instance: usize,
    pub num_selectors: usize,
    pub equality: Vec<bool>,
    pub instance_equality: Vec<bool>,
    pub gates: Vec<BooleanGate>,
}

impl ConstraintLayout {
    pub open spec fn wf(self) -> bool {
        &&& self.equality@.len() == self.num_advice
        &&& self.instance_equality@.len() == self.num_instance
        &&& forall|i: int|
            0 <= i < self.gates@.len() ==> (#[trigger] self.gates@[i]).selector
                < self.num_selectors && self.gates@[i].result_column < self.num_advice
    }

    pub fn new() -> (r: Self)
        ensures
            r.wf(),
            r.num_advice == 0,
            r.num_instance == 0,
            r.num_selectors == 0,
            r.gates@.len() == 0,
    {
        ConstraintLayout {
            num_advice: 0,
            num_instance: 0,
            num_selectors: 0,
            equality: Vec::new(),
            instance_equality: Vec::new(),
            gates: Vec::new(),
        }
    }

    /// Allocates a fresh advice column, with equality-copying initially off.
    pub fn advice_column(&mut self) -> (c: usize)
        requires
            old(self).wf(),
            old(self).num_advice < usize::MAX,
        ensures
            final(self).wf(),
            c == old(self).num_advice,
            final(self).num_advice == old(self).num_advice + 1,
            final(self).equality@ == old(self).equality@.push(false),
            final(self).num_instance == old(self).num_instance,
            final(self).num_selectors == old(self).num_selectors,
            final(self).instance_equality@ == old(self).instance_equality@,
            final(self).gates@ == old(self).gates@,
    {
        let c = self.num_advice;
        self.equality.push(false);
        self.num_advice = self.num_advice + 1;
        c
    }

    /// Allocates a fresh instance column.
    pub fn instance_column(&mut self) -> (c: usize)
        requires
            old(self).wf(),
            old(self).num_instance < usize::MAX,
        ensures
            final(self).wf(),
            c == old(self).num_instance,
            final(self).num_instance == old(self).num_instance + 1,
            final(self).instance_equality@ == old(self).instance_equality@.push(false),
            final(self).num_advice == old(self).num_advice,
            final(self).num_selectors == old(self).num_selectors,
            final(self).equality@ == old(self).equality@,
            final(self).gates@ == old(self).gates@,
    {
        let c = self.num_instance;
        self.instance_equality.push(false);
        self.num_instance = self.num_instance + 1;
        c
    }

    /// Allocates a fresh selector.
    pub fn selector(&mut self) -> (s: usize)
        requires
            old(self).wf(),
            old(self).num_selectors < usize::MAX,
        ensures
            final(self).wf(),
            s == old(self).num_selectors,
            final(self).num_selectors == old(self).num_selectors + 1,
            final(self).num_advice == old(self).num_advice,
            final(self).num_instance == old(self).num_instance,
            final(self).equality@ == old(self).equality@,
            final(self).instance_equality@ == old(self).instance_equality@,
            final(self).gates@ == old(self).gates@,
    {
        let s = self.num_selectors;
        self.num_selectors = self.num_selectors + 1;
        s
    }

    /// Enables equality-copying on an advice column.
    pub fn enable_equality(&mut self, col: usize)
        requires
            old(self).wf(),
            col < old(self).num_advice,
        ensures
            final(self).wf(),
            final(self).equality@ == old(self).equality@.update(col as int, true),
            final(self).num_advice == old(self).num_advice,
            final(self).num_instance == old(self).num_instance,
            final(self).num_selectors == old(self).num_selectors,
            final(self).instance_equality@ == old(self).instance_equality@,
            final(self).gates@ == old(self).gates@,
    {
        self.equality.set(col, true);
    }

    /// Enables equality-copying on an instance column.
    pub fn enable_instance_equality(&mut self, col: usize)
        requires
            old(self).wf(),
            col < old(self).num_instance,
        ensures
            final(self).wf(),
            final(self).instance_equality@ == old(self).instance_equality@.update(col as int, true),
            final(self).num_advice == old(self).num_advice,
            final(self).num_instance == old(self).num_instance,
            final(self).num_selectors == old(self).num_selectors,
            final(self).equality@ == old(self).equality@,
            final(self).gates@ == old(self).gates@,
    {
        self.instance_equality.set(col, true);
    }

    /// Installs one boolean-ness gate, guarded by `selector`, on
    /// `result_column`.
    pub fn create_boolean_gate(&mut self, selector: usize, result_column: usize)
        requires
            old(self).wf(),
            selector < old(self).num_selectors,
            result_column < old(self).num_advice,
        ensures
            final(self).wf(),
            final(self).gates@ == old(self).gates@.push(
                BooleanGate { selector, result_column },
            ),
            final(self).num_advice == old(self).num_advice,
            final(self).num_instance == old(self).num_instance,
            final(self).num_selectors == old(self).num_selectors,
            final(self).equality@ == old(self).equality@,
            final(self).instance_equality@ == old(self).instance_equality@,
    {
        self.gates.push(BooleanGate { selector, result_column });
    }
}

/// One assigned row: the value written to each advice column, and which
/// selectors are enabled on the row.  All the circuits in this library
/// assign a single region at row 0.
pub struct Region {
    pub advice: Vec<WitnessValue>,
    pub enabled: Vec<bool>,
}

impl Region {
    /// Whether this region has the arity of `layout`.
    pub open spec fn fits(self, layout: ConstraintLayout) -> bool {
        &&& self.advice@.len() == layout.num_advice
        &&& self.enabled@.len() == layout.num_selectors
    }

    /// A fresh region for `layout`: nothing assigned, no selector enabled.
    pub fn new_for(layout: &ConstraintLayout) -> (r: Self)
        ensures
            r.fits(*layout),
            forall|i: int| 0 <= i < r.advice@.len() ==> r.advice@[i] == WitnessValue::Unknown,
            forall|i: int| 0 <= i < r.enabled@.len() ==> r.enabled@[i] == false,
    {
        let mut advice: Vec<WitnessValue> = Vec::new();
        let mut i: usize = 0;
        while i < layout.num_advice
            invariant
                i <= layout.num_advice,
                advice@.len() == i,
                forall|j: int| 0 <= j < i ==> advice@[j] == WitnessValue::Unknown,
            decreases layout.num_advice - i,
        {
            advice.push(WitnessValue::Unknown);
            i = i + 1;
        }
        let mut enabled: Vec<bool> = Vec::new();
        let mut s: usize = 0;
        while s < layout.num_selectors
            invariant
                s <= layout.num_selectors,
                enabled@.len() == s,
                forall|j: int| 0 <= j < s ==> enabled@[j] == false,
            decreases layout.num_selectors - s,
        {
            enabled.push(false);
            s = s + 1;
        }
        Region { advice, enabled }
    }

    /// Writes a value into an advice column of the row.
    pub fn assign_advice(&mut self, col: usize, v: WitnessValue) -> (cell: CellRef)
        requires
            col < old(self).advice@.len(),
        ensures
            final(self).advice@ == old(self).advice@.update(col as int, v),
            final(self).enabled@ == old(self).enabled@,
            cell.column == col,
    {
        self.advice.set(col, v);
        CellRef { column: col }
    }

    /// Enables a selector on the row.
    pub fn enable_selector(&mut self, s: usize)
        requires
            s < old(self).enabled@.len(),
        ensures
            final(self).enabled@ == old(self).enabled@.update(s as int, true),
            final(self).advice@ == old(self).advice@,
    {
        self.enabled.set(s, true);
    }
}

/// A copy constraint binding an advice cell to a row of an instance column:
/// the channel through which a circuit's public output is published.
#[derive(Clone, Copy, PartialEq, Eq, Structural, Debug)]
pub struct InstanceBinding {
    pub column: usize,
    pub instance_column: usize,
    pub row: usize,
}

/// The synthesis record of one circuit: its assigned region plus the
/// instance bindings it requested.
pub struct Layouter {
    pub region: Region,
    pub bindings: Vec<InstanceBinding>,
}

impl Layouter {
    pub fn new_for(layout: &ConstraintLayout) -> (r: Self)
        ensures
            r.region.fits(*layout),
            forall|i: int|
                0 <= i < r.region.advice@.len() ==> r.region.advice@[i] == WitnessValue::Unknown,
            forall|i: int| 0 <= i < r.region.enabled@.len() ==> r.region.enabled@[i] == false,
            r.bindings@.len() == 0,
    {
        Layouter { region: Region::new_for(layout), bindings: Vec::new() }
    }

    /// Requests that the given cell equal row `row` of instance column
    /// `instance_column`.
    pub fn constrain_instance(&mut self, cell: CellRef, instance_column: usize, row: usize)
        ensures
            final(self).bindings@ == old(self).bindings@.push(
                InstanceBinding { column: cell.column, instance_column, row },
            ),
            final(self).region.advice@ == old(self).region.advice@,
            final(self).region.enabled@ == old(self).region.enabled@,
    {
        self.bindings.push(InstanceBinding { column: cell.column, instance_column, row });
    }
}

/// The public instance value that publishes a boolean result.
pub open spec fn spec_instance_of(b: bool) -> u64 {
    if b {
        1
    } else {
        0
    }
}

/// Encodes a boolean result as the public instance value bound to it.
pub fn instance_of(b: bool) -> (r: u64)
    ensures
        r == spec_instance_of(b),
{
    if b {
        1
    } else {
        0
    }
}

/// A gate holds on a region when either its selector is off, or the result
/// cell carries a known boolean value.
pub open spec fn spec_gate_satisfied(g: BooleanGate, region: Region) -> bool {
    region.enabled@[g.selector as int] ==> {
        &&& region.advice@[g.result_column as int] is Known
        &&& (region.advice@[g.result_column as int]->0 == 0
            || region.advice@[g.result_column as int]->0 == 1)
    }
}

/// An instance binding holds when the bound advice cell carries a known
/// value equal to the published instance value at that row.
pub open spec fn spec_binding_satisfied(b: InstanceBinding, region: Region, instance: Seq<u64>) -> bool {
    &&& region.advice@[b.column as int] is Known
    &&& region.advice@[b.column as int]->0 == instance[b.row as int]
}

/// Full satisfaction: every installed gate and every requested copy
/// constraint holds over the assigned region and the published instance.
pub open spec fn spec_constraints_satisfied(
    layout: ConstraintLayout,
    lay: Layouter,
    instance: Seq<u64>,
) -> bool {
    &&& forall|i: int|
        0 <= i < layout.gates@.len() ==> spec_gate_satisfied(#[trigger] layout.gates@[i], lay.region)
    &&& forall|i: int|
        0 <= i < lay.bindings@.len() ==> spec_binding_satisfied(
            #[trigger] lay.bindings@[i],
            lay.region,
            instance,
        )
}

/// Whether the synthesis record can be checked against `layout` and an
/// instance column of `rows` rows: every index it mentions is in range.
pub open spec fn spec_checkable(layout: ConstraintLayout, lay: Layouter, rows: int) -> bool {
    &&& layout.wf()
    &&& lay.region.fits(layout)
    &&& forall|i: int|
        0 <= i < lay.bindings@.len() ==> (#[trigger] lay.bindings@[i]).column < layout.num_advice
            && lay.bindings@[i].instance_column < layout.num_instance
            && lay.bindings@[i].row < rows
}

/// Evaluates the constraint system directly over concrete assignments: every
/// gate and every copy constraint is checked, with nothing proved by a
/// backend.  This is the cheap evaluation path used to validate predicate
/// logic without producing a proof.
pub fn verify_constraints(layout: &ConstraintLayout, lay: &Layouter, instance: &Vec<u64>) -> (r:
    bool)
    requires
        spec_checkable(*layout, *lay, instance@.len() as int),
    ensures
        r == spec_constraints_satisfied(*layout, *lay, instance@),
{
    let num_gates = layout.gates.len();
    let mut i: usize = 0;
    while i < num_gates
        invariant
            i <= num_gates,
            num_gates == layout.gates@.len(),
            spec_checkable(*layout, *lay, instance@.len() as int),
            forall|j: int| 0 <= j < i ==> spec_gate_satisfied(#[trigger] layout.gates@[j], lay.region),
        decreases num_gates - i,
    {
        let g = layout.gates[i];
        if lay.region.enabled[g.selector] {
            match lay.region.advice[g.result_column] {
                WitnessValue::Known(v) => {
                    if !(v == 0 || v == 1) {
                        return false;
                    }
                },
                WitnessValue::Unknown => {
                    return false;
                },
            }
        }
        i = i + 1;
    }
    let num_bindings = lay.bindings.len();
    let mut k: usize = 0;
    while k < num_bindings
        invariant
            k <= num_bindings,
            num_bindings == lay.bindings@.len(),
            spec_checkable(*layout, *lay, instance@.len() as int),
            forall|j: int|
                0 <= j < num_gates as int ==> spec_gate_satisfied(
                    #[trigger] layout.gates@[j],
                    lay.region,
                ),
            num_gates == layout.gates@.len(),
            forall|j: int|
                0 <= j < k ==> spec_binding_satisfied(
                    #[trigger] lay.bindings@[j],
                    lay.region,
                    instance@,
                ),
        decreases num_bindings - k,
    {
        let b = lay.bindings[k];
        match lay.region.advice[b.column] {
            WitnessValue::Known(v) => {
                if v != instance[b.row] {
                    return false;
                }
            },
            WitnessValue::Unknown => {
                return false;
            },
        }
        k = k + 1;
    }
    true
}

} // verus!
