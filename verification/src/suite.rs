//! A suite: units under distinct names, checked one after the other.

use crate::error::{verdict_of, CheckError, Verdict};
use crate::executor::{execute_test_unit, spec_run_unit};
use crate::model::{TestUnit, TestUnitView};
use vstd::prelude::*;

verus! {

/// A unit with the name it has in its suite.
#[derive(Clone, Debug, PartialEq, Eq)]
pub struct NamedUnit {
    pub name: String,
    pub unit: TestUnit,
}

pub struct NamedUnitView {
    pub name: Seq<char>,
    pub unit: TestUnitView,
}

impl View for NamedUnit {
    type V = NamedUnitView;

    open spec fn view(&self) -> NamedUnitView {
        NamedUnitView { name: self.name@, unit: self.unit@ }
    }
}

impl DeepView for NamedUnit {
    type V = NamedUnitView;

    open spec fn deep_view(&self) -> NamedUnitView {
        self@
    }
}

/// Whether no two units of a list have the same name.
pub open spec fn names_distinct(units: Seq<NamedUnitView>) -> bool {
    forall|i: int, j: int|
        0 <= i < j < units.len() ==> (#[trigger] units[i]).name != (#[trigger] units[j]).name
}

/// Whether a price of blob gas is computed for the block of every unit.
pub open spec fn all_blob_gas_in_range(units: Seq<NamedUnitView>) -> bool {
    forall|i: int| 0 <= i < units.len() ==> (#[trigger] units[i]).unit.env.blob_gas_in_range()
}

/// Units by name, in the order in which their names were first put in.
/// No two units have the same name.
pub struct TestSuite {
    units: Vec<NamedUnit>,
}

impl View for TestSuite {
    type V = Seq<NamedUnitView>;

    closed spec fn view(&self) -> Seq<NamedUnitView> {
        self.units.deep_view()
    }
}

/// The position of a name in a list of units, if it is there.
pub open spec fn position_of(units: Seq<NamedUnitView>, name: Seq<char>) -> Option<int> {
    if exists|i: int| 0 <= i < units.len() && units[i].name == name {
        Some(choose|i: int| 0 <= i < units.len() && units[i].name == name)
    } else {
        None
    }
}

/// A list of units with one more unit put in under a name: in place of
/// the unit that has the name, or at the end where none has it.
pub open spec fn spec_insert(
    units: Seq<NamedUnitView>,
    name: Seq<char>,
    unit: TestUnitView,
) -> Seq<NamedUnitView> {
    match position_of(units, name) {
        Some(i) => units.update(i, NamedUnitView { name, unit }),
        None => units.push(NamedUnitView { name, unit }),
    }
}

/// The verdict on a list of units: that of the first unit that fails, or
/// success where none does.
pub open spec fn spec_run_suite(units: Seq<NamedUnitView>) -> Verdict
    decreases units.len(),
{
    if units.len() == 0 {
        Ok(())
    } else {
        let before = spec_run_suite(units.drop_last());
        if before is Err {
            before
        } else {
            spec_run_unit(units.last().unit).verdict
        }
    }
}

impl TestSuite {
    #[verifier::type_invariant]
    spec fn well_formed(self) -> bool {
        names_distinct(self.units.deep_view())
    }

    /// A suite without units.
    pub fn new() -> (r: TestSuite)
        ensures
            r@ == Seq::<NamedUnitView>::empty(),
    {
        let r = TestSuite { units: Vec::new() };
        assert(r.units.deep_view() =~= Seq::<NamedUnitView>::empty());
        r
    }

    pub fn len(&self) -> (r: usize)
        ensures
            r == self@.len(),
    {
        self.units.len()
    }

    /// The unit at a position, with its name.
    pub fn get(&self, i: usize) -> (r: &NamedUnit)
        requires
            i < self@.len(),
        ensures
            r@ == self@[i as int],
    {
        &self.units[i]
    }

    /// The suite with a unit put in under a name. A unit that had the
    /// name is replaced where it stood; a new name goes to the end.
    pub fn insert(self, name: String, unit: TestUnit) -> (r: TestSuite)
        ensures
            r@ == spec_insert(self@, name@, unit@),
            names_distinct(r@),
    {
        proof {
            use_type_invariant(&self);
        }
        let ghost before = self.units.deep_view();
        let mut units = self.units;
        let mut i: usize = 0;
        while i < units.len()
            invariant
                i <= units.len(),
                units.deep_view() == before,
                self@ == before,
                names_distinct(before),
                forall|j: int| 0 <= j < i ==> before[j].name != name@,
            decreases units.len() - i,
        {
            if units[i].name == name {
                proof {
                    assert(before[i as int].name == name@);
                    let p = position_of(before, name@);
                    assert(p is Some);
                    assert(p->0 == i) by {
                        if p->0 < i {
                        } else if p->0 > i {
                            assert(before[i as int].name != before[p->0].name);
                        }
                    }
                }
                units.set(i, NamedUnit { name, unit });
                proof {
                    let after = units.deep_view();
                    assert(after =~= before.update(i as int, NamedUnitView { name: name@, unit: unit@ }));
                    assert forall|a: int, b: int| 0 <= a < b < after.len() implies (
                    #[trigger] after[a]).name != (#[trigger] after[b]).name by {
                        assert(after[a].name == before[a].name);
                        assert(after[b].name == before[b].name);
                    }
                }
                return TestSuite { units };
            }
            i = i + 1;
        }
        proof {
            assert(position_of(before, name@) is None);
        }
        units.push(NamedUnit { name, unit });
        proof {
            let after = units.deep_view();
            assert(after =~= before.push(NamedUnitView { name: name@, unit: unit@ }));
            assert forall|a: int, b: int| 0 <= a < b < after.len() implies (#[trigger] after[a]).name
                != (#[trigger] after[b]).name by {
                if b < before.len() {
                    assert(after[a] == before[a]);
                    assert(after[b] == before[b]);
                } else {
                    assert(after[a] == before[a]);
                }
            }
        }
        TestSuite { units }
    }

    /// Whether a price of blob gas is computed for the block of every
    /// unit, as checking the suite requires.
    pub fn blob_gas_in_range(&self) -> (r: bool)
        ensures
            r == all_blob_gas_in_range(self@),
    {
        let mut i: usize = 0;
        while i < self.units.len()
            invariant
                i <= self.units.len(),
                forall|j: int|
                    0 <= j < i ==> (#[trigger] self.units.deep_view()[j]).unit.env.blob_gas_in_range(),
            decreases self.units.len() - i,
        {
            if !self.units[i].unit.env.blob_gas_in_range() {
                assert(!self.units.deep_view()[i as int].unit.env.blob_gas_in_range());
                return false;
            }
            i = i + 1;
        }
        true
    }
}

/// Checks the units of a suite in order and returns the first failure, or
/// success where no unit fails.
pub fn execute_test_suite(suite: &TestSuite) -> (r: Result<(), CheckError>)
    requires
        all_blob_gas_in_range(suite@),
    ensures
        verdict_of(r) == spec_run_suite(suite@),
{
    let mut i: usize = 0;
    while i < suite.len()
        invariant
            i <= suite@.len(),
            all_blob_gas_in_range(suite@),
            spec_run_suite(suite@.take(i as int)) is Ok,
        decreases suite@.len() - i,
    {
        proof {
            let prefix = suite@.take(i + 1);
            assert(prefix.drop_last() =~= suite@.take(i as int));
            assert(prefix.last() == suite@[i as int]);
        }
        let verdict = execute_test_unit(&suite.get(i).unit);
        if verdict.is_err() {
            proof {
                lemma_run_suite_stops(suite@, i + 1);
            }
            return verdict;
        }
        i = i + 1;
    }
    assert(suite@.take(i as int) =~= suite@);
    Ok(())
}

/// Once a unit has failed, the units after it change nothing.
pub proof fn lemma_run_suite_stops(units: Seq<NamedUnitView>, k: int)
    requires
        0 <= k <= units.len(),
        spec_run_suite(units.take(k)) is Err,
    ensures
        spec_run_suite(units) == spec_run_suite(units.take(k)),
    decreases units.len() - k,
{
    if k < units.len() {
        assert(units.take(k + 1).drop_last() =~= units.take(k));
        lemma_run_suite_stops(units, k + 1);
    } else {
        assert(units.take(k) =~= units);
    }
}

} // verus!
