use crate::model::{cc_pairs, padded, ParameterView, ProjectView, StateView};
use vstd::prelude::*;

verus! {

/// Padding covers: padded values have at least as many entries as asked
/// for, and padding twice is padding once.
pub proof fn lemma_padded_covers(values: Seq<u8>, n: nat)
    ensures
        padded(values, n).len() >= n,
        padded(values, n).len() >= values.len(),
        padded(padded(values, n), n) == padded(values, n),
        forall|i: int| 0 <= i < values.len() ==> padded(values, n)[i] == values[i],
{
}

/// A snap that was selected has a value for every parameter.
pub proof fn lemma_selected_snap_is_covered(s: StateView, b: int, snap: int)
    requires
        s.snap_error(b, snap) is None,
    ensures
        s.select_snap(b, snap).project.snap(b, snap).values.len()
            >= s.select_snap(b, snap).project.parameters.len(),
{
}

/// Selecting a snap leaves every snap with a value for every parameter, if
/// that held before.
pub proof fn lemma_select_keeps_covered(s: StateView, b: int, snap: int)
    requires
        s.snap_error(b, snap) is None,
        s.project.covered(),
    ensures
        s.select_snap(b, snap).project.covered(),
{
    let after = s.select_snap(b, snap).project;
    assert forall|bi: int, si: int| after.has_snap(bi, si) implies (#[trigger] after.snap(
        bi,
        si,
    )).values.len() >= after.parameters.len() by {
        if bi == b && si == snap {
        } else if bi == b {
            assert(after.snap(bi, si) == s.project.snap(bi, si));
        } else {
            assert(after.snap(bi, si) == s.project.snap(bi, si));
        }
    }
}

/// A snap whose parameter was edited has a value for every parameter, and
/// the edited one has the value given.
pub proof fn lemma_edited_snap_is_covered(s: StateView, p: int, value: u8)
    requires
        s.edit_error(p) is None,
    ensures
        ({
            let after = s.edit_parameter(p, value).project;
            let snap = after.snap(s.current_bank as int, s.current_snap as int);
            snap.values.len() >= after.parameters.len() && snap.values[p] == value
        }),
{
}

/// Editing a parameter leaves every snap with a value for every parameter,
/// if that held before.
pub proof fn lemma_edit_keeps_covered(s: StateView, p: int, value: u8)
    requires
        s.edit_error(p) is None,
        s.project.covered(),
    ensures
        s.edit_parameter(p, value).project.covered(),
{
    let b = s.current_bank as int;
    let snap = s.current_snap as int;
    let after = s.edit_parameter(p, value).project;
    assert forall|bi: int, si: int| after.has_snap(bi, si) implies (#[trigger] after.snap(
        bi,
        si,
    )).values.len() >= after.parameters.len() by {
        if bi == b && si == snap {
        } else {
            assert(after.snap(bi, si) == s.project.snap(bi, si));
        }
    }
}

/// After a parameter was added, every snap of every bank has a value for
/// every parameter, whatever it had before, and the new parameter's value is
/// the mid-point wherever the snap had none for it.
pub proof fn lemma_add_parameter_covers(project: ProjectView, parameter: ParameterView)
    ensures
        project.add_parameter(parameter).covered(),
        project.add_parameter(parameter).parameters.len() == project.parameters.len() + 1,
{
    let after = project.add_parameter(parameter);
    assert forall|bi: int, si: int| after.has_snap(bi, si) implies (#[trigger] after.snap(
        bi,
        si,
    )).values.len() >= after.parameters.len() by {
        let before = project.banks[bi].snaps[si];
        assert(after.snap(bi, si).values == padded(before.values, after.parameters.len()));
    }
}

/// Selecting a snap, then any other, then the first again sends the first
/// snap's values both times.
pub proof fn lemma_reselect_sends_the_same(s: StateView, b: int, x: int, b2: int, y: int)
    requires
        s.snap_error(b, x) is None,
        s.snap_error(b2, y) is None,
    ensures
        ({
            let first = s.select_snap(b, x);
            let again = first.select_snap(b2, y).select_snap(b, x);
            cc_pairs(first.project.parameters, first.project.snap(b, x).values) == cc_pairs(
                again.project.parameters,
                again.project.snap(b, x).values,
            )
        }),
{
    let first = s.select_snap(b, x);
    let other = first.select_snap(b2, y);
    let again = other.select_snap(b, x);
    let n = s.project.parameters.len();
    lemma_padded_covers(s.project.snap(b, x).values, n);
    assert(other.project.snap(b, x).values == first.project.snap(b, x).values) by {
        if b2 == b && y == x {
            lemma_padded_covers(first.project.snap(b, x).values, n);
        }
    }
    assert(again.project.snap(b, x).values == first.project.snap(b, x).values);
}

} // verus!
