//! The layout rule behind the slices of an operation's sources and
//! destinations: the fields of the element type have to lie next to
//! each other in the struct, so that one slice can span them all.
//!
//! The struct is taken field by field, each as the number of elements
//! that it holds and whether it carries a type attribute.

use vstd::prelude::*;

verus! {

/// What the layout rule reads of one field of a struct.
#[derive(Clone, Copy, Debug, PartialEq, Eq)]
pub struct FieldShape {
    /// The number of elements of the searched type that the field
    /// holds: 0 for a field of another type.
    pub elems: usize,
    /// The field carries a type attribute.
    pub has_type_attr: bool,
}

/// The product of the first `n` lengths.
pub open spec fn lens_product(lens: Seq<usize>, n: int) -> int
    decreases n,
{
    if n <= 0 {
        1
    } else {
        lens_product(lens, n - 1) * lens[n - 1]
    }
}

/// The number of elements of the searched type in a type that is an
/// array of arrays, `lens` deep, of some innermost type: the product of
/// the lengths if the innermost type is the searched one, else 0.
pub open spec fn type_count(is_elem: bool, lens: Seq<usize>) -> int {
    if is_elem {
        lens_product(lens, lens.len() as int)
    } else {
        0
    }
}

/// A product with a factor 0 is 0.
pub proof fn lemma_lens_product_zero(lens: Seq<usize>, n: int, k: int)
    requires
        0 <= k < n <= lens.len(),
        lens[k] == 0,
    ensures
        lens_product(lens, n) == 0,
    decreases n,
{
    if k == n - 1 {
        assert(lens_product(lens, n - 1) * 0 == 0) by (nonlinear_arith);
    } else {
        lemma_lens_product_zero(lens, n - 1, k);
        assert(0 * lens[n - 1] == 0) by (nonlinear_arith);
    }
}

/// A product grows with every factor that is not 0.
pub proof fn lemma_lens_product_grows(lens: Seq<usize>, m: int, n: int)
    requires
        0 <= m <= n <= lens.len(),
        forall|k: int| 0 <= k < n ==> lens[k] >= 1,
    ensures
        1 <= lens_product(lens, m) <= lens_product(lens, n),
    decreases n,
{
    if n > 0 {
        if m == n {
            lemma_lens_product_grows(lens, m - 1, n - 1);
        } else {
            lemma_lens_product_grows(lens, m, n - 1);
        }
        assert(lens_product(lens, n - 1) * lens[n - 1] >= lens_product(lens, n - 1))
            by (nonlinear_arith)
            requires
                lens_product(lens, n - 1) >= 1,
                lens[n - 1] >= 1,
        ;
    }
}

/// Counts the elements of the searched type in a type: an array of
/// arrays with the lengths `lens`, outermost first, of an innermost
/// type that is the searched one or not.  `None` if the number does not
/// fit the machine word.
pub fn count_type(is_elem: bool, lens: &[usize]) -> (r: Option<usize>)
    ensures
        r == (if type_count(is_elem, lens@) <= usize::MAX {
            Some(type_count(is_elem, lens@) as usize)
        } else {
            None::<usize>
        }),
{
    if !is_elem {
        return Some(0);
    }
    let mut k: usize = 0;
    while k < lens.len()
        invariant
            k <= lens@.len(),
            forall|j: int| 0 <= j < k ==> lens@[j] >= 1,
        decreases lens@.len() - k,
    {
        if lens[k] == 0 {
            proof {
                lemma_lens_product_zero(lens@, lens@.len() as int, k as int);
            }
            return Some(0);
        }
        k = k + 1;
    }
    let mut count: usize = 1;
    let mut i: usize = 0;
    while i < lens.len()
        invariant
            i <= lens@.len(),
            is_elem,
            forall|j: int| 0 <= j < lens@.len() ==> lens@[j] >= 1,
            count == lens_product(lens@, i as int),
        decreases lens@.len() - i,
    {
        proof {
            lemma_lens_product_grows(lens@, i + 1, lens@.len() as int);
            assert(lens_product(lens@, i + 1) == lens_product(lens@, i as int) * lens@[i as int]);
        }
        count = match count.checked_mul(lens[i]) {
            Some(c) => c,
            None => {
                return None;
            },
        };
        i = i + 1;
    }
    Some(count)
}

/// The number of elements in the first `n` fields.
pub open spec fn elems_sum(fields: Seq<FieldShape>, n: int) -> int
    decreases n,
{
    if n <= 0 {
        0
    } else {
        elems_sum(fields, n - 1) + fields[n - 1].elems
    }
}

/// Before field `i`, a field without elements follows one with
/// elements: the run of the fields with elements has ended.
pub open spec fn run_ended_before(fields: Seq<FieldShape>, i: int) -> bool {
    exists|j: int, k: int|
        0 <= j < k < i && (#[trigger] fields[j]).elems > 0 && (#[trigger] fields[k]).elems == 0
}

/// Field `i` breaks the layout rule: it holds elements after the run
/// has ended, or it holds none and carries a type attribute.
pub open spec fn misplaced(fields: Seq<FieldShape>, i: int) -> bool {
    if fields[i].elems > 0 {
        run_ended_before(fields, i)
    } else {
        fields[i].has_type_attr
    }
}

/// The fields with elements are those from `first` up to `end`.
pub open spec fn is_run(fields: Seq<FieldShape>, first: int, end: int) -> bool {
    &&& 0 <= first < end <= fields.len()
    &&& forall|i: int| 0 <= i < fields.len() ==> ((#[trigger] fields[i]).elems > 0 <==> first <= i < end)
}

/// The fields with elements are one run that starts at `first`.
pub open spec fn run_from(fields: Seq<FieldShape>, first: int) -> bool {
    exists|end: int| is_run(fields, first, end)
}

/// The sum of the elements grows with the fields.
pub proof fn lemma_elems_sum_grows(fields: Seq<FieldShape>, m: int, n: int)
    requires
        0 <= m <= n,
    ensures
        0 <= elems_sum(fields, m) <= elems_sum(fields, n),
    decreases n,
{
    if m < n {
        lemma_elems_sum_grows(fields, m, n - 1);
    } else if n > 0 {
        lemma_elems_sum_grows(fields, m - 1, n - 1);
    }
}

/// Finds the run of the fields that hold elements.
///
/// `Ok(None)`: no field holds an element, and none carries a type
/// attribute.  `Ok(Some((first, count)))`: the fields with elements are
/// one run that starts at field `first`, they hold `count` elements in
/// all, and no other field carries a type attribute.  `Err(i)`: field
/// `i` is the first that breaks the rule.
pub fn slice_run(fields: &[FieldShape]) -> (r: Result<Option<(usize, usize)>, usize>)
    requires
        elems_sum(fields@, fields@.len() as int) <= usize::MAX,
    ensures
        r matches Ok(None) ==> (forall|i: int|
            0 <= i < fields@.len() ==> (#[trigger] fields@[i]).elems == 0
                && !fields@[i].has_type_attr),
        r matches Ok(Some(run)) ==> (run_from(fields@, run.0 as int)
            && run.1 == elems_sum(fields@, fields@.len() as int) && (forall|i: int|
            0 <= i < fields@.len() && (#[trigger] fields@[i]).has_type_attr ==> fields@[i].elems
                > 0)),
        r matches Err(i) ==> (0 <= i < fields@.len() && misplaced(fields@, i as int) && (forall|j: int|
            0 <= j < i ==> !misplaced(fields@, j))),
        r is Ok <==> (forall|i: int| 0 <= i < fields@.len() ==> !misplaced(fields@, i)),
{
    let mut first: Option<usize> = None;
    let mut count: usize = 0;
    let mut found_last: bool = false;
    let ghost mut gap: int = 0;
    let mut i: usize = 0;
    while i < fields.len()
        invariant
            i <= fields@.len(),
            elems_sum(fields@, fields@.len() as int) <= usize::MAX,
            count == elems_sum(fields@, i as int),
            forall|j: int| 0 <= j < i ==> !misplaced(fields@, j),
            first is None ==> !found_last && (forall|j: int|
                0 <= j < i ==> (#[trigger] fields@[j]).elems == 0),
            first matches Some(f) ==> f < i && fields@[f as int].elems > 0 && (forall|j: int|
                0 <= j < f ==> (#[trigger] fields@[j]).elems == 0),
            first matches Some(f) ==> (!found_last ==> (forall|j: int|
                f <= j < i ==> (#[trigger] fields@[j]).elems > 0)),
            first matches Some(f) ==> (found_last ==> f < gap < i && (forall|j: int|
                f <= j < gap ==> (#[trigger] fields@[j]).elems > 0) && (forall|j: int|
                gap <= j < i ==> (#[trigger] fields@[j]).elems == 0)),
        decreases fields@.len() - i,
    {
        proof {
            lemma_elems_sum_grows(fields@, i + 1, fields@.len() as int);
            lemma_elems_sum_grows(fields@, i as int, i + 1);
        }
        let field = fields[i];
        if field.elems > 0 {
            if found_last {
                proof {
                    let f = first.unwrap() as int;
                    assert(fields@[f].elems > 0 && fields@[gap].elems == 0);
                    assert(run_ended_before(fields@, i as int));
                    assert(misplaced(fields@, i as int));
                }
                return Err(i);
            }
            if first.is_none() {
                first = Some(i);
            }
            count = count + field.elems;
        } else {
            if field.has_type_attr {
                assert(misplaced(fields@, i as int));
                return Err(i);
            }
            if first.is_some() && !found_last {
                found_last = true;
                proof {
                    gap = i as int;
                }
            }
        }
        i = i + 1;
    }
    match first {
        Some(f) => {
            proof {
                let end = if found_last {
                    gap
                } else {
                    fields@.len() as int
                };
                assert(is_run(fields@, f as int, end));
                assert(run_from(fields@, f as int));
                assert forall|k: int|
                    0 <= k < fields@.len() && (#[trigger] fields@[k]).has_type_attr implies fields@[k].elems
                    > 0 by {
                    assert(!misplaced(fields@, k));
                }
            }
            Ok(Some((f, count)))
        },
        None => {
            proof {
                assert forall|k: int| 0 <= k < fields@.len() implies (#[trigger] fields@[k]).elems
                    == 0 && !fields@[k].has_type_attr by {
                    assert(!misplaced(fields@, k));
                }
            }
            Ok(None)
        },
    }
}

} // verus!
