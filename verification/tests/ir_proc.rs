use gpu_backend::ir_proc::{count_type, slice_run, FieldShape};

fn field(elems: usize) -> FieldShape {
    FieldShape { elems, has_type_attr: false }
}

fn typed(elems: usize) -> FieldShape {
    FieldShape { elems, has_type_attr: true }
}

#[test]
fn elements_of_a_type() {
    // the searched type itself
    assert_eq!(count_type(true, &[]), Some(1));
    // another type, whatever it is an array of
    assert_eq!(count_type(false, &[]), Some(0));
    assert_eq!(count_type(false, &[3, 2]), Some(0));
    // arrays multiply
    assert_eq!(count_type(true, &[3]), Some(3));
    assert_eq!(count_type(true, &[3, 2]), Some(6));
    assert_eq!(count_type(true, &[2, 3, 4]), Some(24));
    // an empty array holds nothing, however long the others are
    assert_eq!(count_type(true, &[0]), Some(0));
    assert_eq!(count_type(true, &[usize::MAX, usize::MAX, 0]), Some(0));
    assert_eq!(count_type(true, &[0, usize::MAX, usize::MAX]), Some(0));
    // what does not fit the word
    assert_eq!(count_type(true, &[usize::MAX, 1]), Some(usize::MAX));
    assert_eq!(count_type(true, &[usize::MAX, 2]), None);
    assert_eq!(count_type(true, &[2, usize::MAX / 2 + 1]), None);
}

#[test]
fn no_field_of_the_type() {
    assert_eq!(slice_run(&[]), Ok(None));
    assert_eq!(slice_run(&[field(0), field(0)]), Ok(None));
}

#[test]
fn one_run_of_fields() {
    assert_eq!(slice_run(&[field(1)]), Ok(Some((0, 1))));
    assert_eq!(slice_run(&[field(2), field(1)]), Ok(Some((0, 3))));
    assert_eq!(slice_run(&[field(0), field(1), field(2), field(0)]), Ok(Some((1, 3))));
    assert_eq!(slice_run(&[field(0), field(0), typed(4)]), Ok(Some((2, 4))));
    assert_eq!(slice_run(&[typed(1), field(3), typed(1), field(0), field(0)]), Ok(Some((0, 5))));
}

#[test]
fn fields_apart_are_refused() {
    assert_eq!(slice_run(&[field(1), field(0), field(1)]), Err(2));
    assert_eq!(slice_run(&[field(0), field(2), field(0), field(0), field(1), field(1)]), Err(4));
}

#[test]
fn a_type_attribute_needs_an_element() {
    assert_eq!(slice_run(&[typed(0)]), Err(0));
    assert_eq!(slice_run(&[field(1), typed(0), field(1)]), Err(1));
    assert_eq!(slice_run(&[field(1), field(0), typed(0)]), Err(2));
    // the first field that breaks the rule is named
    assert_eq!(slice_run(&[field(1), field(0), field(1), typed(0)]), Err(2));
}
