use linear_type::Linear;

#[test]
fn wrap_then_destructure_returns_value() {
    let linear = Linear::new(123);
    assert_eq!(linear.into_inner(), 123);
}

#[test]
fn wrap_then_destructure_returns_owned_value() {
    let linear = Linear::new(String::from("payload"));
    assert_eq!(linear.into_inner(), "payload");
}

#[test]
fn get_ref_observes_without_consuming() {
    let linear = Linear::new(123);
    assert_eq!(linear.get_ref(), &123);
    assert_eq!(linear.into_inner(), 123);
}

#[test]
fn map_integer_to_string() {
    let number = Linear::new(5);
    let string = number.map(|x| x.to_string());
    assert_eq!(string.into_inner(), "5");
}

#[test]
fn map_chains_through_several_steps() {
    let number = Linear::new(123);
    let string = number.map(|x| x.to_string());
    assert_eq!(string.into_inner(), "123");
}

#[test]
fn inspect_observes_and_keeps_the_cell_live() {
    let mut seen = 0;
    let cell = Linear::new(7).inspect(|x| seen = *x);
    assert_eq!(seen, 7);
    assert_eq!(cell.into_inner(), 7);
}

#[test]
fn destroy_ends_the_chain_silently() {
    let cell = Linear::new(vec![1, 2, 3]);
    cell.destroy();
}

#[test]
fn map_ok_transforms_the_ok_branch() {
    let result = Linear::new(Ok::<i32, String>(2));
    let mapped = result.map_ok(|x| Ok(x + 1));
    assert_eq!(mapped.into_inner(), Ok(3));
}

#[test]
fn map_ok_retains_an_err_without_invoking_the_function() {
    let result = Linear::new(Err::<i32, String>(String::from("kept")));
    let mapped = result.map_ok(|_x| -> Result<i32, String> { unreachable!() });
    assert_eq!(mapped.into_inner(), Err(String::from("kept")));
}

#[test]
fn map_err_transforms_the_err_branch() {
    let result = Linear::new(Err::<i32, String>(String::from("oops")));
    let mapped = result.map_err(|e| Err(e.len()));
    assert_eq!(mapped.into_inner(), Err(4));
}

#[test]
fn map_err_retains_an_ok_without_invoking_the_function() {
    let result = Linear::new(Ok::<i32, String>(2));
    let mapped = result.map_err(|_e| -> Result<i32, usize> { unreachable!() });
    assert_eq!(mapped.into_inner(), Ok(2));
}

#[test]
fn unwrap_ok_extracts_the_ok_value() {
    let result = Linear::new(Ok::<i32, String>(9));
    assert_eq!(result.unwrap_ok().into_inner(), 9);
}

#[test]
fn unwrap_err_extracts_the_err_value() {
    let result = Linear::new(Err::<i32, String>(String::from("oops")));
    assert_eq!(result.unwrap_err().into_inner(), "oops");
}

#[test]
fn map_some_transforms_the_present_value() {
    let option = Linear::new(Some(123));
    let mapped = option.map_some(|x| Some(x.to_string()));
    assert_eq!(mapped.unwrap_some().into_inner(), "123");
}

#[test]
fn map_some_retains_a_none_without_invoking_the_function() {
    let option = Linear::new(None::<i32>);
    let mapped = option.map_some(|_x| -> Option<String> { unreachable!() });
    assert_eq!(mapped.into_inner(), None);
}

#[test]
fn or_else_supplies_a_fallback_for_none() {
    let option = Linear::new(None);
    let mapped = option.or_else(|| Some(123));
    assert_eq!(mapped.unwrap_some().into_inner(), 123);
}

#[test]
fn or_else_retains_a_some_without_invoking_the_function() {
    let option = Linear::new(Some(7));
    let mapped = option.or_else(|| -> Option<i32> { unreachable!() });
    assert_eq!(mapped.into_inner(), Some(7));
}

#[test]
fn unwrap_some_extracts_the_present_value() {
    let option = Linear::new(Some(123));
    let unwrapped = option.unwrap_some();
    assert_eq!(unwrapped.into_inner(), 123);
}

#[test]
fn splice_splits_one_cell_into_two() {
    let cell = Linear::new(String::from("foobar"));
    let (left, right) = cell.splice(|s| {
        let (a, b) = s.split_at(3);
        (a.to_string(), b.to_string())
    });
    assert_eq!(left.into_inner(), "foo");
    assert_eq!(right.into_inner(), "bar");
}

#[test]
fn splice_then_merge_round_trips() {
    let cell = Linear::new(String::from("foobar"));
    let (left, right) = cell.splice(|s| {
        let (a, b) = s.split_at(3);
        (a.to_string(), b.to_string())
    });
    let merged = left.merge(right, |a, b| a + &b);
    assert_eq!(merged.into_inner(), "foobar");
}

#[test]
fn merge_consumes_two_cells_together() {
    let a = Linear::new(2);
    let b = Linear::new(40);
    let sum = a.merge(b, |x, y| x + y);
    assert_eq!(sum.into_inner(), 42);
}
