use fp_kernel::compose;
use fp_kernel::curry_add;
use fp_kernel::factorial;
use fp_kernel::get_human_name;
use fp_kernel::square;
use fp_kernel::sum;
use fp_kernel::Human;
use fp_kernel::Optional;
use fp_kernel::Outcome;

#[test]
fn factorial_of_zero_is_one() {
    assert_eq!(factorial(0), 1);
}

#[test]
fn factorial_of_one_is_one() {
    assert_eq!(factorial(1), 1);
}

#[test]
fn factorial_of_five() {
    assert_eq!(factorial(5), 120);
}

#[test]
fn map_doubles_each_element() {
    let numbers = vec![1, 2, 3, 4, 5];
    let doubled = fp_kernel::seq_ops::map(numbers, |x: i32| x * 2);
    assert_eq!(doubled, vec![2, 4, 6, 8, 10]);
}

#[test]
fn map_keeps_length_and_order() {
    let numbers = vec![7, -2, 0, 13];
    let shifted = fp_kernel::seq_ops::map(numbers.clone(), |x: i32| x + 10);
    assert_eq!(shifted.len(), numbers.len());
    for i in 0..numbers.len() {
        assert_eq!(shifted[i], numbers[i] + 10);
    }
}

#[test]
fn map_of_empty_is_empty() {
    let empty: Vec<i32> = vec![];
    let mapped = fp_kernel::seq_ops::map(empty, |x: i32| x * 2);
    assert!(mapped.is_empty());
}

#[test]
fn square_of_four() {
    assert_eq!(square(4), 16);
}

#[test]
fn square_of_negative_three() {
    assert_eq!(square(-3), 9);
}

#[test]
fn compose_applies_add_one_then_cube() {
    let numbers = vec![1, 2, 3, 4, 5];
    let cube = |x: i32| x * x * x;
    let add_one = |x: i32| x + 1;
    let result = compose(numbers, cube, add_one);
    assert_eq!(result, vec![8, 27, 64, 125, 216]);
}

#[test]
fn sum_of_empty_is_zero() {
    assert_eq!(sum(vec![]), 0);
}

#[test]
fn sum_of_one_through_five() {
    assert_eq!(sum(vec![1, 2, 3, 4, 5]), 15);
}

#[test]
fn curried_add_five_applied_to_three() {
    let add_five = curry_add(5);
    assert_eq!(add_five(3), 8);
}

#[test]
fn curried_function_is_reusable_across_calls() {
    let add_five = curry_add(5);
    assert_eq!(add_five(3), 8);
    assert_eq!(add_five(100), 105);
    assert_eq!(add_five(3), 8);
}

#[test]
fn optional_renders_tag_and_payload() {
    let opt: Optional<i32> = Optional::Present(42);
    assert_eq!(format!("{:?}", opt), "Present(42)");
    let none: Optional<i32> = Optional::Absent;
    assert_eq!(format!("{:?}", none), "Absent");
}

#[test]
fn outcome_renders_tag_and_payload() {
    let res: Outcome<i32, String> = Outcome::Success(42);
    assert_eq!(format!("{:?}", res), "Success(42)");
    let err: Outcome<i32, String> = Outcome::Failure("boom".to_string());
    assert_eq!(format!("{:?}", err), "Failure(\"boom\")");
}

#[test]
fn get_human_name_of_present_record() {
    let human = Optional::Present(Human { name: "Sura".to_string() });
    assert_eq!(get_human_name(human), "Sura");
}

#[test]
fn get_human_name_of_absent_record() {
    assert_eq!(get_human_name(Optional::Absent), "No human found");
}
