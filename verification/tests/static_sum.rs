use outro_08::threads::{split_halves, sub_sum, sum};

#[test]
fn empty() {
    let array: [i32; 0] = [];
    assert_eq!(sum(&array), 0);
}

#[test]
fn one() {
    let array: [i32; 1] = [1];
    assert_eq!(sum(&array), 1);
}

#[test]
fn five() {
    let array: [i32; 5] = [1, 2, 3, 4, 5];
    assert_eq!(sum(&array), 15);
}

#[test]
fn nine() {
    let array: [i32; 9] = [1, 2, 3, 4, 5, 6, 7, 8, 9];
    assert_eq!(sum(&array), 45);
}

#[test]
fn ten() {
    let array: [i32; 10] = [1, 2, 3, 4, 5, 6, 7, 8, 9, 10];
    assert_eq!(sum(&array), 55);
}

#[test]
fn sub_sum_adds_every_value() {
    assert_eq!(sub_sum(vec![3, -7, 10]), 6);
    assert_eq!(sub_sum(vec![]), 0);
}

#[test]
fn halves_split_at_the_middle() {
    let array: [i32; 5] = [1, 2, 3, 4, 5];
    let (first, second) = split_halves(&array);
    assert_eq!(first, vec![1, 2]);
    assert_eq!(second, vec![3, 4, 5]);
}

#[test]
fn sum_of_halves_equals_sum_of_whole() {
    let array: [i32; 7] = [i32::MAX, -5, i32::MIN, 8, 9, -1, 2];
    let (first, second) = split_halves(&array);
    let total: i64 = array.iter().map(|v| *v as i64).sum();
    assert_eq!(sub_sum(first) as i64 + sub_sum(second) as i64, total);
    assert_eq!(sum(&array) as i64, total);
}

#[test]
fn reordering_keeps_the_sum() {
    assert_eq!(sub_sum(vec![5, -3, 9, 1]), sub_sum(vec![1, 9, 5, -3]));
    assert_eq!(sum(&[4, 8, -2, 7, 7]), sum(&[7, -2, 7, 4, 8]));
}

#[test]
fn checked_sum_refuses_an_overflowing_running_total() {
    assert_eq!(outro_08::threads::try_sub_sum(&vec![1, 2, 3]), Some(6));
    assert_eq!(outro_08::threads::try_sub_sum(&vec![i32::MAX, 1, -5]), None);
    assert_eq!(outro_08::threads::try_sub_sum(&vec![i32::MIN, -1]), None);
    assert_eq!(outro_08::threads::try_sub_sum(&vec![]), Some(0));
}
