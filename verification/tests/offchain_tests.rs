use nodara::offchain::{parallel_data_aggregation, parallel_sum};

#[test]
fn test_parallel_sum() {
    let data = vec![1, 2, 3, 4, 5];
    let sum = parallel_sum(data);
    assert_eq!(sum, 15);
}

#[test]
fn test_parallel_data_aggregation() {
    let datasets = vec![
        vec![1, 2, 3],
        vec![4, 5, 6],
        vec![7, 8, 9]
    ];
    let total = parallel_data_aggregation(datasets);
    // Sum of each dataset: 6, 15, 24 => Total = 45
    assert_eq!(total, 45);
}

#[test]
fn sums_of_empty_inputs_are_zero() {
    assert_eq!(parallel_sum(Vec::new()), 0);
    assert_eq!(parallel_data_aggregation(Vec::new()), 0);
    assert_eq!(parallel_data_aggregation(vec![Vec::new(), Vec::new()]), 0);
}

#[test]
fn byte_sum_handles_maximal_bytes() {
    assert_eq!(parallel_sum(vec![255u8; 1000]), 255_000);
}
