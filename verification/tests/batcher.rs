use loadgen::batcher::split;

#[test]
fn it_should_return_() {
    let input = vec![1, 2, 3, 4, 5];
    let mut splits = split(input, 3);

    let batch2: Vec<i32> = splits.pop().unwrap();
    let batch1: Vec<i32> = splits.pop().unwrap();
    let batch0: Vec<i32> = splits.pop().unwrap();

    assert_eq!(vec![1, 4], batch0);
    assert_eq!(vec![2, 5], batch1);
    assert_eq!(vec![3], batch2);
}

#[test]
fn it_should_run_2() {
    let input = vec![1, 2, 3, 4];
    let mut splits = split(input, 2);

    let batch1: Vec<i32> = splits.pop().unwrap();
    let batch0: Vec<i32> = splits.pop().unwrap();

    assert_eq!(vec![1, 3], batch0);
    assert_eq!(vec![2, 4], batch1);
}

#[test]
fn more_batches_than_elements_leaves_some_empty() {
    let input = vec![7, 8];
    let splits = split(input, 4);

    assert_eq!(4, splits.len());
    assert_eq!(vec![7], splits[0]);
    assert_eq!(vec![8], splits[1]);
    assert!(splits[2].is_empty());
    assert!(splits[3].is_empty());
}

#[test]
fn one_batch_keeps_the_whole_input_in_order() {
    let input = vec![9, 3, 5, 1];
    let splits = split(input, 1);

    assert_eq!(1, splits.len());
    assert_eq!(vec![9, 3, 5, 1], splits[0]);
}

#[test]
fn batches_partition_the_input_with_balanced_sizes() {
    let n = 23usize;
    let k = 5usize;
    let input: Vec<usize> = (0..n).collect();
    let splits = split(input, k);

    assert_eq!(k, splits.len());
    let mut seen = vec![false; n];
    for batch in &splits {
        for &e in batch {
            assert!(!seen[e], "element assigned to two batches");
            seen[e] = true;
        }
    }
    assert!(seen.iter().all(|&s| s), "element omitted from every batch");
    let max = splits.iter().map(|b| b.len()).max().unwrap();
    let min = splits.iter().map(|b| b.len()).min().unwrap();
    assert!(max - min <= 1);
}
