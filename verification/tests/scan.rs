use fquack::errors::FqError;
use fquack::scan::{init, init_from_bytes, produce, RecordBatch, ResourceHandle};
use fquack::schema::ScanParams;

fn records(count: usize) -> Vec<u8> {
    let mut data = Vec::new();
    for i in 0..count {
        data.extend_from_slice(format!("@read{}\nACGTA\n+\nIIIII\n", i).as_bytes());
    }
    data
}

fn rows_of(batch: &RecordBatch) -> Vec<(String, String, String)> {
    let mut rows = Vec::new();
    for i in 0..batch.num_rows() {
        rows.push((
            batch.metadata[i].clone(),
            batch.sequence[i].clone(),
            batch.quality[i].clone(),
        ));
    }
    rows
}

fn drain(handle: &mut ResourceHandle, capacity: usize) -> (Vec<usize>, Vec<(String, String, String)>) {
    let mut counts = Vec::new();
    let mut rows = Vec::new();
    loop {
        let batch = produce(handle, capacity).expect("clean scan must not fail");
        let n = batch.num_rows();
        counts.push(n);
        rows.extend(rows_of(&batch));
        if n == 0 {
            return (counts, rows);
        }
    }
}

#[test]
fn empty_input_first_call_reports_zero() {
    let mut handle = init_from_bytes(Vec::new());
    let batch = produce(&mut handle, 16).expect("empty input is not an error");
    assert_eq!(batch.num_rows(), 0);
    assert_eq!(batch.metadata.len(), 0);
    assert_eq!(batch.sequence.len(), 0);
    assert_eq!(batch.quality.len(), 0);
}

#[test]
fn single_record_then_terminal_zero() {
    let mut handle = init_from_bytes(b"@read1 extra description\nACGT\n+\nIIII\n".to_vec());
    let batch = produce(&mut handle, 10).expect("first call");
    assert_eq!(batch.num_rows(), 1);
    assert_eq!(batch.metadata[0], "read1");
    assert_eq!(batch.sequence[0], "ACGT");
    assert_eq!(batch.quality[0], "IIII");
    let batch = produce(&mut handle, 10).expect("terminal call");
    assert_eq!(batch.num_rows(), 0);
}

#[test]
fn ten_records_capacity_five_reports_five_five_zero() {
    let mut handle = init_from_bytes(records(10));
    let (counts, rows) = drain(&mut handle, 5);
    assert_eq!(counts, vec![5, 5, 0]);
    assert_eq!(rows.len(), 10);
    assert_eq!(rows[7].0, "read7");
}

#[test]
fn counts_sum_to_record_total_and_stay_in_range() {
    let mut handle = init_from_bytes(records(7));
    let (counts, rows) = drain(&mut handle, 3);
    assert_eq!(counts, vec![3, 3, 1, 0]);
    assert_eq!(counts.iter().sum::<usize>(), 7);
    assert_eq!(counts.last(), Some(&0));
    for &n in &counts[..counts.len() - 1] {
        assert!(1 <= n && n <= 3);
    }
    assert_eq!(rows.len(), 7);
}

#[test]
fn terminal_zero_is_idempotent() {
    let mut handle = init_from_bytes(records(2));
    let (counts, _) = drain(&mut handle, 8);
    assert_eq!(counts, vec![2, 0]);
    for _ in 0..3 {
        let batch = produce(&mut handle, 8).expect("exhausted calls still succeed");
        assert_eq!(batch.num_rows(), 0);
    }
}

#[test]
fn rerun_yields_identical_rows_whatever_the_capacity() {
    let data = records(9);
    let mut first = init_from_bytes(data.clone());
    let mut second = init_from_bytes(data);
    let (_, rows_first) = drain(&mut first, 4);
    let (_, rows_second) = drain(&mut second, 2);
    assert_eq!(rows_first, rows_second);
    assert_eq!(rows_first.len(), 9);
}

#[test]
fn corrupt_record_fails_with_format_error() {
    let mut data = records(2);
    data.extend_from_slice(b"no_marker\nACGT\n+\nIIII\n");
    let mut handle = init_from_bytes(data);
    let result = produce(&mut handle, 10);
    match result {
        Err(FqError::Format(message)) => assert!(!message.is_empty()),
        _ => panic!("a corrupt record must surface as a format error"),
    }
}

#[test]
fn records_before_the_corrupt_one_still_come_out() {
    let mut data = records(2);
    data.extend_from_slice(b"no_marker\nACGT\n+\nIIII\n");
    let mut handle = init_from_bytes(data);
    let batch = produce(&mut handle, 2).expect("the first batch stops before the corruption");
    assert_eq!(batch.num_rows(), 2);
    let result = produce(&mut handle, 2);
    assert!(matches!(result, Err(FqError::Format(_))));
}

#[test]
fn unequal_sequence_and_quality_lengths_fail() {
    let mut handle = init_from_bytes(b"@read1\nACGT\n+\nII\n".to_vec());
    let result = produce(&mut handle, 4);
    assert!(matches!(result, Err(FqError::Format(_))));
}

#[test]
fn nonexistent_file_fails_with_io_error() {
    let params = ScanParams {
        filename: "/nonexistent/path/that/is/not/there.fastq".to_string(),
    };
    match init(&params) {
        Err(FqError::Io(message)) => assert!(!message.is_empty()),
        _ => panic!("a missing file must surface as an i/o error"),
    }
}

#[test]
fn invalid_bytes_are_replaced_not_rejected() {
    let mut data = b"@read1\nAC".to_vec();
    data.push(0xff);
    data.extend_from_slice(b"GT\n+\nIIIII\n");
    let mut handle = init_from_bytes(data);
    let batch = produce(&mut handle, 4).expect("lossy decoding never rejects");
    assert_eq!(batch.num_rows(), 1);
    assert_eq!(batch.sequence[0], "AC\u{fffd}GT");
    assert_eq!(batch.metadata[0], "read1");
}

#[test]
fn capacity_one_hands_records_out_one_by_one() {
    let mut handle = init_from_bytes(records(3));
    let (counts, rows) = drain(&mut handle, 1);
    assert_eq!(counts, vec![1, 1, 1, 0]);
    assert_eq!(rows[0].0, "read0");
    assert_eq!(rows[2].0, "read2");
}
