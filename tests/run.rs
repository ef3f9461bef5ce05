use face_dataset_generator::batch::{BatchProgress, FileOutcome};
use face_dataset_generator::region::Region;

fn face(x: i32) -> Region {
    Region { x, y: 10, width: 60, height: 60, score_bits: 3.0f64.to_bits() }
}

/// Extracts what `faces_to_extract` selects, as the driver does when every
/// save succeeds; returns the sequence numbers used.
fn extract_file(progress: &mut BatchProgress, regions: &Vec<Region>) -> Vec<usize> {
    let mut used = Vec::new();
    for _face in progress.faces_to_extract(regions, 200, 200) {
        assert!(!progress.target_reached());
        let next = progress.next_sequence();
        let sequence = progress.record_extraction();
        assert_eq!(next, sequence);
        used.push(sequence);
    }
    progress.finish_file(FileOutcome::Completed);
    used
}

#[test]
fn run_stops_at_the_target() {
    let files = vec![vec![face(0), face(1)], vec![face(2), face(3), face(4)], vec![face(5)]];
    let mut progress = BatchProgress::new(3);
    let mut sequences = Vec::new();
    for regions in &files {
        if progress.target_reached() {
            break;
        }
        sequences.extend(extract_file(&mut progress, regions));
    }
    assert_eq!(progress.extracted(), 3);
    assert_eq!(sequences, vec![1, 2, 3]);
    assert_eq!(progress.processed(), 2);
    assert!(progress.target_reached());
}

#[test]
fn faces_beyond_the_target_are_not_selected() {
    let mut progress = BatchProgress::new(2);
    let regions = vec![face(0), face(1), face(2)];
    assert_eq!(progress.faces_to_extract(&regions, 200, 200), vec![face(0), face(1)]);
    extract_file(&mut progress, &regions);
    assert!(progress.faces_to_extract(&regions, 200, 200).is_empty());
}

#[test]
fn rejected_regions_are_not_selected() {
    let progress = BatchProgress::new(5);
    let mut small = face(0);
    small.width = 20;
    let regions = vec![small, face(1)];
    assert_eq!(progress.faces_to_extract(&regions, 200, 200), vec![face(1)]);
}

#[test]
fn empty_run_extracts_nothing() {
    let progress = BatchProgress::new(5000);
    assert_eq!(progress.extracted(), 0);
    assert_eq!(progress.processed(), 0);
    assert_eq!(progress.errors(), 0);
    assert!(!progress.target_reached());
}

#[test]
fn failed_file_is_counted_and_the_run_goes_on() {
    let mut progress = BatchProgress::new(3);
    progress.finish_file(FileOutcome::Failed);
    assert_eq!(progress.errors(), 1);
    assert_eq!(progress.extracted(), 0);
    assert_eq!(progress.processed(), 0);
    assert!(!progress.target_reached());
    let used = extract_file(&mut progress, &vec![face(0)]);
    assert_eq!(used, vec![1]);
    assert_eq!((progress.processed(), progress.errors()), (1, 1));
    assert_eq!(progress.extracted(), 1);
}

#[test]
fn zero_target_is_reached_at_once() {
    let progress = BatchProgress::new(0);
    assert!(progress.target_reached());
    assert!(progress.faces_to_extract(&vec![face(0)], 200, 200).is_empty());
}
