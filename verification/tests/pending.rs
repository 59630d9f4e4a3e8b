use pulsectl::errors::{PulseCtlError, PulseCtlErrorType};
use pulsectl::pending::PendingResult;

#[test]
fn a_cell_hands_out_what_was_written_last() {
    let mut cell = PendingResult::new(false);
    cell.write(true);
    cell.write(false);
    cell.write(true);
    assert_eq!(cell.read(Ok(())).unwrap(), true);
}

#[test]
fn a_cell_that_nothing_was_written_to_hands_out_its_first_value() {
    let cell = PendingResult::new(false);
    assert_eq!(cell.read(Ok(())).unwrap(), false);
    let cell = PendingResult::<Option<u32>>::empty();
    assert_eq!(cell.read(Ok(())).unwrap(), None);
    let cell = PendingResult::<Vec<u32>>::list();
    assert_eq!(cell.read(Ok(())).unwrap(), Vec::<u32>::new());
}

#[test]
fn an_item_cell_keeps_the_last_item() {
    let mut cell = PendingResult::<Option<u32>>::empty();
    cell.fill(1);
    cell.fill(2);
    assert_eq!(cell.read(Ok(())).unwrap(), Some(2));
}

#[test]
fn a_list_cell_keeps_every_item_in_order() {
    let mut cell = PendingResult::<Vec<u32>>::list();
    cell.append(3);
    cell.append(1);
    cell.append(2);
    assert_eq!(cell.read(Ok(())).unwrap(), vec![3, 1, 2]);
}

#[test]
fn a_failed_wait_drops_what_was_written() {
    let mut cell = PendingResult::<Option<u32>>::empty();
    cell.fill(1);
    let failed = Err(PulseCtlError::new(PulseCtlErrorType::OperationError, "stopped"));
    let e = cell.read(failed).unwrap_err();
    assert_eq!(e.kind(), PulseCtlErrorType::OperationError);
    assert_eq!(e.message(), "stopped");
}
