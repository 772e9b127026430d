use ssh_probe::args::{PingArgs, SpeedTestArgs};
use ssh_probe::borrow_cell::BorrowCell;
use ssh_probe::interval::Interval;

#[test]
fn borrow_cell_check_out_and_back() {
    let mut cell = BorrowCell::new(vec![1, 2]);
    assert!(cell.is_available());
    assert_eq!(cell.get(), &vec![1, 2]);
    let mut b = cell.borrow();
    assert!(!cell.is_available());
    b.get_mut().push(3);
    assert_eq!(b.get(), &vec![1, 2, 3]);
    b.release(&mut cell);
    assert!(cell.is_available());
    assert_eq!(cell.get(), &vec![1, 2, 3]);
}

#[test]
fn interval_from_secs() {
    let i = Interval::from_secs(10);
    assert_eq!((i.secs(), i.subsec_nanos()), (10, 0));
}

#[test]
fn interval_new_checks_fraction() {
    let i = Interval::new(1, 500_000_000).unwrap();
    assert_eq!((i.secs(), i.subsec_nanos()), (1, 500_000_000));
    assert!(Interval::new(0, 1_000_000_000).is_none());
}

#[test]
fn ping_args_reject_empty_payload() {
    assert!(PingArgs::new(Interval::from_secs(1), 5, 0).is_none());
    let a = PingArgs::new(Interval::from_secs(1), 5, 256).unwrap();
    assert_eq!(a.count(), 5);
    assert_eq!(a.size(), 256);
    assert_eq!(a.interval(), Interval::from_secs(1));
}

#[test]
fn speedtest_args_phases() {
    let a = SpeedTestArgs::new(true, false);
    assert!(!a.runs_upload());
    assert!(a.runs_download());
    let b = SpeedTestArgs::new(false, true);
    assert!(b.runs_upload());
    assert!(!b.runs_download());
}

#[test]
fn interval_as_text() {
    assert_eq!(Interval::from_secs(10).to_string(), "10s");
    assert_eq!(Interval::new(1, 500_000_000).unwrap().to_string(), "1.5s");
    assert_eq!(Interval::new(0, 250_000).unwrap().to_string(), "250µs");
}
