use ibc::height::{Height, HeightError};

#[test]
fn height_rejects_zero_index() {
    assert_eq!(Height::new(1, 0), Err(HeightError::ZeroHeight));
    assert!(Height::new(0, 1).is_ok());
}

#[test]
fn height_order_within_and_across_eras() {
    let a = Height::new(0, 5).unwrap();
    let b = Height::new(0, 7).unwrap();
    let c = Height::new(1, 1).unwrap();
    assert!(a.lt(&b));
    assert!(!b.lt(&a));
    assert!(b.lt(&c));
    assert!(!c.lt(&b));
    assert!(a.le(&a));
    assert!(!a.lt(&a));
    assert!(a.same(&Height::new(0, 5).unwrap()));
}

#[test]
fn height_text() {
    assert_eq!(Height::new(0, 5).unwrap().to_string(), "0-5");
    assert_eq!(Height::new(12, 3450).unwrap().to_string(), "12-3450");
    assert_eq!(
        Height::new(u64::MAX, u64::MAX).unwrap().to_string(),
        "18446744073709551615-18446744073709551615"
    );
}
