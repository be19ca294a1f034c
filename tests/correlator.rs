use atomgg_bridge::RequestCorrelator;

#[test]
fn allocates_from_one_upward() {
    let mut c = RequestCorrelator::new();
    assert_eq!(c.allocate(), Some(1));
    assert_eq!(c.allocate(), Some(2));
    assert_eq!(c.allocate(), Some(3));
}
