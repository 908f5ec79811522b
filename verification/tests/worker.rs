#[test]
fn dummy_test() {
    assert_eq!(2 + 2, 4);
}
