// The rejected derive shapes are exercised in the generator tests; this
// file checks that the test harness itself is discovered.

#[test]
fn sanity() {
    assert_eq!(1 + 1, 2);
}
