#[test]
fn smoke() {}
