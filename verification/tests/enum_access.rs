use pathmod::sample::msg::Msg;

#[test]
fn enum_access_tuple_single_field_variants() {
    let mut m = Msg::Int(5);
    assert!(m.is_int());
    assert_eq!(*m.as_int().unwrap(), 5);
    assert!(m.as_text().is_none());

    m.map_int(|v| *v += 10);
    assert_eq!(m, Msg::Int(15));

    m.set_text("hi".to_string());
    assert!(m.is_text());
    assert_eq!(m.as_text().unwrap(), "hi");
    assert!(m.as_int().is_none());
}

#[test]
fn enum_access_mut_borrows_work() {
    let mut m = Msg::Int(7);
    if let Some(v) = m.as_int_mut() {
        *v += 1;
    }
    assert_eq!(m, Msg::Int(8));
    assert!(m.as_text_mut().is_none());

    m.set_text("one".to_string());
    if let Some(t) = m.as_text_mut() {
        t.push_str(" two");
    }
    assert_eq!(m.as_text().unwrap(), "one two");
    m.map_text(|t| t.truncate(3));
    assert_eq!(m, Msg::Text("one".to_string()));

    // An update for the other variant is a no-op, not a failure.
    m.map_int(|v| *v += 100);
    assert_eq!(m, Msg::Text("one".to_string()));
    m.set_int(3);
    assert!(m.is_int());
    assert!(m.as_text().is_none());
}
