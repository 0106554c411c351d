use pathmod::sample::basic::Inner;
use pathmod::sample::basic::Outer;

#[test]
fn get_and_get_mut_work() {
    let a = Outer::acc_inner();
    let o = Outer { inner: Inner { x: 7 } };
    assert_eq!(a.get(&o).x, 7);
}

#[test]
fn set_and_set_mut_and_set_clone_work() {
    let b = Inner::acc_x();

    let mut o = Outer { inner: Inner { x: 0 } };

    // set via x accessor
    b.set(&mut o.inner, 5);
    assert_eq!(o.inner.x, 5);

    // mutate via closure
    b.set_mut(&mut o.inner, |v| *v += 2);
    assert_eq!(o.inner.x, 7);

    // set_clone
    let v = 42;
    b.set_clone(&mut o.inner, &v);
    assert_eq!(o.inner.x, 42);
}

#[test]
fn compose_and_deep_update_work() {
    let a = Outer::acc_inner();
    let b = Inner::acc_x();
    let ab = a.compose(b);

    let mut o = Outer { inner: Inner { x: 1 } };
    assert_eq!(*ab.get(&o), 1);

    ab.set(&mut o, 10);
    assert_eq!(o.inner.x, 10);

    ab.set_mut(&mut o, |v| *v += 5);
    assert_eq!(o.inner.x, 15);

    let v = 22;
    ab.set_clone(&mut o, &v);
    assert_eq!(o.inner.x, 22);
}

#[test]
fn get_mut_writes_through() {
    let a = Outer::acc_inner();
    let mut o = Outer { inner: Inner { x: 1 } };
    let r = a.get_mut(&mut o);
    r.x = 9;
    assert_eq!(o.inner.x, 9);
}
