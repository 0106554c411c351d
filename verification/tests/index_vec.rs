use pathmod::Indexing;
use pathmod::sample::bag::Bag;
use pathmod::sample::bag::Wrapper;

#[test]
fn index_into_vec_in_place_and_clone() {
    let mut w = Wrapper { bag: Bag { items: vec![1, 2, 3] } };

    let acc_items = Wrapper::acc_bag().compose(Bag::acc_items());

    // Read element at index 1
    assert_eq!(*acc_items.get_at(&w, 1), 2);

    // In-place mutate element at index 2
    acc_items.set_mut_at(&mut w, 2, |v| *v += 10);
    assert_eq!(w.bag.items, vec![1, 2, 13]);

    // Set by moving
    acc_items.set_at(&mut w, 0, 99);
    assert_eq!(w.bag.items, vec![99, 2, 13]);

    // Set via clone
    let x = 77;
    acc_items.set_clone_at(&mut w, 1, &x);
    assert_eq!(w.bag.items, vec![99, 77, 13]);
}

#[test]
fn indexing_vec_get_mut_at_is_exercised() {
    let mut b = Bag { items: vec![10, 20, 30] };
    let acc_items = Bag::acc_items();

    // Read element at index 1 using get_at
    assert_eq!(*acc_items.get_at(&b, 1), 20);

    // Mutate element at index 2 using get_mut_at explicitly
    let m = acc_items.get_mut_at(&mut b, 2);
    *m += 100;
    assert_eq!(b.items, vec![10, 20, 130]);
}
