use gen_iter::{GenIter, SliceSteps, VecSteps};

#[test]
fn gen_iter_it_works() {
    let mut g = GenIter(VecSteps::new(vec![1, 2], ()));

    assert_eq!(g.next(), Some(1));
    assert_eq!(g.next(), Some(2));
    assert_eq!(g.next(), None);
}

#[test]
fn into_gen_iter() {
    let mut g: GenIter<_> = VecSteps::new(vec![1, 2], ()).into();

    assert_eq!(g.next(), Some(1));
    assert_eq!(g.next(), Some(2));
    assert_eq!(g.next(), None);
}

#[test]
fn gen_iter_macro() {
    let items = vec![1, 2];
    let mut g = GenIter(VecSteps::new(items, ()));

    assert_eq!(g.next(), Some(1));
    assert_eq!(g.next(), Some(2));
    assert_eq!(g.next(), None);
}

#[test]
fn self_ref_coroutine_in_stack() {
    let v1 = [1, 2];
    let mut c = SliceSteps::new(&v1, ());
    let mut g = GenIter(&mut c);

    assert_eq!(g.next(), Some(1));
    assert_eq!(g.next(), Some(2));
    assert_eq!(g.next(), None);
}

#[test]
fn gen_iter_macro_static() {
    let v1 = [1, 2];
    let mut g = GenIter { 0: &mut SliceSteps::new(&v1, ()) };

    assert_eq!(g.next(), Some(1));
    assert_eq!(g.next(), Some(2));
    assert_eq!(g.next(), None);
}

#[test]
fn gen_iter_macro_static_move() {
    let v1 = [1, 2];
    let mut g = GenIter { 0: &mut VecSteps::new(v1.to_vec(), ()) };

    assert_eq!(g.next(), Some(1));
    assert_eq!(g.next(), Some(2));
    assert_eq!(g.next(), None);
}

#[test]
fn gen_iter_over_nothing_ends_at_once() {
    let mut g = GenIter(VecSteps::new(Vec::<u8>::new(), ()));

    assert_eq!(g.next(), None);
}

#[test]
fn gen_iter_in_a_box() {
    let mut g = GenIter(Box::new(VecSteps::new(vec![7u64, 8, 9], ())));

    assert_eq!(g.next(), Some(7));
    assert_eq!(g.next(), Some(8));
    assert_eq!(g.next(), Some(9));
    assert_eq!(g.next(), None);
}

#[test]
fn gen_iter_collect_keeps_the_order() {
    let g = GenIter(VecSteps::new(vec![3, 1, 2, 1], ()));

    assert_eq!(g.collect(), [3, 1, 2, 1]);
}

#[test]
fn gen_iter_collect_after_some_items() {
    let mut g = GenIter(VecSteps::new(vec!['a', 'b', 'c'], ()));

    assert_eq!(g.next(), Some('a'));
    assert_eq!(g.collect(), ['b', 'c']);
}

#[test]
fn gen_iter_collect_of_nothing_is_empty() {
    let items: [i32; 0] = [];
    let g = GenIter(SliceSteps::new(&items, ()));

    assert_eq!(g.collect(), Vec::<i32>::new());
}

#[test]
fn gen_iter_through_a_handle_leaves_the_computation_in_place() {
    let mut c = VecSteps::new(vec![1, 2, 3], ());
    {
        let mut g = GenIter(&mut c);
        assert_eq!(g.next(), Some(1));
    }
    let mut g = GenIter(&mut c);
    assert_eq!(g.next(), Some(2));
    assert_eq!(g.next(), Some(3));
    assert_eq!(g.next(), None);
}

#[test]
fn gen_iter_copy_goes_on_from_where_it_was_taken() {
    let items = [10, 20, 30];
    let mut g = GenIter(SliceSteps::new(&items, ()));
    assert_eq!(g.next(), Some(10));

    let mut h = g;
    assert_eq!(g.next(), Some(20));
    assert_eq!(h.next(), Some(20));
    assert_eq!(h.next(), Some(30));
    assert_eq!(h.next(), None);
    assert_eq!(g.next(), Some(30));
    assert_eq!(g.next(), None);
}

#[test]
fn pinned_by_reference_yields_what_movable_by_move_yields() {
    let external = [1, 2];

    let mut pinned = SliceSteps::new(&external, ());
    let by_reference = GenIter(&mut pinned).collect();

    let by_move = GenIter(VecSteps::new(external.to_vec(), ())).collect();

    assert_eq!(by_reference, by_move);
    assert_eq!(by_reference, [1, 2]);
}
