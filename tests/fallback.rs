use gal_runtime::fallback::Fallback;

#[test]
fn is_some_needs_one_side() {
    assert!(Fallback::new(Some(1), None).is_some());
    assert!(Fallback::new(None, Some(1)).is_some());
    assert!(!Fallback::<i32>::new(None, None).is_some());
}

#[test]
fn map_keeps_pairing() {
    let f = Fallback::new(Some(2), None).map(|x: i32| x * 10);
    assert_eq!(f.unzip(), (Some(20), None));
    let g = Fallback::new(Some(1), Some(3)).map(|x: i32| x + 1);
    assert_eq!(g.unzip(), (Some(2), Some(4)));
}

#[test]
fn and_then_prefers_localized() {
    let f = Fallback::new(Some(4), Some(5));
    assert_eq!(f.and_then(|x: i32| if x > 0 { Some(x) } else { None }), Some(4));
}

#[test]
fn and_then_falls_through_to_base() {
    let f = Fallback::new(Some(-1), Some(5));
    assert_eq!(f.and_then(|x: i32| if x > 0 { Some(x) } else { None }), Some(5));
    let g: Fallback<i32> = Fallback::new(None, None);
    assert_eq!(g.and_then(|x: i32| Some(x)), None);
}

#[test]
fn as_ref_borrows_both_sides() {
    let f = Fallback::new(Some(String::from("a")), Some(String::from("b")));
    let (l, b) = f.as_ref().unzip();
    assert_eq!(l.map(|s| s.as_str()), Some("a"));
    assert_eq!(b.map(|s| s.as_str()), Some("b"));
}

#[test]
fn flatten_drops_inner_option() {
    let f = Fallback::new(Some(None), Some(Some(3)));
    assert_eq!(f.flatten().unzip(), (None, Some(3)));
}

#[test]
fn and_any_string_skips_empty() {
    let f = Fallback::new(Some(String::new()), Some(String::from("Hello")));
    assert_eq!(f.and_any(), Some(String::from("Hello")));
    let g = Fallback::new(Some(String::from("Hi")), Some(String::from("Hello")));
    assert_eq!(g.and_any(), Some(String::from("Hi")));
    let h = Fallback::new(Some(String::new()), None);
    assert_eq!(h.and_any(), None);
}

#[test]
fn and_any_vec_skips_empty() {
    let f = Fallback::new(Some(Vec::<i32>::new()), Some(vec![1, 2]));
    assert_eq!(f.and_any(), Some(vec![1, 2]));
    let g: Fallback<Vec<i32>> = Fallback::new(None, Some(vec![]));
    assert_eq!(g.and_any(), None);
}

#[test]
fn into_iter_zips_to_longer_length() {
    let f = Fallback::new(Some(vec![1, 2, 3]), Some(vec![9]));
    let mut it = f.into_iter();
    let mut pairs = vec![];
    while let Some(p) = it.next() {
        pairs.push(p.unzip());
    }
    assert_eq!(pairs, vec![(Some(1), Some(9)), (Some(2), None), (Some(3), None)]);
}

#[test]
fn into_iter_with_missing_side() {
    let f: Fallback<Vec<i32>> = Fallback::new(None, Some(vec![7, 8]));
    let mut it = f.into_iter();
    assert_eq!(it.next().map(|p| p.unzip()), Some((None, Some(7))));
    assert_eq!(it.next().map(|p| p.unzip()), Some((None, Some(8))));
    assert!(it.next().is_none());
}
