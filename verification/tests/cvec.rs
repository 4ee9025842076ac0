use cvec::CVec;
use std::rc::Rc;

#[test]
fn basic() {
    let mut x: CVec<usize> = CVec::with_capacity(2);
    let mut xv = x.view();
    x.push(300).unwrap();
    x.push(200).unwrap();
    assert_eq!(xv.as_slice(), [300, 200]);
}

#[test]
fn resize() {
    let mut x: CVec<usize> = CVec::with_capacity(2);
    let mut xv = x.view();
    x.push(300).unwrap();
    x.push(200).unwrap();
    if x.push(100).is_ok() {
        assert_eq!(xv.as_slice(), [300, 200, 100]);
    } else {
        assert_eq!(xv.as_slice(), [300, 200]);
    }
}

#[test]
fn push_order_is_kept() {
    let mut x: CVec<usize> = CVec::with_capacity(4);
    x.push(300).unwrap();
    x.push(200).unwrap();
    x.push(100).unwrap();
    assert_eq!(x.len(), 3);
    let mut xv = x.view();
    assert_eq!(xv.as_slice(), [300, 200, 100]);
}

#[test]
fn push_into_full_buffer_grows() {
    let mut x: CVec<usize> = CVec::with_capacity(2);
    let mut xv = x.view();
    x.push(300).unwrap();
    x.push(200).unwrap();
    assert_eq!(x.len(), 2);
    assert!(x.push(100).is_ok());
    assert_eq!(x.len(), 3);
    assert_eq!(x.capacity(), 4);
    assert_eq!(xv.as_slice(), [300, 200, 100]);
}

#[test]
fn shrink_then_push() {
    let mut x: CVec<usize> = CVec::with_capacity(2);
    x.push(300).unwrap();
    x.push(200).unwrap();
    x.shrink_to_fit();
    assert_eq!(x.capacity(), 2);
    assert!(x.push(100).is_ok());
    assert_eq!(x.len(), 3);
    let mut xv = x.view();
    assert_eq!(xv.as_slice(), [300, 200, 100]);
}

#[test]
fn shrink_releases_everything_when_empty() {
    let mut x: CVec<usize> = CVec::with_capacity(4);
    x.shrink_to_fit();
    assert_eq!(x.capacity(), 0);
    // a zero-size allocation cannot be extended in place
    assert_eq!(x.push(300), Err(300));
}

#[test]
fn failed_push_changes_nothing() {
    let mut x: CVec<usize> = CVec::with_capacity(0);
    assert_eq!(x.len(), 0);
    assert_eq!(x.capacity(), 0);
    assert_eq!(x.push(42), Err(42));
    assert_eq!(x.len(), 0);
    assert_eq!(x.capacity(), 0);
    let mut xv = x.view();
    assert_eq!(xv.len(), 0);
    assert!(xv.as_slice().is_empty());
}

#[test]
fn try_reserve_grows_without_publishing() {
    let mut x: CVec<usize> = CVec::with_capacity(2);
    x.push(300).unwrap();
    assert!(x.try_reserve(10));
    assert_eq!(x.capacity(), 11);
    assert_eq!(x.len(), 1);
    let mut xv = x.view();
    assert_eq!(xv.as_slice(), [300]);
    // room enough already: nothing changes
    assert!(x.try_reserve(1));
    assert_eq!(x.capacity(), 11);
}

#[test]
fn try_reserve_refuses_what_cannot_fit() {
    let mut x: CVec<usize> = CVec::with_capacity(2);
    x.push(300).unwrap();
    assert!(!x.try_reserve(usize::MAX));
    assert_eq!(x.capacity(), 2);
    let mut y: CVec<usize> = CVec::with_capacity(0);
    assert!(!y.try_reserve(1));
    assert_eq!(y.capacity(), 0);
    assert!(y.try_reserve(0));
    assert_eq!(y.capacity(), 0);
}

#[test]
fn views_are_live_and_cloneable() {
    let mut x: CVec<usize> = CVec::with_capacity(2);
    x.push(300).unwrap();
    let mut v1 = x.view();
    let mut v2 = v1.clone();
    x.push(200).unwrap();
    assert_eq!(v1.len(), 2);
    assert_eq!(v2.len(), 2);
    assert_eq!(v1.as_slice(), [300, 200]);
    assert_eq!(v2.as_slice(), [300, 200]);
}

#[test]
fn reader_prefixes_never_shrink() {
    let mut x: CVec<usize> = CVec::with_capacity(1);
    let mut xv = x.view();
    let mut last_len: usize = 0;
    for i in 0..1000 {
        x.push(i).unwrap();
        let l = xv.len();
        assert!(l >= last_len);
        last_len = l;
        let s = xv.as_slice();
        assert_eq!(s.len(), i + 1);
        for (j, v) in s.iter().enumerate() {
            assert_eq!(*v, j);
        }
    }
    assert_eq!(xv.len(), 1000);
}

#[test]
fn elements_are_dropped_once_at_teardown() {
    let marker: Rc<usize> = Rc::new(7);
    let mut x: CVec<Rc<usize>> = CVec::with_capacity(4);
    x.push(marker.clone()).unwrap();
    x.push(marker.clone()).unwrap();
    x.push(marker.clone()).unwrap();
    assert_eq!(Rc::strong_count(&marker), 4);
    let mut xv = x.view();
    // the storage outlives the writer while a view still holds it
    drop(x);
    assert_eq!(Rc::strong_count(&marker), 4);
    assert_eq!(xv.len(), 3);
    // the last handle tears the storage down: each element dropped exactly once
    drop(xv);
    assert_eq!(Rc::strong_count(&marker), 1);
}

#[test]
fn exact_reads_with_the_writer_at_hand() {
    let mut x: CVec<usize> = CVec::with_capacity(4);
    let mut xv = x.view();
    x.push(300).unwrap();
    x.push(200).unwrap();
    x.push(100).unwrap();
    assert_eq!(xv.len_with(&x), 3);
    assert_eq!(xv.as_slice_with(&x), [300, 200, 100]);
    // the view has now observed exactly that prefix
    assert_eq!(xv.as_slice(), [300, 200, 100]);
    assert_eq!(xv.len(), 3);
}

#[test]
fn empty_writer_and_view() {
    let x: CVec<usize> = CVec::with_capacity(4);
    assert_eq!(x.len(), 0);
    assert_eq!(x.capacity(), 4);
    let mut xv = x.view();
    assert_eq!(xv.len(), 0);
    assert!(xv.as_slice().is_empty());
}
