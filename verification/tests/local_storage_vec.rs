use std::ops::{Deref, DerefMut};

use exercises::local_storage_vec::LocalStorageVec;

#[test]
fn it_from_vecs() {
    // The `vec!` macro creates a `Vec<T>` in a way that resembles
    // array-initalization syntax.
    let vec: LocalStorageVec<usize, 10> = LocalStorageVec::from(vec![1, 2, 3]);
    // Assert that the call to `from` indeed yields a `Heap` variant
    assert!(matches!(vec, LocalStorageVec::Heap(_)));

    let vec: LocalStorageVec<usize, 2> = LocalStorageVec::from(vec![1, 2, 3]);

    assert!(matches!(vec, LocalStorageVec::Heap(_)));
}

#[test]
fn it_constructs() {
    let vec: LocalStorageVec<usize, 10> = LocalStorageVec::new();
    // Assert that the call to `new` indeed yields a `Stack` variant with zero length
    assert!(matches!(vec, LocalStorageVec::Stack { buf: _, len: 0 }));
}

#[test]
fn it_lens() {
    let vec: LocalStorageVec<_, 3> = LocalStorageVec::from([0, 1, 2]);
    assert_eq!(vec.len(), 3);
    let vec: LocalStorageVec<_, 2> = LocalStorageVec::from([0, 1, 2]);
    assert_eq!(vec.len(), 3);
}

#[test]
fn it_pushes() {
    let mut vec: LocalStorageVec<_, 128> = LocalStorageVec::new();
    for value in 0..128 {
        vec.push(value);
    }
    assert!(matches!(vec, LocalStorageVec::Stack { len: 128, .. }));
    for value in 128..256 {
        vec.push(value);
    }
    assert!(matches!(vec, LocalStorageVec::Heap(v) if v.len() == 256))
}

#[test]
fn it_pops() {
    let mut vec: LocalStorageVec<_, 128> = LocalStorageVec::from([0; 128]);
    for _ in 0..128 {
        assert_eq!(vec.pop(), Some(0))
    }
    assert_eq!(vec.pop(), None);

    let mut vec: LocalStorageVec<_, 128> = LocalStorageVec::from([0; 256]);
    for _ in 0..256 {
        assert_eq!(vec.pop(), Some(0))
    }
    assert_eq!(vec.pop(), None);

    let mut vec: LocalStorageVec<_, 128> = LocalStorageVec::from(vec![0; 256]);
    for _ in 0..256 {
        assert_eq!(vec.pop(), Some(0))
    }
    assert_eq!(vec.pop(), None);
}

#[test]
fn it_inserts() {
    let mut vec: LocalStorageVec<_, 4> = LocalStorageVec::from([0, 1, 2]);
    vec.insert(1, 3);
    assert!(matches!(
        vec,
        LocalStorageVec::Stack {
            buf: [0, 3, 1, 2],
            len: 4
        }
    ));

    let mut vec: LocalStorageVec<_, 4> = LocalStorageVec::from([0, 1, 2, 3]);
    vec.insert(1, 3);
    assert!(matches!(vec, LocalStorageVec::Heap { .. }));
    assert_eq!(vec.as_ref(), &[0, 3, 1, 2, 3]);

    let mut vec: LocalStorageVec<_, 4> = LocalStorageVec::from([0, 1, 2, 3, 4]);
    vec.insert(1, 3);
    assert!(matches!(vec, LocalStorageVec::Heap { .. }));
    assert_eq!(vec.as_ref(), &[0, 3, 1, 2, 3, 4])
}

#[test]
fn it_removes() {
    let mut vec: LocalStorageVec<_, 4> = LocalStorageVec::from([0, 1, 2]);
    let elem = vec.remove(1);
    println!("{:?}", &vec);
    assert!(matches!(
        vec,
        LocalStorageVec::Stack {
            buf: [0, 2, _, _],
            len: 2
        }
    ));
    assert_eq!(elem, 1);

    let mut vec: LocalStorageVec<_, 2> = LocalStorageVec::from([0, 1, 2]);
    let elem = vec.remove(1);
    assert!(matches!(vec, LocalStorageVec::Heap(..)));
    assert_eq!(vec.as_ref(), &[0, 2]);
    assert_eq!(elem, 1);
}

#[test]
fn it_clears() {
    let mut vec: LocalStorageVec<_, 10> = LocalStorageVec::from([0, 1, 2, 3]);
    assert!(matches!(vec, LocalStorageVec::Stack { buf: _, len: 4 }));
    vec.clear();
    assert_eq!(vec.len(), 0);

    let mut vec: LocalStorageVec<_, 3> = LocalStorageVec::from([0, 1, 2, 3]);
    assert!(matches!(vec, LocalStorageVec::Heap(_)));
    vec.clear();
    assert_eq!(vec.len(), 0);
}

#[test]
fn it_iters() {
    let vec: LocalStorageVec<_, 128> = LocalStorageVec::from([0; 32]);
    let mut iter = vec.into_iter();
    for item in &mut iter {
        assert_eq!(item, 0);
    }
    assert_eq!(iter.next(), None);

    let vec: LocalStorageVec<_, 128> = LocalStorageVec::from(vec![0; 128]);
    let mut iter = vec.into_iter();
    for item in &mut iter {
        assert_eq!(item, 0);
    }
    assert_eq!(iter.next(), None);
}

#[test]
fn it_as_refs() {
    let vec: LocalStorageVec<i32, 256> = LocalStorageVec::from([0; 128]);
    let slice: &[i32] = vec.as_ref();
    assert!(slice.len() == 128);
    let vec: LocalStorageVec<i32, 32> = LocalStorageVec::from([0; 128]);
    let slice: &[i32] = vec.as_ref();
    assert!(slice.len() == 128);

    let mut vec: LocalStorageVec<i32, 256> = LocalStorageVec::from([0; 128]);
    let slice_mut: &[i32] = vec.as_mut();
    assert!(slice_mut.len() == 128);
    let mut vec: LocalStorageVec<i32, 32> = LocalStorageVec::from([0; 128]);
    let slice_mut: &[i32] = vec.as_mut();
    assert!(slice_mut.len() == 128);
}

#[test]
fn it_indexes() {
    let vec: LocalStorageVec<i32, 10> = LocalStorageVec::from([0, 1, 2, 3, 4, 5]);
    assert_eq!(vec[1], 1);
    assert_eq!(vec[..2], [0, 1]);
    assert_eq!(vec[4..], [4, 5]);
    assert_eq!(vec[1..3], [1, 2]);
}

#[test]
fn it_borrowing_iters() {
    let vec: LocalStorageVec<String, 10> = LocalStorageVec::from([
        "0".to_owned(),
        "1".to_owned(),
        "2".to_owned(),
        "3".to_owned(),
        "4".to_owned(),
        "5".to_owned(),
    ]);
    let iter = vec.iter();
    for _ in iter {}
    // This requires the `vec` not be consumed by the call to `iter()`
    drop(vec);
}

#[test]
#[allow(unused_variables)]
fn it_derefs() {
    let vec: LocalStorageVec<_, 128> = LocalStorageVec::from([0; 128].as_slice());
    // `chunks` is a method that's defined for slices `[T]`, that we can use thanks to `Deref`
    let chunks = vec.chunks(4);
    let slice: &[_] = vec.deref();

    let mut vec: LocalStorageVec<_, 128> = LocalStorageVec::from([0; 128].as_slice());
    let chunks = vec.chunks_mut(4);
    let slice: &mut [_] = vec.deref_mut();
}

#[test]
fn from_array_keeps_the_items_in_order() {
    let onstack: LocalStorageVec<String, 4> =
        LocalStorageVec::from(["a".to_owned(), "b".to_owned(), "c".to_owned()]);
    assert!(matches!(onstack, LocalStorageVec::Stack { len: 3, .. }));
    assert_eq!(onstack.as_ref(), &["a", "b", "c"]);

    let onheap: LocalStorageVec<String, 2> =
        LocalStorageVec::from(["a".to_owned(), "b".to_owned(), "c".to_owned()]);
    assert!(matches!(onheap, LocalStorageVec::Heap(_)));
    assert_eq!(onheap.as_ref(), &["a", "b", "c"]);

    let exact: LocalStorageVec<u8, 3> = LocalStorageVec::from([7, 8, 9]);
    assert!(matches!(exact, LocalStorageVec::Stack { buf: [7, 8, 9], len: 3 }));
}

#[test]
fn from_slice_clones_onto_the_heap() {
    let source = [1u16, 2, 3];
    let vec: LocalStorageVec<u16, 8> = LocalStorageVec::from(source.as_slice());
    assert!(matches!(vec, LocalStorageVec::Heap(_)));
    assert_eq!(vec.as_ref(), &[1, 2, 3]);
}

#[test]
fn push_moves_a_full_buffer_to_the_heap() {
    let mut vec: LocalStorageVec<u8, 2> = LocalStorageVec::new();
    vec.push(1);
    vec.push(2);
    assert!(matches!(vec, LocalStorageVec::Stack { buf: [1, 2], len: 2 }));
    vec.push(3);
    assert!(matches!(vec, LocalStorageVec::Heap(_)));
    assert_eq!(vec.as_ref(), &[1, 2, 3]);
    assert_eq!(vec.len(), 3);
}

#[test]
fn insert_at_both_ends() {
    let mut vec: LocalStorageVec<u8, 4> = LocalStorageVec::from([5, 6]);
    vec.insert(0, 4);
    vec.insert(3, 7);
    assert!(matches!(vec, LocalStorageVec::Stack { buf: [4, 5, 6, 7], len: 4 }));
    vec.insert(4, 8);
    assert_eq!(vec.as_ref(), &[4, 5, 6, 7, 8]);
}

#[test]
fn remove_first_and_last() {
    let mut vec: LocalStorageVec<u8, 4> = LocalStorageVec::from([1, 2, 3, 4]);
    assert_eq!(vec.remove(0), 1);
    assert_eq!(vec.as_ref(), &[2, 3, 4]);
    assert_eq!(vec.remove(2), 4);
    assert_eq!(vec.as_ref(), &[2, 3]);
    assert_eq!(vec.len(), 2);
}

#[test]
fn pop_returns_the_last_item() {
    let mut vec: LocalStorageVec<String, 3> =
        LocalStorageVec::from(["x".to_owned(), "y".to_owned()]);
    assert_eq!(vec.pop(), Some("y".to_owned()));
    assert_eq!(vec.as_ref(), &["x"]);
    assert_eq!(vec.pop(), Some("x".to_owned()));
    assert_eq!(vec.pop(), None);
    assert_eq!(vec.len(), 0);
}

#[test]
fn into_iter_hands_out_every_item_once() {
    let vec: LocalStorageVec<u32, 4> = LocalStorageVec::from([3, 1, 2]);
    assert_eq!(vec.into_iter().collect::<Vec<_>>(), vec![3, 1, 2]);
    let vec: LocalStorageVec<u32, 2> = LocalStorageVec::from([3, 1, 2]);
    assert_eq!(vec.into_iter().collect::<Vec<_>>(), vec![3, 1, 2]);
}

#[test]
fn as_mut_writes_through() {
    let mut vec: LocalStorageVec<u32, 4> = LocalStorageVec::from([3, 1, 2]);
    vec.as_mut()[1] = 9;
    assert_eq!(vec.as_ref(), &[3, 9, 2]);
    assert_eq!(vec.iter().copied().collect::<Vec<_>>(), vec![3, 9, 2]);
}
