use limited_vec::{LimitedVec, LimitedVecError};

fn collect_refs<T: Clone, const N: usize>(lvec: &LimitedVec<T, N>) -> Vec<T> {
    let mut collected: Vec<T> = Vec::new();
    let mut it = lvec.iter();
    while let Some(x) = it.next() {
        collected.push(x.clone());
    }
    collected
}

#[test]
fn test_len() {
    let mut vec: LimitedVec<u8, 4> = LimitedVec::new();
    assert_eq!(vec.len(), 0);
    assert_eq!(vec.capacity(), 4);

    vec.push(42).unwrap();
    assert_eq!(vec.len(), 1);
    assert_eq!(vec.free(), 4 - 1);

    vec.push(69).unwrap();
    assert_eq!(vec.len(), 2);
    assert_eq!(vec.free(), 4 - 2);

    assert_eq!(vec.get(0), Some(&42));
    assert_eq!(vec.index(0), Ok(&42));

    assert_eq!(vec.pop(), Some(69));
    assert_eq!(vec.len(), 1);
    assert_eq!(vec.free(), 4 - 1);

    assert_eq!(vec.pop(), Some(42));
    assert_eq!(vec.len(), 0);
    assert_eq!(vec.free(), 4);
}

#[test]
fn test_from_vec() {
    let src_vec = (0..7).collect::<Vec<usize>>();
    let lvec = LimitedVec::<usize, 10>::from_sequence(src_vec.clone()).unwrap();
    assert_eq!(collect_refs(&lvec), src_vec);
}

#[test]
fn test_from_iter() {
    let src_vec = (0..7).collect::<Vec<usize>>();
    let lvec = LimitedVec::<usize, 10>::collect_from((0..7).collect::<Vec<usize>>()).unwrap();
    assert_eq!(collect_refs(&lvec), src_vec);
}

#[test]
fn test_collect_agrees_with_from_sequence() {
    let src_vec = (0..7).collect::<Vec<usize>>();
    let a = LimitedVec::<usize, 10>::from_sequence(src_vec.clone()).unwrap();
    let b = LimitedVec::<usize, 10>::collect_from(src_vec).unwrap();
    assert_eq!(a, b);
}

#[test]
fn test_from_sequence_scenario() {
    let lvec = LimitedVec::<usize, 10>::from_sequence((0..7).collect::<Vec<usize>>()).unwrap();
    assert_eq!(collect_refs(&lvec), vec![0, 1, 2, 3, 4, 5, 6]);
    assert_eq!(lvec.len(), 7);
    assert_eq!(lvec.free(), 3);
    assert_eq!(lvec.get(7), None);
}

#[test]
fn test_get_and_index_agree() {
    let lvec = LimitedVec::<u8, 6>::from_sequence(vec![10, 20, 30]).unwrap();
    let mut i: usize = 0;
    while i < lvec.len() {
        assert_eq!(lvec.get(i), lvec.index(i).ok());
        i += 1;
    }
    assert_eq!(lvec.get(0), Some(&10));
    assert_eq!(lvec.get(2), Some(&30));
}

#[test]
fn test_get_absent_past_len() {
    let lvec = LimitedVec::<u8, 6>::from_sequence(vec![10, 20, 30]).unwrap();
    let mut i: usize = lvec.len();
    while i < lvec.capacity() {
        assert_eq!(lvec.get(i), None);
        i += 1;
    }
    assert_eq!(lvec.get(100), None);
}

#[test]
fn test_last() {
    let mut lvec: LimitedVec<u8, 4> = LimitedVec::new();
    assert_eq!(lvec.last(), None);
    assert_eq!(lvec.last_idx(), None);
    lvec.push(7).unwrap();
    lvec.push(8).unwrap();
    assert_eq!(lvec.last(), Some(&8));
    assert_eq!(lvec.last_idx(), Some(1));
    assert_eq!(lvec.last(), lvec.get(lvec.len() - 1));
}

#[test]
fn test_last_mut() {
    let mut lvec: LimitedVec<u8, 4> = LimitedVec::new();
    assert_eq!(lvec.last_mut(), None);
    lvec.push(7).unwrap();
    lvec.push(8).unwrap();
    if let Some(m) = lvec.last_mut() {
        *m = 9;
    }
    assert_eq!(lvec.last(), Some(&9));
    assert_eq!(lvec.get(0), Some(&7));
    assert_eq!(lvec.len(), 2);
}

#[test]
fn test_push_then_pop_returns_value() {
    let mut lvec = LimitedVec::<u8, 5>::from_sequence(vec![1, 2]).unwrap();
    lvec.push(42).unwrap();
    assert_eq!(lvec.pop(), Some(42));
    assert_eq!(lvec.len(), 2);
}

#[test]
fn test_pushes_pop_in_reverse_order() {
    let mut lvec = LimitedVec::<u8, 10>::from_sequence(vec![1, 2]).unwrap();
    lvec.push(5).unwrap();
    lvec.push(6).unwrap();
    lvec.push(7).unwrap();
    assert_eq!(lvec.pop(), Some(7));
    assert_eq!(lvec.pop(), Some(6));
    assert_eq!(lvec.pop(), Some(5));
    assert_eq!(lvec.len(), 2);
    assert_eq!(collect_refs(&lvec), vec![1, 2]);
}

#[test]
fn test_push_full_fails() {
    let mut lvec: LimitedVec<u8, 3> = LimitedVec::new();
    lvec.push(1).unwrap();
    lvec.push(2).unwrap();
    lvec.push(3).unwrap();
    assert_eq!(lvec.push(4), Err(LimitedVecError::CapacityExceeded));
    assert_eq!(lvec.len(), 3);
    assert!(lvec.is_full());
}

#[test]
fn test_pop_empty_is_absent() {
    let mut lvec: LimitedVec<u8, 3> = LimitedVec::new();
    assert!(lvec.is_empty());
    assert_eq!(lvec.pop(), None);
    assert_eq!(lvec.len(), 0);
}

#[test]
fn test_index_at_len_fails() {
    let mut lvec: LimitedVec<u8, 4> = LimitedVec::new();
    lvec.push(1).unwrap();
    assert!(lvec.len() < lvec.capacity());
    assert_eq!(lvec.index(1), Err(LimitedVecError::OutOfBounds));
    assert_eq!(lvec.index(9), Err(LimitedVecError::OutOfBounds));
}

#[test]
fn test_from_sequence_too_long_fails() {
    let r = LimitedVec::<u8, 5>::from_sequence(vec![1, 2, 3, 4, 5, 6]);
    assert_eq!(r, Err(LimitedVecError::CapacityExceeded));
}

#[test]
fn test_collect_from_too_long_fails() {
    let r = LimitedVec::<u8, 5>::collect_from(vec![1, 2, 3, 4, 5, 6]);
    assert_eq!(r, Err(LimitedVecError::CapacityExceeded));
}

#[test]
fn test_empty_and_full_flags() {
    let mut lvec: LimitedVec<u8, 2> = LimitedVec::new();
    assert!(lvec.is_empty());
    assert!(!lvec.is_full());
    lvec.push(1).unwrap();
    assert!(!lvec.is_empty());
    assert!(!lvec.is_full());
    lvec.push(2).unwrap();
    assert!(!lvec.is_empty());
    assert!(lvec.is_full());
    assert_eq!(lvec.free() + lvec.len(), lvec.capacity());
}

#[test]
fn test_iter_is_fused() {
    let lvec = LimitedVec::<u8, 4>::from_sequence(vec![1]).unwrap();
    let mut it = limited_vec::iter::Iter::new(&lvec);
    assert_eq!(it.next(), Some(&1));
    assert_eq!(it.next(), None);
    assert_eq!(it.next(), None);
}

#[test]
fn test_sequence_round_trip() {
    let mut src: Vec<String> = Vec::new();
    let mut i: usize = 0;
    while i < 10 {
        src.push(format!("Number: {i}"));
        i += 1;
    }
    let lvec = LimitedVec::<String, 14>::collect_from(src).unwrap();

    let encoded: Vec<String> = collect_refs(&lvec);
    let decoded = LimitedVec::<String, 14>::from_sequence(encoded).unwrap();

    assert_eq!(lvec, decoded);
    assert_eq!(decoded.len(), 10);
}
