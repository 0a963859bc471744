use std::str::FromStr;

use kfs::array_ring::ArrayRing;
use kfs::array_str::ArrayStr;
use kfs::array_vec::ArrayVec;

fn ring_contents<const N: usize>(ring: &ArrayRing<N, u32>) -> Vec<u32> {
    ring.iter().into_iter().copied().collect()
}

#[test]
fn ring_fifo_order() {
    let mut ring: ArrayRing<3, u32> = ArrayRing::new();
    let mut popped = Vec::new();
    for value in 0..10u32 {
        assert_eq!(ring.push_back(value), Ok(()));
        if value % 2 == 1 {
            popped.push(ring.pop_front().unwrap());
        }
        if ring.is_full() {
            popped.push(ring.pop_front().unwrap());
        }
    }
    while let Some(v) = ring.pop_front() {
        popped.push(v);
    }
    assert_eq!(popped, (0..10).collect::<Vec<u32>>());
}

#[test]
fn ring_full_and_empty() {
    let mut ring: ArrayRing<2, u32> = ArrayRing::new();
    assert!(ring.is_empty());
    assert_eq!(ring.pop_front(), None);
    assert_eq!(ring.pop_back(), None);
    assert_eq!(ring.push_back(1), Ok(()));
    assert_eq!(ring.push_front(0), Ok(()));
    assert!(ring.is_full());
    assert_eq!(ring.push_back(7), Err(7));
    assert_eq!(ring.push_front(8), Err(8));
    assert_eq!(ring.len(), 2);
    assert_eq!(ring_contents(&ring), vec![0, 1]);
}

#[test]
fn ring_wraps_and_indexes() {
    let mut ring: ArrayRing<4, u32> = ArrayRing::new();
    for v in 0..4 {
        ring.push_back(v).unwrap();
    }
    assert_eq!(ring.pop_front(), Some(0));
    assert_eq!(ring.pop_front(), Some(1));
    ring.push_back(4).unwrap();
    ring.push_back(5).unwrap();
    assert_eq!(ring_contents(&ring), vec![2, 3, 4, 5]);
    let by_index: Vec<u32> = (0..ring.len()).map(|i| *ring.get(i).unwrap()).collect();
    assert_eq!(by_index, ring_contents(&ring));
    assert_eq!(ring.get(4), None);
    let reversed: Vec<u32> = ring.iter().into_iter().rev().copied().collect();
    assert_eq!(reversed, vec![5, 4, 3, 2]);
    assert_eq!(ring.pop_back(), Some(5));
    ring.push_front(1).unwrap();
    assert_eq!(ring_contents(&ring), vec![1, 2, 3, 4]);
}

#[test]
fn ring_zero_capacity() {
    let mut ring: ArrayRing<0, u32> = ArrayRing::default();
    assert!(ring.is_full());
    assert_eq!(ring.push_back(1), Err(1));
    assert_eq!(ring.pop_front(), None);
}

#[test]
fn vec_insert_shifts_right() {
    let mut v: ArrayVec<5, char> = ArrayVec::new();
    for c in ['a', 'b', 'd'] {
        v.push(c).unwrap();
    }
    assert_eq!(v.insert(2, 'c'), Ok(()));
    assert_eq!(v.as_slice(), &['a', 'b', 'c', 'd']);
    assert_eq!(v.insert(0, 'z'), Ok(()));
    assert_eq!(v.as_slice(), &['z', 'a', 'b', 'c', 'd']);
    // Full: fails without change.
    assert_eq!(v.insert(1, 'x'), Err('x'));
    assert_eq!(v.as_slice(), &['z', 'a', 'b', 'c', 'd']);
}

#[test]
fn vec_insert_past_end_fails() {
    let mut v: ArrayVec<5, u8> = ArrayVec::new();
    v.push(1).unwrap();
    assert_eq!(v.insert(2, 9), Err(9));
    assert_eq!(v.as_slice(), &[1]);
    assert_eq!(v.insert(1, 2), Ok(()));
    assert_eq!(v.as_slice(), &[1, 2]);
}

#[test]
fn vec_push_pop() {
    let mut v: ArrayVec<2, u8> = ArrayVec::default();
    assert_eq!(v.pop(), None);
    assert_eq!(v.push(1), Ok(()));
    v.push_unchecked(2);
    assert_eq!(v.push(3), Err(3));
    assert!(v.is_full());
    assert_eq!(v.len(), 2);
    assert_eq!(v.get(1), Some(&2));
    assert_eq!(v.get(2), None);
    let refs: Vec<u8> = v.iter().into_iter().copied().collect();
    assert_eq!(refs, vec![1, 2]);
    v.iter_mut()[0] = 5;
    assert_eq!(v.pop(), Some(2));
    assert_eq!(v.pop(), Some(5));
    assert!(v.is_empty());
}

#[test]
fn vec_extend_from_slice_is_atomic() {
    let mut v: ArrayVec<4, u8> = ArrayVec::new();
    assert_eq!(v.extend_from_slice(&[1, 2, 3]), Ok(()));
    assert_eq!(v.extend_from_slice(&[4, 5]), Err(()));
    assert_eq!(v.as_slice(), &[1, 2, 3]);
    assert_eq!(v.extend_from_slice(&[4]), Ok(()));
    assert_eq!(v.as_slice(), &[1, 2, 3, 4]);
}

#[test]
fn str_push_is_atomic() {
    let mut s: ArrayStr<6> = ArrayStr::new();
    assert_eq!(s.push_str("héé"), Ok(()));
    assert_eq!(s.len(), 5);
    assert_eq!(s.push_str("ab"), Err(()));
    assert_eq!(s.as_bytes(), "héé".as_bytes());
    assert_eq!(s.push_str("!"), Ok(()));
    assert_eq!(std::str::from_utf8(s.as_bytes()), Ok("héé!"));
}

#[test]
fn str_from_str() {
    let s: ArrayStr<4> = ArrayStr::from_str("abcd").unwrap();
    assert_eq!(s.as_bytes(), b"abcd");
    assert!(ArrayStr::<3>::from_str("abcd").is_err());
}

#[test]
fn ring_get_mut_writes_through() {
    let mut ring: ArrayRing<3, u32> = ArrayRing::new();
    ring.push_back(1).unwrap();
    ring.push_back(2).unwrap();
    ring.pop_front();
    ring.push_back(3).unwrap();
    ring.push_back(4).unwrap();
    *ring.get_mut(2).unwrap() = 40;
    assert!(ring.get_mut(3).is_none());
    assert_eq!(ring_contents(&ring), vec![2, 3, 40]);
}
