use ownedref::{OwnedMutSlice, OwnedSlice};

const ADDR: usize = 0x1000;

#[test]
fn raw_mut_slice_truncate_then_overgrow() {
    let mut buf: Vec<u8> = vec![1, 2, 3, 4, 5];
    let mut s = OwnedMutSlice::from_raw_parts_mut(ADDR, &mut buf[..]);
    assert!(!s.is_owned());
    assert_eq!(s.truncate(3), Some(5));
    assert_eq!(s.as_slice(), &[1u8, 2, 3][..]);
    assert_eq!(s.truncate(10), None);
    assert_eq!(s.as_slice(), &[1u8, 2, 3][..]);
    assert_eq!(s.len(), 3);
}

#[test]
fn null_mut_slice_is_empty_and_owned() {
    let mut empty: [u8; 0] = [];
    let s = OwnedMutSlice::from_raw_parts_mut(0, &mut empty[..]);
    assert!(s.is_owned());
    assert_eq!(s.len(), 0);
}

#[test]
fn null_address_with_memory_still_collapses() {
    let mut buf: Vec<u8> = vec![9, 9];
    let s = OwnedMutSlice::from_raw_parts_mut(0, &mut buf[..]);
    assert!(s.is_owned());
    assert_eq!(s.len(), 0);
}

#[test]
fn zero_length_mut_slice_is_owned() {
    let mut buf: Vec<u32> = Vec::new();
    let s = OwnedMutSlice::from_raw_parts_mut(ADDR, &mut buf[..]);
    assert!(s.is_owned());
    assert_eq!(s.len(), 0);
}

#[test]
fn raw_immutable_slice_keeps_zero_length_raw() {
    let buf: Vec<u8> = Vec::new();
    let s = OwnedSlice::from_raw_parts(ADDR, &buf[..]);
    assert!(!s.is_owned());
    assert_eq!(s.len(), 0);
}

#[test]
fn truncate_in_each_state() {
    let buf: Vec<i32> = vec![10, 20, 30, 40];
    let mut raw = OwnedSlice::from_raw_parts(ADDR, &buf[..]);
    assert_eq!(raw.truncate(2), Some(4));
    assert_eq!(raw.as_slice(), &[10, 20][..]);
    assert!(!raw.is_owned());

    let mut borrowed = OwnedSlice::from_slice(&buf[..]);
    assert_eq!(borrowed.truncate(4), Some(4));
    assert_eq!(borrowed.truncate(5), None);
    assert_eq!(borrowed.truncate(0), Some(4));
    assert_eq!(borrowed.len(), 0);
    assert!(!borrowed.is_owned());

    let mut owned = OwnedSlice::from_vec(vec![1, 2, 3]);
    assert_eq!(owned.truncate(1), Some(3));
    assert_eq!(owned.as_slice(), &[1][..]);
    assert!(owned.is_owned());
    assert_eq!(buf, vec![10, 20, 30, 40]);
}

#[test]
fn truncating_a_borrowed_mut_slice_keeps_the_tail() {
    let mut buf: Vec<u16> = vec![1, 2, 3, 4];
    {
        let mut s = OwnedMutSlice::from_mut_slice(&mut buf[..]);
        assert_eq!(s.truncate(2), Some(4));
        s.as_mut_slice()[1] = 7;
        assert_eq!(s.as_slice(), &[1, 7][..]);
    }
    assert_eq!(buf, vec![1, 7, 3, 4]);
}

#[test]
fn subslice_is_borrowed() {
    let s = OwnedSlice::from_vec(vec![5u8, 6, 7, 8]);
    let sub = s.slice(1..3);
    assert!(!sub.is_owned());
    assert_eq!(sub.as_slice(), &[6u8, 7][..]);
}

#[test]
fn iterate_every_state() {
    let buf: Vec<u8> = vec![3, 1, 2];
    let raw = OwnedSlice::from_raw_parts(ADDR, &buf[..]);
    let owned = OwnedSlice::from_vec(buf.clone());
    let a: Vec<u8> = raw.iter().copied().collect();
    let b: Vec<u8> = owned.iter().copied().collect();
    assert_eq!(a, vec![3, 1, 2]);
    assert_eq!(a, b);
    let again: Vec<u8> = raw.iter().copied().collect();
    assert_eq!(again, a);
}

#[test]
fn iter_mut_writes_through() {
    let mut buf: Vec<u32> = vec![1, 2, 3];
    {
        let mut s = OwnedMutSlice::from_raw_parts_mut(ADDR, &mut buf[..]);
        for x in s.iter_mut() {
            *x *= 10;
        }
        let seen: Vec<u32> = s.iter().copied().collect();
        assert_eq!(seen, vec![10, 20, 30]);
    }
    assert_eq!(buf, vec![10, 20, 30]);
}

#[test]
fn into_owned_copies_and_is_idempotent() {
    let buf: Vec<String> = vec!["a".to_string(), "b".to_string()];
    let raw = OwnedSlice::from_raw_parts(ADDR, &buf[..]);
    let once = raw.into_owned();
    assert!(once.is_owned());
    assert_eq!(once.as_slice(), &buf[..]);
    let twice = once.into_owned();
    assert!(twice.is_owned());
    assert_eq!(twice.as_slice(), &buf[..]);

    let mut mbuf: Vec<u8> = vec![4, 5];
    let m = OwnedMutSlice::from_mut_slice(&mut mbuf[..]).into_owned();
    assert!(m.is_owned());
    assert_eq!(m.into_owned().as_slice(), &[4u8, 5][..]);
}

#[test]
fn into_vec_of_each_state() {
    let buf: Vec<u8> = vec![1, 2, 3];
    assert_eq!(OwnedSlice::from_raw_parts(ADDR, &buf[..]).into_vec(), vec![1, 2, 3]);
    assert_eq!(OwnedSlice::from_slice(&buf[..]).into_vec(), vec![1, 2, 3]);
    assert_eq!(OwnedSlice::from_vec(buf.clone()).into_vec(), vec![1, 2, 3]);
    let mut mbuf: Vec<u8> = vec![7];
    assert_eq!(OwnedMutSlice::from_raw_parts_mut(ADDR, &mut mbuf[..]).into_vec(), vec![7]);
}

#[test]
fn clone_is_always_owned() {
    let buf: Vec<u8> = vec![1, 2];
    let raw = OwnedSlice::from_raw_parts(ADDR, &buf[..]);
    let c = raw.clone();
    assert!(c.is_owned());
    assert_eq!(c.as_slice(), &[1u8, 2][..]);
    let mut mbuf: Vec<u8> = vec![3];
    let m = OwnedMutSlice::from_mut_slice(&mut mbuf[..]);
    let mc = m.clone();
    assert!(mc.is_owned());
    assert_eq!(mc.as_slice(), &[3u8][..]);
}

#[test]
fn downgrade_keeps_state_and_contents() {
    let mut buf: Vec<u8> = vec![1, 2, 3];
    let raw = OwnedMutSlice::from_raw_parts_mut(ADDR, &mut buf[..]).downgrade();
    assert!(!raw.is_owned());
    assert_eq!(raw.as_slice(), &[1u8, 2, 3][..]);

    let mut buf2: Vec<u8> = vec![4];
    let borrowed = OwnedMutSlice::from_mut_slice(&mut buf2[..]).downgrade();
    assert!(!borrowed.is_owned());
    assert_eq!(borrowed.as_slice(), &[4u8][..]);

    let owned = OwnedMutSlice::from_vec(vec![5u8, 6]).downgrade();
    assert!(owned.is_owned());
    assert_eq!(owned.as_slice(), &[5u8, 6][..]);
}

#[test]
fn slice_round_trip_through_json() {
    let buf: Vec<u16> = vec![1, 300, 65535];
    let raw = OwnedSlice::from_raw_parts(ADDR, &buf[..]);
    let bytes = serde_json::to_vec(raw.encode()).unwrap();
    let owned = OwnedSlice::from_vec(buf.clone());
    assert_eq!(serde_json::to_vec(owned.encode()).unwrap(), bytes);
    let back = OwnedSlice::decode(serde_json::from_slice::<Vec<u16>>(&bytes).unwrap());
    assert!(back.is_owned());
    assert_eq!(back.as_slice(), &buf[..]);

    let mut mbuf: Vec<u16> = vec![8, 9];
    let m = OwnedMutSlice::from_raw_parts_mut(ADDR, &mut mbuf[..]);
    let mbytes = serde_json::to_vec(m.encode()).unwrap();
    let mback = OwnedMutSlice::decode(serde_json::from_slice::<Vec<u16>>(&mbytes).unwrap());
    assert!(mback.is_owned());
    assert_eq!(mback.as_slice(), &[8u16, 9][..]);
}

#[test]
fn conversions_into_slices() {
    let v: Vec<u8> = vec![1, 2];
    let from_ref = OwnedSlice::from(&v);
    assert!(!from_ref.is_owned());
    assert_eq!(from_ref.as_slice(), &[1u8, 2][..]);
    let from_slice = OwnedSlice::from(&v[1..]);
    assert_eq!(from_slice.as_slice(), &[2u8][..]);
    let from_vec = OwnedSlice::from(vec![3u8]);
    assert!(from_vec.is_owned());

    let mut m: Vec<u8> = vec![4, 5];
    {
        let mut from_mut_vec = OwnedMutSlice::from(&mut m);
        assert!(!from_mut_vec.is_owned());
        from_mut_vec.as_mut_slice()[0] = 6;
    }
    assert_eq!(m, vec![6, 5]);
    {
        let mut inner: &mut [u8] = &mut m[..];
        let mut from_ref_ref = OwnedMutSlice::from(&mut inner);
        from_ref_ref.as_mut_slice()[1] = 7;
        assert_eq!(from_ref_ref.len(), 2);
    }
    assert_eq!(m, vec![6, 7]);
    let from_mut_slice = OwnedMutSlice::from(&mut m[..1]);
    let shared = OwnedSlice::from(from_mut_slice);
    assert!(!shared.is_owned());
    assert_eq!(shared.as_slice(), &[6u8][..]);
    let owned_mut = OwnedMutSlice::from(vec![9u8]);
    assert!(owned_mut.is_owned());
}
