use ownedref::{process_role, OwnedMutPtr, OwnedPtr, OwnedRef, OwnedRefMut, ProcessRole};

const ADDR: usize = 0x2000;

#[test]
fn owned_value_round_trip_forty_two() {
    let v: OwnedRef<'_, u32> = OwnedRef::owned(42);
    let bytes = serde_json::to_vec(v.encode()).unwrap();
    let back: OwnedRef<'_, u32> = OwnedRef::decode(serde_json::from_slice::<u32>(&bytes).unwrap());
    assert!(back.is_owned());
    assert_eq!(*back.as_ref(), 42);
}

#[test]
fn wire_form_is_the_same_in_every_state() {
    let x: u64 = 77;
    let raw = OwnedRef::from_ptr(ADDR, &x);
    let borrowed = OwnedRef::Ref(&x);
    let owned: OwnedRef<'_, u64> = OwnedRef::owned(77);
    let a = serde_json::to_vec(raw.encode()).unwrap();
    assert_eq!(a, serde_json::to_vec(borrowed.encode()).unwrap());
    assert_eq!(a, serde_json::to_vec(owned.encode()).unwrap());
    let back: OwnedRef<'_, u64> = OwnedRef::decode(serde_json::from_slice::<u64>(&a).unwrap());
    assert!(back.is_owned());
    assert_eq!(*back.as_ref(), 77);
}

#[test]
fn is_owned_and_is_raw_of_each_state() {
    let x: i8 = -3;
    let raw = OwnedRef::from_ptr(ADDR, &x);
    let borrowed = OwnedRef::Ref(&x);
    let owned: OwnedRef<'_, i8> = OwnedRef::owned(-3);
    assert!(!raw.is_owned());
    assert!(!borrowed.is_owned());
    assert!(owned.is_owned());
    assert!(raw.is_raw());
    assert!(!borrowed.is_raw());
    assert!(!owned.is_raw());
}

#[test]
fn into_owned_gives_the_box_only_when_owned() {
    let x: u8 = 5;
    assert!(OwnedRef::from_ptr(ADDR, &x).into_owned().is_none());
    assert!(OwnedRef::Ref(&x).into_owned().is_none());
    let owned: OwnedRef<'_, u8> = OwnedRef::owned(6);
    assert_eq!(owned.into_owned().map(|b| *b), Some(6));
}

#[test]
fn make_owned_is_idempotent() {
    let s: String = "shared".to_string();
    let once = OwnedRef::from_ptr(ADDR, &s).make_owned();
    assert!(once.is_owned());
    assert_eq!(once.as_ref(), "shared");
    let twice = once.make_owned();
    assert!(twice.is_owned());
    assert_eq!(twice.as_ref(), "shared");
}

#[test]
fn clone_keeps_the_state() {
    let x: u16 = 9;
    let raw = OwnedRef::from_ptr(ADDR, &x);
    assert!(!raw.clone().is_owned());
    assert_eq!(*raw.clone().as_ref(), 9);
    let owned: OwnedRef<'_, u16> = OwnedRef::owned(10);
    let c = owned.clone();
    assert!(c.is_owned());
    assert_eq!(*c.as_ref(), 10);
}

#[test]
fn mut_ref_writes_through_each_state() {
    let mut x: u32 = 1;
    {
        let mut raw = OwnedRefMut::from_mut_ptr(ADDR, &mut x);
        assert!(!raw.is_owned());
        *raw.as_mut() = 2;
        assert_eq!(*raw.as_ref(), 2);
    }
    assert_eq!(x, 2);
    {
        let mut borrowed = OwnedRefMut::Ref(&mut x);
        assert!(!borrowed.is_owned());
        *borrowed.as_mut() += 5;
    }
    assert_eq!(x, 7);
    let mut owned: OwnedRefMut<'_, u32> = OwnedRefMut::owned(3);
    assert!(owned.is_owned());
    *owned.as_mut() = 4;
    assert_eq!(*owned.as_ref(), 4);
}

#[test]
fn mut_ref_into_owned_and_round_trip() {
    let mut x: i64 = -12;
    let raw = OwnedRefMut::from_mut_ptr(ADDR, &mut x);
    let bytes = serde_json::to_vec(raw.encode()).unwrap();
    let owned = raw.into_owned();
    assert!(owned.is_owned());
    assert_eq!(*owned.as_ref(), -12);
    let again = owned.into_owned();
    assert_eq!(*again.as_ref(), -12);
    let back: OwnedRefMut<'_, i64> = OwnedRefMut::decode(serde_json::from_slice::<i64>(&bytes).unwrap());
    assert!(back.is_owned());
    assert_eq!(*back.as_ref(), -12);
}

#[test]
fn pointer_only_wrappers() {
    let target: &'static u32 = Box::leak(Box::new(11u32));
    let p = OwnedPtr::from_raw(ADDR, target);
    assert!(!p.is_owned());
    assert_eq!(*p.as_ref(), 11);
    assert!(!p.clone().is_owned());
    let bytes = serde_json::to_vec(p.encode()).unwrap();
    let owned = p.into_owned();
    assert!(owned.is_owned());
    assert_eq!(*owned.as_ref(), 11);
    assert_eq!(*owned.into_owned().as_ref(), 11);
    let back: OwnedPtr<u32> = OwnedPtr::decode(serde_json::from_slice::<u32>(&bytes).unwrap());
    assert!(back.is_owned());
    assert_eq!(*back.as_ref(), 11);

    let mtarget: &'static mut u32 = Box::leak(Box::new(20u32));
    let mut m = OwnedMutPtr::from_raw_mut(ADDR, mtarget);
    assert!(!m.is_owned());
    *m.as_mut() += 1;
    assert_eq!(*m.as_ref(), 21);
    let mbytes = serde_json::to_vec(m.encode()).unwrap();
    let mo = m.into_owned();
    assert!(mo.is_owned());
    assert_eq!(*mo.as_ref(), 21);
    let mback: OwnedMutPtr<u32> = OwnedMutPtr::decode(serde_json::from_slice::<u32>(&mbytes).unwrap());
    assert!(mback.is_owned());
    assert_eq!(*mback.as_ref(), 21);
    let own: OwnedMutPtr<u32> = OwnedMutPtr::owned(1);
    assert!(own.is_owned());
}

#[test]
fn process_roles() {
    assert_eq!(process_role(0, None), ProcessRole::StandAlone);
    assert_eq!(process_role(3, Some(3)), ProcessRole::Parent);
    assert_eq!(process_role(4, Some(3)), ProcessRole::Child);
}

#[test]
fn byte_run_wrappers() {
    let bytes: Vec<u8> = vec![1, 2, 3];
    let raw: OwnedRef<'_, [u8]> = OwnedRef::from_ptr(ADDR, &bytes[..]);
    assert!(raw.is_raw());
    assert_eq!(raw.as_ref(), &[1u8, 2, 3][..]);
    assert!(raw.into_owned().is_none());
    let owned: OwnedRef<'_, [u8]> = OwnedRef::Owned(vec![4u8, 5].into_boxed_slice());
    assert_eq!(owned.as_ref(), &[4u8, 5][..]);
    assert_eq!(owned.into_owned().map(|b| b.to_vec()), Some(vec![4u8, 5]));

    let mut buf: Vec<u8> = vec![7, 8];
    {
        let mut m: OwnedRefMut<'_, [u8]> = OwnedRefMut::from_mut_bytes_ptr(ADDR, &mut buf[..]);
        m.as_mut()[0] = 9;
        assert_eq!(m.as_ref(), &[9u8, 8][..]);
    }
    assert_eq!(buf, vec![9, 8]);
}
