use rangetools::{
    as_mut, as_ref, cloned, cloned_mut, copied, copied_mut, expect, is_excluded, is_included,
    is_unbounded, unwrap, unwrap_or, unwrap_or_else, MyBound, MyRangeBounds,
};
use std::cell::Cell;
use std::ops::Bound;

#[test]
fn test_as_ref() {
    let s: MyBound<String> = Bound::Included("abcd".to_owned()).into();
    let u: &[u8] = s.as_ref().unwrap();
    assert_eq!(u, b"abcd");
}

#[test]
fn exactly_one_variant_holds() {
    let all: [Bound<i32>; 3] = [Bound::Included(1), Bound::Excluded(1), Bound::Unbounded];
    for b in all.iter() {
        let n = [is_included(b), is_excluded(b), is_unbounded(b)]
            .iter()
            .filter(|x| **x)
            .count();
        assert_eq!(n, 1);
    }
    assert!(is_included(&Bound::Included(0)));
    assert!(is_excluded(&Bound::Excluded(0)));
    assert!(is_unbounded(&Bound::<i32>::Unbounded));
}

#[test]
fn wrapper_queries_follow_the_variant() {
    let w: MyBound<i32> = Bound::Excluded(3).into();
    assert!(!w.is_included());
    assert!(w.is_excluded());
    assert!(!w.is_unbounded());
    let u: MyBound<i32> = Bound::Unbounded.into();
    assert!(u.is_unbounded());
}

#[test]
fn wrap_and_unwrap_round_trip() {
    let cases: Vec<Bound<String>> = vec![
        Bound::Included("a".to_string()),
        Bound::Excluded("b".to_string()),
        Bound::Unbounded,
    ];
    for b in cases {
        let w: MyBound<String> = b.clone().into();
        let back: Bound<String> = w.into();
        assert_eq!(back, b);
    }
}

#[test]
fn map_identity_keeps_the_bound() {
    let cases: [Bound<i32>; 3] = [Bound::Included(4), Bound::Excluded(-2), Bound::Unbounded];
    for b in cases {
        assert_eq!(rangetools::map(b, |x| x), b);
    }
}

#[test]
fn map_composition_matches_composed_function() {
    let f = |x: i32| x + 1;
    let g = |x: i32| x * 10;
    let cases: [Bound<i32>; 3] = [Bound::Included(4), Bound::Excluded(-2), Bound::Unbounded];
    for b in cases {
        let twice = rangetools::map(rangetools::map(b, f), g);
        let once = rangetools::map(b, |x| g(f(x)));
        assert_eq!(twice, once);
    }
    assert_eq!(rangetools::map(Bound::Included(4), |x: i32| (x + 1) * 10), Bound::Included(50));
}

#[test]
fn map_changes_payload_type() {
    let b = rangetools::map(Bound::Excluded(7u8), |x| x.to_string());
    assert_eq!(b, Bound::Excluded("7".to_string()));
    let w: MyBound<u8> = Bound::Included(2u8).into();
    let m: Bound<u32> = w.map(|x| u32::from(x) * 3).into();
    assert_eq!(m, Bound::Included(6u32));
}

#[test]
fn unwrap_or_takes_payload_or_default() {
    assert_eq!(unwrap_or(Bound::Included(3), 9), 3);
    assert_eq!(unwrap_or(Bound::Excluded(4), 9), 4);
    assert_eq!(unwrap_or(Bound::Unbounded, 9), 9);
    let w: MyBound<i32> = Bound::Unbounded.into();
    assert_eq!(w.unwrap_or(-1), -1);
}

#[test]
fn unwrap_or_else_calls_default_only_when_unbounded() {
    let calls = Cell::new(0u32);
    let v = unwrap_or_else(Bound::Included(3), || {
        calls.set(calls.get() + 1);
        9
    });
    assert_eq!(v, 3);
    assert_eq!(calls.get(), 0);
    let v = unwrap_or_else(Bound::Excluded(4), || {
        calls.set(calls.get() + 1);
        9
    });
    assert_eq!(v, 4);
    assert_eq!(calls.get(), 0);
    let v = unwrap_or_else(Bound::Unbounded, || {
        calls.set(calls.get() + 1);
        9
    });
    assert_eq!(v, 9);
    assert_eq!(calls.get(), 1);
    let w: MyBound<i32> = Bound::Unbounded.into();
    assert_eq!(
        w.unwrap_or_else(|| {
            calls.set(calls.get() + 1);
            7
        }),
        7
    );
    assert_eq!(calls.get(), 2);
}

#[test]
fn unwrap_gives_payload() {
    assert_eq!(unwrap(Bound::Included(5)), 5);
    assert_eq!(unwrap(Bound::Excluded("x")), "x");
    let w: MyBound<i32> = Bound::Included(5).into();
    assert_eq!(w.unwrap(), 5);
}

#[test]
fn expect_gives_payload() {
    assert_eq!(expect(Bound::Excluded(8), "custom message"), 8);
    let w: MyBound<&str> = Bound::Included("y").into();
    assert_eq!(w.expect("custom message"), "y");
}

#[test]
fn cloned_duplicates_payload() {
    let v = String::from("payload");
    let c = cloned(Bound::Included(&v));
    match &c {
        Bound::Included(s) => {
            assert_eq!(*s, v);
            assert_ne!(s.as_ptr(), v.as_ptr());
        }
        _ => panic!("variant changed"),
    }
    let e = cloned(Bound::Excluded(&v));
    assert_eq!(e, Bound::Excluded(v.clone()));
    assert_eq!(cloned::<String>(Bound::Unbounded), Bound::Unbounded);
}

#[test]
fn cloned_mut_duplicates_payload() {
    let mut v = vec![1, 2, 3];
    let c = cloned_mut(Bound::Excluded(&mut v));
    assert_eq!(c, Bound::Excluded(vec![1, 2, 3]));
    assert_eq!(v, vec![1, 2, 3]);
    assert_eq!(cloned_mut::<Vec<i32>>(Bound::Unbounded), Bound::Unbounded);
}

#[test]
fn copied_duplicates_payload() {
    let v = 42u64;
    assert_eq!(copied(Bound::Included(&v)), Bound::Included(42));
    assert_eq!(copied(Bound::Excluded(&v)), Bound::Excluded(42));
    assert_eq!(copied::<u64>(Bound::Unbounded), Bound::Unbounded);
    let mut m = 5u8;
    assert_eq!(copied_mut(Bound::Included(&mut m)), Bound::Included(5));
    assert_eq!(copied_mut::<u8>(Bound::Unbounded), Bound::Unbounded);
}

#[test]
fn wrapper_cloned_and_copied() {
    let v = String::from("w");
    let w: MyBound<&String> = Bound::Included(&v).into();
    let c: Bound<String> = w.cloned().into();
    assert_eq!(c, Bound::Included("w".to_string()));
    let n = 3i16;
    let w: MyBound<&i16> = Bound::Excluded(&n).into();
    let c: Bound<i16> = w.copied().into();
    assert_eq!(c, Bound::Excluded(3));
    let mut s = String::from("m");
    let w: MyBound<&mut String> = Bound::Excluded(&mut s).into();
    let c: Bound<String> = w.cloned().into();
    assert_eq!(c, Bound::Excluded("m".to_string()));
    let mut k = 9i16;
    let w: MyBound<&mut i16> = Bound::Included(&mut k).into();
    let c: Bound<i16> = w.copied().into();
    assert_eq!(c, Bound::Included(9));
}

#[test]
fn as_mut_writes_are_seen_by_as_ref() {
    let mut b = Bound::Included(String::from("abc"));
    if let Bound::Included(s) = as_mut::<str, String>(&mut b) {
        s.make_ascii_uppercase();
    }
    let r: Bound<&str> = as_ref(&b);
    assert_eq!(r, Bound::Included("ABC"));
    let mut u: Bound<String> = Bound::Unbounded;
    assert!(is_unbounded(&as_mut::<str, String>(&mut u)));
}

#[test]
fn wrapper_as_mut_then_as_ref() {
    let mut w: MyBound<Vec<u8>> = Bound::Excluded(vec![1u8, 2]).into();
    if let Bound::Excluded(s) = Into::<Bound<&mut [u8]>>::into(w.as_mut::<[u8]>()) {
        s[0] = 7;
    }
    let r: &[u8] = w.as_ref().unwrap();
    assert_eq!(r, &[7u8, 2][..]);
}

#[test]
fn range_endpoints_are_wrapped() {
    let r = 1..10;
    let s: Bound<&i32> = r.start_bound().into();
    let e: Bound<&i32> = r.end_bound().into();
    assert_eq!(s, Bound::Included(&1));
    assert_eq!(e, Bound::Excluded(&10));
}

#[test]
fn other_range_shapes() {
    let r = 2..=5;
    let s: Bound<&i32> = r.start_bound().into();
    let e: Bound<&i32> = r.end_bound().into();
    assert_eq!((s, e), (Bound::Included(&2), Bound::Included(&5)));
    let from = 3..;
    assert_eq!(Into::<Bound<&i32>>::into(from.start_bound()), Bound::Included(&3));
    assert!(from.end_bound().is_unbounded());
    let to = ..4;
    assert!(to.start_bound().is_unbounded());
    assert_eq!(Into::<Bound<&i32>>::into(to.end_bound()), Bound::Excluded(&4));
    let to_incl = ..=6;
    assert_eq!(Into::<Bound<&i32>>::into(to_incl.end_bound()), Bound::Included(&6));
    let full = ..;
    assert!(MyRangeBounds::<i32>::start_bound(&full).is_unbounded());
    assert!(MyRangeBounds::<i32>::end_bound(&full).is_unbounded());
    let pair: (Bound<i32>, Bound<i32>) = (Bound::Excluded(0), Bound::Unbounded);
    assert_eq!(Into::<Bound<&i32>>::into(pair.start_bound()), Bound::Excluded(&0));
    assert!(pair.end_bound().is_unbounded());
}
