use bdk_ffi::common::{IntoPlatformError, PlatformOption, WrappedStructField};
use bdk_ffi::runtime::{
    fallible_to_wire, list_from_wire, list_to_wire, option_from_wire, option_to_wire, Arr, Destroy,
    Dispatch, HandleTable, STATUS_OK,
};

#[derive(Debug, Clone, PartialEq)]
struct Point {
    x: i32,
    y: i32,
}

#[test]
fn point_lifecycle_through_handles() {
    let mut heap: HandleTable<Point> = HandleTable::new();
    let h = heap.hand_out(Point { x: 3, y: 4 });
    assert_ne!(h, 0);
    assert_eq!(heap.get(h).map(|p| p.x), Some(3));
    let mut p = heap.get(h).unwrap().clone();
    p.y = 10;
    assert!(heap.set(h, p));
    assert_eq!(heap.get(h).map(|p| p.y), Some(10));
    assert_eq!(Destroy::map_from(h).release(&mut heap), Some(Point { x: 3, y: 10 }));
    assert!(!heap.is_live(h));
    assert!(heap.get(h).is_none());
    assert!(!heap.set(h, Point { x: 0, y: 0 }));
    assert_eq!(heap.take(h), None);
}

#[test]
fn null_handle_is_never_live() {
    let mut heap: HandleTable<u32> = HandleTable::new();
    assert!(!heap.is_live(0));
    assert_eq!(heap.take(0), None);
    let a = heap.hand_out(1);
    let b = heap.hand_out(2);
    assert_ne!(a, b);
    assert_eq!(heap.get(a), Some(&1));
    assert_eq!(heap.get(b), Some(&2));
}

#[test]
fn greet_list_round_trip() {
    let mut heap: HandleTable<Vec<String>> = HandleTable::new();
    let arr = list_to_wire(&mut heap, vec!["a".to_string(), "b".to_string()]);
    assert_ne!(arr.ptr, 0);
    assert_eq!(arr.len, 2);
    assert_eq!(list_from_wire(&mut heap, Arr { ptr: arr.ptr, len: 3 }), None);
    assert_eq!(list_from_wire(&mut heap, arr), Some(vec!["a".to_string(), "b".to_string()]));
    assert_eq!(list_from_wire(&mut heap, arr), None);
}

#[test]
fn optional_values_use_the_null_sentinel() {
    let mut heap: HandleTable<String> = HandleTable::new();
    assert_eq!(option_to_wire(&mut heap, None), 0);
    let h = option_to_wire(&mut heap, Some("hi".to_string()));
    assert_ne!(h, 0);
    assert_eq!(heap.get(h).map(|s| s.as_str()), Some("hi"));
    assert_eq!(option_from_wire(&mut heap, h), Some("hi".to_string()));
    assert_eq!(option_from_wire(&mut heap, 0), None);
}

#[test]
fn fallible_values_use_the_status() {
    let mut heap: HandleTable<String> = HandleTable::new();
    let mut out: u64 = 77;
    let ok: Result<String, i32> = Ok("parsed".to_string());
    assert_eq!(fallible_to_wire(&mut heap, ok, &mut out), STATUS_OK);
    assert_ne!(out, 77);
    assert_eq!(heap.get(out).map(|s| s.as_str()), Some("parsed"));
    let mut untouched: u64 = 77;
    let err: Result<String, i32> = Err(5);
    assert_ne!(fallible_to_wire(&mut heap, err, &mut untouched), STATUS_OK);
    assert_eq!(untouched, 77);
}

#[test]
fn dispatch_object_releases_once() {
    let mut heap: HandleTable<u32> = HandleTable::new();
    let mut d = Dispatch::from_native(&mut heap, 41, 2);
    for _ in 0..2 {
        for m in 0..2 {
            assert_eq!(d.invoke(&heap, m), Some(&41));
        }
    }
    assert_eq!(d.destroy_calls, 0);
    assert_eq!(d.release(&mut heap), Some(41));
    assert_eq!(d.destroy_calls, 1);
    assert_eq!(d.release(&mut heap), None);
    assert_eq!(d.destroy_calls, 1);
    assert_eq!(d.invoke(&heap, 0), None);
}

#[test]
fn dispatch_object_without_destructor_slot() {
    let mut heap: HandleTable<u32> = HandleTable::new();
    let mut d = Dispatch::from_native(&mut heap, 7, 1);
    d.has_destroy = false;
    assert_eq!(d.release(&mut heap), None);
    assert_eq!(d.destroy_calls, 0);
    assert!(heap.is_live(d.this));
}

#[test]
fn integer_fields_are_stored_as_they_are() {
    let mut stored = <u32 as WrappedStructField>::wrap_set(9);
    assert_eq!(<u32 as WrappedStructField>::wrap_get(&mut stored), 9);
    let mut small = <i8 as WrappedStructField>::wrap_set(-3);
    assert_eq!(<i8 as WrappedStructField>::wrap_get(&mut small), -3);
}

#[test]
fn platform_option_has_no_code() {
    assert_eq!(PlatformOption.into_platform_error(), ());
    assert_eq!(<PlatformOption as IntoPlatformError>::ok(), ());
}

#[test]
fn boxes_lend_their_content() {
    let b = Box::new(21u32);
    assert_eq!(bdk_ffi::common::access_box(&b, |v: &u32| *v * 2), 42);
}
