use godot_core::node_path::subpath_begin;
use godot_core::string_name_order::string_name_order;
use std::cmp::Ordering;
use godot_core::enums::{ProjectionEye, ProjectionPlane, VariantConversionError};
use godot_core::error::Error;
use godot_core::rid::Rid;
use godot_core::signal_future::{TrySignalFutureError, TrySignalFutureState};
use godot_core::typed_func::TypedFunc;
use godot_core::text::needs_layout;

#[test]
fn rid_roundtrip() {
    let rid = Rid::new(1);
    assert!(rid.is_valid());
    assert!(!rid.is_invalid());
    assert_eq!(rid.to_u64(), 1);
    assert_eq!(rid.to_valid_u64(), Some(1));

    let invalid = Rid::new(0);
    assert_eq!(invalid, Rid::Invalid);
    assert!(invalid.is_invalid());
    assert!(!invalid.is_valid());
    assert_eq!(invalid.to_u64(), 0);
    assert_eq!(invalid.to_valid_u64(), None);

    assert_eq!(Rid::new(u64::MAX).to_u64(), u64::MAX);
    assert_eq!(Rid::new(Rid::new(42).to_u64()), Rid::new(42));
}

#[test]
fn error_into_result() {
    let ok = Error::from_ord(0);
    let failed = Error::from_ord(1);
    assert_eq!(ok.into_result(), Ok(()));
    assert_eq!(failed.into_result(), Err(failed));
    assert_eq!(failed.ord(), 1);
}

#[test]
fn error_from_result() {
    let ok = Error::from_ord(0);
    let failed = Error::from_ord(1);
    assert_eq!(Error::from_result(Ok(())), ok);
    assert_eq!(Error::from_result(Err(failed)), failed);
    // `Err(OK)` becomes `OK`, so it does not survive the round trip.
    assert_eq!(Error::from_result(Err(ok)).into_result(), Ok(()));
    assert_eq!(Error::from_result(failed.into_result()), failed);
}

#[test]
fn signal_state_hands_out_value_once() {
    let mut state: TrySignalFutureState<u8> = TrySignalFutureState::default();
    assert_eq!(state.poll(), None);
    state.resolve(7);
    assert_eq!(state.poll(), Some(Ok(7)));
    assert_eq!(state.poll(), Some(Err(TrySignalFutureError)));
    assert_eq!(state.poll(), Some(Err(TrySignalFutureError)));
}

#[test]
fn signal_state_abandon() {
    let mut pending: TrySignalFutureState<u8> = TrySignalFutureState::Pending;
    assert!(pending.abandon());
    assert_eq!(pending.poll(), Some(Err(TrySignalFutureError)));

    let mut ready = TrySignalFutureState::Ready(3u8);
    assert!(!ready.abandon());
    assert_eq!(ready.poll(), Some(Ok(3)));

    let mut dropped: TrySignalFutureState<u8> = TrySignalFutureState::Pending;
    dropped.drop_future();
    assert!(matches!(dropped.take(), TrySignalFutureState::Dropped));
    assert!(matches!(dropped.take(), TrySignalFutureState::Dropped));
}

#[test]
fn projection_ordinals() {
    assert_eq!(ProjectionPlane::Near.ord(), 0);
    assert_eq!(ProjectionPlane::Bottom.ord(), 5);
    assert_eq!(ProjectionEye::Left.ord(), 1);
    assert_eq!(ProjectionEye::Right.ord(), 2);
}

#[test]
fn variant_conversion_messages() {
    assert_eq!(
        VariantConversionError::BadType.message(),
        "Variant type does not match expected type"
    );
    assert_eq!(
        VariantConversionError::VariantIsNil.message(),
        "Variant value is null but expected to be non-null"
    );
}

#[test]
fn typed_func_name() {
    let f: TypedFunc<(), i32, (i32,)> = TypedFunc::from_godot_name("get_health");
    assert_eq!(f.godot_name(), "get_health");
}

#[test]
fn rid_display() {
    assert_eq!(Rid::new(1).to_string(), "RID(1)");
    assert_eq!(Rid::new(0).to_string(), "RID(0)");
    assert_eq!(Rid::new(u64::MAX).to_string(), "RID(18446744073709551615)");
}

#[test]
fn subpath_begin_translation() {
    // Path "a/b:c:d": two names, two subnames.
    assert_eq!(subpath_begin(0, 2, 2), 0);
    assert_eq!(subpath_begin(2, 2, 2), 2);
    assert_eq!(subpath_begin(3, 2, 2), 4);
    assert_eq!(subpath_begin(-1, 2, 2), 4);
    assert_eq!(subpath_begin(-3, 2, 2), 1);
    assert_eq!(subpath_begin(100, 2, 2), 5);
    assert_eq!(subpath_begin(-100, 2, 2), 0);
}

#[test]
fn string_name_ordering() {
    assert_eq!(string_name_order(true, false, false), Ordering::Less);
    assert_eq!(string_name_order(false, true, false), Ordering::Greater);
    assert_eq!(string_name_order(false, false, true), Ordering::Equal);
}

#[test]
fn layout_needed_only_when_requested() {
    assert!(!needs_layout(None, None, false));
    assert!(needs_layout(Some(8), None, false));
    assert!(needs_layout(None, Some(2), false));
    assert!(needs_layout(None, None, true));
}
