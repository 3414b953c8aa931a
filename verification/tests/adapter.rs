use cursor_paginator::transparent::{TransparentLayer, TransparentService};

#[test]
fn wrapper_holds_the_service() {
    let wrapped: TransparentService<String, u8> = TransparentService::new("svc".to_string());
    assert_eq!(wrapped.get_ref(), "svc");
    assert_eq!(wrapped.into_inner(), "svc".to_string());
}

#[test]
fn changes_through_the_wrapper_reach_the_service() {
    let mut wrapped: TransparentService<Vec<u32>, ()> = TransparentService::new(vec![1]);
    wrapped.get_mut().push(2);
    assert_eq!(wrapped.get_ref(), &vec![1, 2]);
    assert_eq!(wrapped.into_inner(), vec![1, 2]);
}

#[test]
fn clone_duplicates_the_service() {
    let mut first: TransparentService<Vec<u32>, ()> = TransparentService::new(vec![1, 2]);
    let copy = first.clone();
    first.get_mut().push(3);
    assert_eq!(copy.into_inner(), vec![1, 2]);
    assert_eq!(first.into_inner(), vec![1, 2, 3]);
}

#[test]
fn layer_wraps_without_change() {
    let stage: TransparentLayer<u64, String> = TransparentLayer::new();
    assert_eq!(stage.layer(17).into_inner(), 17);
    assert_eq!(stage.layer(18).into_inner(), 18);
}
