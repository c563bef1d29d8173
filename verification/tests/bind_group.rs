use std::sync::Arc;
use rasterizer::bind_group::{BindGroup, BindGroupCreateInfo, BindGroupEntry, BindGroupError};

fn entry(binding_point: usize, data: Vec<i64>) -> BindGroupEntry {
    BindGroupEntry { binding_point, buffer: Arc::new(data) }
}

#[test]
fn valid_construction_maps_each_binding_point() {
    let mut info = BindGroupCreateInfo::new();
    info.entries.push(entry(1, vec![10, 20]));
    info.entries.push(entry(0, vec![30]));
    let bg = BindGroup::new(&info).expect("a valid entry list must construct");
    assert_eq!(bg.len(), 2);
    assert_eq!(*bg.get_data_from_location(1), vec![10, 20]);
    assert_eq!(*bg.get_data_from_location(0), vec![30]);
}

#[test]
fn empty_entry_list_constructs_an_empty_store() {
    let info = BindGroupCreateInfo::new();
    let bg = BindGroup::new(&info).expect("an empty entry list is valid");
    assert_eq!(bg.len(), 0);
}

#[test]
fn out_of_range_binding_point_is_rejected() {
    let mut info = BindGroupCreateInfo::new();
    info.entries.push(entry(1, vec![1]));
    let r = BindGroup::new(&info);
    assert_eq!(r.err(), Some(BindGroupError::InvalidBindingPoint));
}

#[test]
fn duplicate_binding_point_is_rejected() {
    let mut info = BindGroupCreateInfo::new();
    info.entries.push(entry(0, vec![1]));
    info.entries.push(entry(0, vec![2]));
    let r = BindGroup::new(&info);
    assert_eq!(r.err(), Some(BindGroupError::DuplicateBindingPoint));
}

#[test]
fn first_violation_in_entry_order_decides_the_error() {
    // an out-of-range point at entry 0 is hit before the duplicate at entry 2
    let mut info = BindGroupCreateInfo::new();
    info.entries.push(entry(3, vec![1]));
    info.entries.push(entry(0, vec![2]));
    info.entries.push(entry(0, vec![3]));
    let r = BindGroup::new(&info);
    assert_eq!(r.err(), Some(BindGroupError::InvalidBindingPoint));
}

#[test]
fn retrieval_shares_the_supplied_buffer() {
    let data = Arc::new(vec![7, 8, 9]);
    let mut info = BindGroupCreateInfo::new();
    info.entries.push(BindGroupEntry { binding_point: 0, buffer: Arc::clone(&data) });
    let bg = BindGroup::new(&info).expect("valid");
    let got = bg.get_data_from_location(0);
    // shared by reference identity, not copied
    assert!(Arc::ptr_eq(&got, &data));
}
