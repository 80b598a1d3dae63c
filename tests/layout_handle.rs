use std::collections::HashMap;

use bind_group_layout::entry::{
    GPUBindGroupLayoutEntry, GPUBindingType, GPUTextureComponentType, GPUTextureViewDimension,
    COMPUTE, FRAGMENT, VERTEX,
};
use bind_group_layout::ids::{WebGPU, WebGPUBindGroupLayout};
use bind_group_layout::layout::GPUBindGroupLayout;

fn readonly_storage_for_compute(binding: u32) -> GPUBindGroupLayoutEntry {
    GPUBindGroupLayoutEntry {
        binding,
        visibility: COMPUTE,
        type_: GPUBindingType::ReadonlyStorageBuffer,
        has_dynamic_offset: false,
        min_buffer_binding_size: 0,
        view_dimension: None,
        texture_component_type: None,
    }
}

fn sampled_texture(binding: u32) -> GPUBindGroupLayoutEntry {
    GPUBindGroupLayoutEntry {
        binding,
        visibility: VERTEX | FRAGMENT,
        type_: GPUBindingType::SampledTexture,
        has_dynamic_offset: false,
        min_buffer_binding_size: 0,
        view_dimension: Some(GPUTextureViewDimension::D2),
        texture_component_type: Some(GPUTextureComponentType::Float),
    }
}

fn two_slots() -> HashMap<u32, GPUBindGroupLayoutEntry> {
    let mut m = HashMap::new();
    m.insert(0, readonly_storage_for_compute(0));
    m.insert(3, sampled_texture(3));
    m
}

#[test]
fn entries_round_trip_after_construction() {
    let h = GPUBindGroupLayout::new(WebGPU(1), WebGPUBindGroupLayout(10), two_slots(), true);
    assert_eq!(h.entries(), &two_slots());
    assert_eq!(h.entries().get(&3), Some(&sampled_texture(3)));
    assert_eq!(h.entries().get(&1), None);
}

#[test]
fn identity_is_stable() {
    let mut h = GPUBindGroupLayout::new(WebGPU(1), WebGPUBindGroupLayout(42), two_slots(), true);
    assert_eq!(h.id(), WebGPUBindGroupLayout(42));
    assert_eq!(h.id(), h.id());
    h.SetLabel(Some(String::from("named")));
    h.invalidate();
    assert_eq!(h.id(), WebGPUBindGroupLayout(42));
}

#[test]
fn invalid_stays_invalid() {
    let mut h = GPUBindGroupLayout::new(WebGPU(1), WebGPUBindGroupLayout(5), two_slots(), true);
    h.invalidate();
    assert!(!h.is_valid());
    h.SetLabel(Some(String::from("again")));
    assert!(!h.is_valid());
    h.SetLabel(None);
    h.invalidate();
    assert!(!h.is_valid());
    assert_eq!(h.entries(), &two_slots());
}

#[test]
fn label_set_then_get() {
    let mut h = GPUBindGroupLayout::new(WebGPU(1), WebGPUBindGroupLayout(5), HashMap::new(), true);
    assert_eq!(h.GetLabel(), None);
    h.SetLabel(Some(String::from("x")));
    assert_eq!(h.GetLabel(), Some(String::from("x")));
    h.SetLabel(None);
    assert_eq!(h.GetLabel(), None);
    h.SetLabel(Some(String::new()));
    assert_eq!(h.GetLabel(), Some(String::new()));
}

#[test]
fn different_identities_are_distinct() {
    let a = GPUBindGroupLayout::new(WebGPU(1), WebGPUBindGroupLayout(1), two_slots(), true);
    let b = GPUBindGroupLayout::new(WebGPU(1), WebGPUBindGroupLayout(2), two_slots(), true);
    assert!(a != b);
    assert_ne!(a.id(), b.id());
    assert_eq!(a.entries(), b.entries());
}

#[test]
fn same_identity_is_the_same_resource() {
    let mut a = GPUBindGroupLayout::new(WebGPU(1), WebGPUBindGroupLayout(9), two_slots(), true);
    let b = GPUBindGroupLayout::new(WebGPU(1), WebGPUBindGroupLayout(9), HashMap::new(), false);
    a.SetLabel(Some(String::from("a")));
    assert!(a == b);
}

#[test]
fn storage_buffer_then_invalidated() {
    let mut m = HashMap::new();
    m.insert(0, readonly_storage_for_compute(0));
    let mut h = GPUBindGroupLayout::new(WebGPU(3), WebGPUBindGroupLayout(77), m.clone(), true);
    assert!(h.is_valid());
    h.invalidate();
    assert!(!h.is_valid());
    assert_eq!(h.entries(), &m);
    assert_eq!(h.entries().len(), 1);
    assert_eq!(h.entries()[&0].type_, GPUBindingType::ReadonlyStorageBuffer);
    assert_eq!(h.entries()[&0].visibility, 4);
}

#[test]
fn empty_and_invalid_from_the_start() {
    let h = GPUBindGroupLayout::new(WebGPU(3), WebGPUBindGroupLayout(8), HashMap::new(), false);
    assert!(h.entries().is_empty());
    assert!(!h.is_valid());
    assert_eq!(h.GetLabel(), None);
}

#[test]
fn stage_bits_are_distinct() {
    assert_eq!(VERTEX, 1);
    assert_eq!(FRAGMENT, 2);
    assert_eq!(COMPUTE, 4);
}
