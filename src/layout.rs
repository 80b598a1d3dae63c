//! The bind-group layout handle and its abstract state.
use vstd::prelude::*;
use std::collections::HashMap;

use crate::entry::GPUBindGroupLayoutEntry;
use crate::ids::{WebGPU, WebGPUBindGroupLayout};

verus! {

/// The view of an optional label as an optional character sequence.
pub open spec fn label_view(l: Option<String>) -> Option<Seq<char>> {
    match l {
        Some(s) => Some(s@),
        None => None,
    }
}

/// The abstract state of a layout handle.
pub struct LayoutModel {
    pub channel: WebGPU,
    pub id: WebGPUBindGroupLayout,
    pub entries: Map<u32, GPUBindGroupLayoutEntry>,
    pub valid: bool,
    pub label: Option<Seq<char>>,
}

impl LayoutModel {
    /// The state after the owning context marks the layout invalid.
    pub open spec fn invalidated(self) -> LayoutModel {
        LayoutModel { valid: false, ..self }
    }

    /// The state after the label is replaced by `l`.
    pub open spec fn with_label(self, l: Option<Seq<char>>) -> LayoutModel {
        LayoutModel { label: l, ..self }
    }

    /// Whether `self` and `o` stand for the same backend resource.
    pub open spec fn same_resource(self, o: LayoutModel) -> bool {
        self.id == o.id
    }

    /// What any operation on a handle may do to its state: the channel,
    /// the identity and the entries stay, and an invalid handle stays invalid.
    pub open spec fn steps_to(self, next: LayoutModel) -> bool {
        &&& next.channel == self.channel
        &&& next.id == self.id
        &&& next.entries == self.entries
        &&& !self.valid ==> !next.valid
    }
}

/// A client-side handle to a backend bind-group layout.
pub struct GPUBindGroupLayout {
    label: Option<String>,
    bind_group_layout: WebGPUBindGroupLayout,
    entry_map: HashMap<u32, GPUBindGroupLayoutEntry>,
    channel: WebGPU,
    valid: bool,
}

impl View for GPUBindGroupLayout {
    type V = LayoutModel;

    closed spec fn view(&self) -> LayoutModel {
        LayoutModel {
            channel: self.channel,
            id: self.bind_group_layout,
            entries: self.entry_map@,
            valid: self.valid,
            label: label_view(self.label),
        }
    }
}

impl GPUBindGroupLayout {
    /// Makes a handle from data already settled with the backend. Nothing is
    /// checked here: a layout the backend refused comes with `valid` false.
    pub fn new(
        channel: WebGPU,
        bind_group_layout: WebGPUBindGroupLayout,
        entry_map: HashMap<u32, GPUBindGroupLayoutEntry>,
        valid: bool,
    ) -> (r: Self)
        ensures
            r@ == (LayoutModel {
                channel,
                id: bind_group_layout,
                entries: entry_map@,
                valid,
                label: None,
            }),
    {
        GPUBindGroupLayout { label: None, bind_group_layout, entry_map, channel, valid }
    }

    /// Whether the backend still holds the layout to be valid.
    pub fn is_valid(&self) -> (r: bool)
        ensures
            r == self@.valid,
    {
        self.valid
    }

    /// The backend identity of the layout.
    pub fn id(&self) -> (r: WebGPUBindGroupLayout)
        ensures
            r == self@.id,
    {
        self.bind_group_layout
    }

    /// The declared slots, read-only.
    pub fn entries(&self) -> (r: &HashMap<u32, GPUBindGroupLayoutEntry>)
        ensures
            r@ == self@.entries,
    {
        &self.entry_map
    }

    /// Records that the backend reported the layout, or a use of it, as
    /// failed. There is no way back.
    pub fn invalidate(&mut self)
        ensures
            final(self)@ == old(self)@.invalidated(),
            old(self)@.steps_to(final(self)@),
    {
        self.valid = false;
    }

    /// The debug label, if one is set.
    #[allow(non_snake_case)]
    pub fn GetLabel(&self) -> (r: Option<String>)
        ensures
            label_view(r) == self@.label,
    {
        match &self.label {
            Some(s) => Some(s.clone()),
            None => None,
        }
    }

    /// Replaces the debug label.
    #[allow(non_snake_case)]
    pub fn SetLabel(&mut self, value: Option<String>)
        ensures
            final(self)@ == old(self)@.with_label(label_view(value)),
            old(self)@.steps_to(final(self)@),
    {
        self.label = value;
    }
}

/// Handles are equal when they stand for the same backend resource: equality
/// goes by identity, not by the declared entries.
impl PartialEq for GPUBindGroupLayout {
    fn eq(&self, o: &GPUBindGroupLayout) -> (r: bool) {
        self.bind_group_layout == o.bind_group_layout
    }
}

impl vstd::std_specs::cmp::PartialEqSpecImpl for GPUBindGroupLayout {
    open spec fn obeys_eq_spec() -> bool {
        true
    }

    open spec fn eq_spec(&self, o: &GPUBindGroupLayout) -> bool {
        self@.same_resource(o@)
    }
}

} // verus!
