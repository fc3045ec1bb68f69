//! The resources that the shaders see: one layout of three bindings, and two
//! bind groups that differ in which storage buffer is read and which is
//! written.

use vstd::prelude::*;

verus! {

/// The binding of the uniform buffer that holds the grid's dimensions.
pub const GRID_BINDING: u32 = 0;

/// The binding of the storage buffer that the shaders read cells from.
pub const CELLS_IN_BINDING: u32 = 1;

/// The binding of the storage buffer that the compute shader writes cells to.
pub const CELLS_OUT_BINDING: u32 = 2;

/// How many bind groups, and how many storage buffers, there are.
pub const BIND_GROUPS: usize = 2;

/// How a shader may use the buffer behind a binding.
#[derive(Clone, Copy, Debug, PartialEq, Eq)]
pub enum BindingKind {
    /// A uniform buffer.
    Uniform,
    /// A storage buffer that is only read.
    StorageRead,
    /// A storage buffer that is read and written.
    StorageWrite,
}

/// One entry of the bind group layout.
#[derive(Clone, Copy, Debug, PartialEq, Eq)]
pub struct LayoutEntry {
    /// The binding's number in the shaders.
    pub binding: u32,
    /// Whether the vertex stage sees the binding.
    pub vertex: bool,
    /// Whether the compute stage sees the binding.
    pub compute: bool,
    /// What the binding holds.
    pub kind: BindingKind,
}

/// The buffer behind a binding of a bind group.
#[derive(Clone, Copy, Debug, PartialEq, Eq)]
pub enum Resource {
    /// The uniform buffer with the grid's dimensions.
    GridUniform,
    /// The storage buffer with the given index, 0 or 1.
    Cells(usize),
}

/// One entry of a bind group.
#[derive(Clone, Copy, Debug, PartialEq, Eq)]
pub struct GroupEntry {
    /// The binding's number in the shaders.
    pub binding: u32,
    /// The buffer bound there.
    pub resource: Resource,
}

/// The layout that both pipelines share: the dimensions for the vertex and
/// the compute stage, the cells to read for both, the cells to write for the
/// compute stage alone.
pub open spec fn layout_spec() -> Seq<LayoutEntry> {
    seq![
        LayoutEntry { binding: GRID_BINDING, vertex: true, compute: true, kind: BindingKind::Uniform },
        LayoutEntry {
            binding: CELLS_IN_BINDING,
            vertex: true,
            compute: true,
            kind: BindingKind::StorageRead,
        },
        LayoutEntry {
            binding: CELLS_OUT_BINDING,
            vertex: false,
            compute: true,
            kind: BindingKind::StorageWrite,
        },
    ]
}

/// The entries of the bind group layout, in the order of their bindings.
pub fn layout_entries() -> (entries: Vec<LayoutEntry>)
    ensures
        entries@ == layout_spec(),
{
    let mut entries: Vec<LayoutEntry> = Vec::new();
    entries.push(
        LayoutEntry { binding: GRID_BINDING, vertex: true, compute: true, kind: BindingKind::Uniform },
    );
    entries.push(
        LayoutEntry {
            binding: CELLS_IN_BINDING,
            vertex: true,
            compute: true,
            kind: BindingKind::StorageRead,
        },
    );
    entries.push(
        LayoutEntry {
            binding: CELLS_OUT_BINDING,
            vertex: false,
            compute: true,
            kind: BindingKind::StorageWrite,
        },
    );
    assert(entries@ =~= layout_spec());
    entries
}

/// The storage buffer that the shaders read through bind group `group`.
pub open spec fn reads(group: int) -> int {
    group
}

/// The storage buffer that the compute shader writes through bind group
/// `group`.
pub open spec fn writes(group: int) -> int {
    1 - group
}

/// The entries of bind group `group`: it reads the storage buffer of its own
/// index and writes the other one.
pub open spec fn group_spec(group: int) -> Seq<GroupEntry> {
    seq![
        GroupEntry { binding: GRID_BINDING, resource: Resource::GridUniform },
        GroupEntry { binding: CELLS_IN_BINDING, resource: Resource::Cells(reads(group) as usize) },
        GroupEntry { binding: CELLS_OUT_BINDING, resource: Resource::Cells(writes(group) as usize) },
    ]
}

/// The entries of bind group `group`, or `None` where there is no such
/// group.
pub fn group_entries(group: usize) -> (entries: Option<Vec<GroupEntry>>)
    ensures
        entries.is_some() <==> group < BIND_GROUPS,
        entries.is_some() ==> entries.unwrap()@ == group_spec(group as int),
{
    if group >= BIND_GROUPS {
        return None;
    }
    let mut entries: Vec<GroupEntry> = Vec::new();
    entries.push(GroupEntry { binding: GRID_BINDING, resource: Resource::GridUniform });
    entries.push(GroupEntry { binding: CELLS_IN_BINDING, resource: Resource::Cells(group) });
    entries.push(GroupEntry { binding: CELLS_OUT_BINDING, resource: Resource::Cells(1 - group) });
    assert(entries@ =~= group_spec(group as int));
    Some(entries)
}

/// No bind group reads the buffer that it writes, and what one group reads
/// the other writes.
pub proof fn lemma_groups_cross(group: int)
    requires
        0 <= group < BIND_GROUPS,
    ensures
        reads(group) != writes(group),
        0 <= reads(group) < BIND_GROUPS,
        0 <= writes(group) < BIND_GROUPS,
        reads(1 - group) == writes(group),
        writes(1 - group) == reads(group),
{
}

} // verus!
