use vstd::prelude::*;

verus! {

/// Hexagon mesh data as `hexx` builds it, in the `x`/`z` ground plane with
/// `y` pointing up: vertex positions, normals, UV coordinates and the
/// triangle indices. `T` is the coordinate type.
pub struct MeshInfo<T> {
    pub vertices: Vec<[T; 3]>,
    pub normals: Vec<[T; 3]>,
    pub uvs: Vec<[T; 2]>,
    pub indices: Vec<u16>,
}

/// How the indices of a mesh group vertices into primitives, as bevy's
/// `PrimitiveTopology` names it.
#[derive(PartialEq, Eq, Structural, Clone, Copy, Debug)]
pub enum MeshTopology {
    PointList,
    LineList,
    LineStrip,
    TriangleList,
    TriangleStrip,
}

/// Where a mesh asset is kept, as bevy's `RenderAssetUsages` flags say:
/// in the main world (readable by systems) and/or in the render world.
#[derive(PartialEq, Eq, Structural, Clone, Copy, Debug)]
pub struct MeshUsage {
    pub main_world: bool,
    pub render_world: bool,
}

/// A mesh ready for bevy: its topology, where it is kept, and its vertex
/// positions, normals, UV coordinates and 16-bit indices.
pub struct MeshData<T> {
    pub topology: MeshTopology,
    pub usage: MeshUsage,
    pub positions: Vec<[T; 3]>,
    pub normals: Vec<[T; 3]>,
    pub uvs: Vec<[T; 2]>,
    pub indices: Vec<u16>,
}

/// A vertex with its `y` and `z` coordinates exchanged, which moves it from
/// the `x`/`z` ground plane into the `x`/`y` screen plane.
pub open spec fn swap_yz<T>(v: [T; 3]) -> [T; 3] {
    [v@[0], v@[2], v@[1]]
}

/// The mesh of a hexagon (or of merged hexagons) in the screen plane: the
/// vertex positions have `y` and `z` exchanged; normals, UV coordinates and
/// indices are kept as they are. It is a triangle list kept only in the
/// render world.
pub fn hexagonal_mesh<T: Copy>(mesh_info: MeshInfo<T>) -> (mesh: MeshData<T>)
    ensures
        mesh.topology == MeshTopology::TriangleList,
        mesh.usage == (MeshUsage { main_world: false, render_world: true }),
        mesh.positions@.len() == mesh_info.vertices@.len(),
        forall|i: int| 0 <= i < mesh.positions@.len() ==>
            #[trigger] mesh.positions@[i] == swap_yz(mesh_info.vertices@[i]),
        mesh.normals@ == mesh_info.normals@,
        mesh.uvs@ == mesh_info.uvs@,
        mesh.indices@ == mesh_info.indices@,
{
    let mut vertices: Vec<[T; 3]> = Vec::new();
    let n = mesh_info.vertices.len();
    for i in 0..n
        invariant
            n == mesh_info.vertices@.len(),
            vertices@.len() == i,
            forall|j: int| 0 <= j < i ==> #[trigger] vertices@[j] == swap_yz(mesh_info.vertices@[j]),
    {
        let v = mesh_info.vertices[i];
        let swapped = [v[0], v[2], v[1]];
        assert(swapped@ =~= swap_yz(v)@);
        vertices.push(swapped);
    }
    MeshData {
        topology: MeshTopology::TriangleList,
        usage: MeshUsage { main_world: false, render_world: true },
        positions: vertices,
        normals: mesh_info.normals,
        uvs: mesh_info.uvs,
        indices: mesh_info.indices,
    }
}

} // verus!
