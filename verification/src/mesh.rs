//! Mesh-side plain data: the reference a scene entity keeps to its loaded
//! mesh, the buffer-kind tags of the graphics API, and the assembly of
//! interleaved vertices from the flat position/normal/texture-coordinate
//! streams a model file loader hands out.

use vstd::prelude::*;

verus! {

/// An entity's reference to a mesh in the resource manager.
#[derive(Debug, Clone, Copy, PartialEq, Eq, Structural)]
pub struct MeshRef {
    pub mesh_resource_id: usize,
}

/// The kind of buffer a mesh stream is uploaded into.
#[derive(Debug, Clone, Copy, PartialEq, Eq, Structural)]
pub enum BufferType {
    ArrayBuffer,
    ElementArrayBuffer,
}

/// `GL_ARRAY_BUFFER` in the native buffer-target enumeration.
pub const GL_ARRAY_BUFFER: u32 = 34962;

/// `GL_ELEMENT_ARRAY_BUFFER` in the native buffer-target enumeration.
pub const GL_ELEMENT_ARRAY_BUFFER: u32 = 34963;

impl BufferType {
    /// The native buffer-target code of this buffer kind.
    pub fn to_gl(self) -> (r: u32)
        ensures
            r == (match self {
                BufferType::ArrayBuffer => GL_ARRAY_BUFFER,
                BufferType::ElementArrayBuffer => GL_ELEMENT_ARRAY_BUFFER,
            }),
    {
        match self {
            BufferType::ArrayBuffer => GL_ARRAY_BUFFER,
            BufferType::ElementArrayBuffer => GL_ELEMENT_ARRAY_BUFFER,
        }
    }
}

/// Owns the loaded meshes — whatever per-model resource type the graphics
/// backend uploads them into — and hands out the identifiers that a
/// [`MeshRef`] names them by.
#[derive(Debug)]
pub struct ResourceManager<M> {
    pub meshes: Vec<Vec<M>>,
}

impl<M> ResourceManager<M> {
    /// A manager holding no meshes yet.
    pub fn new() -> (r: Self)
        ensures
            r.meshes@ == Seq::<Vec<M>>::empty(),
    {
        ResourceManager { meshes: Vec::new() }
    }

    /// Add mesh and return mesh id that can be used to retrieve it.
    pub fn add_mesh(&mut self, mesh: Vec<M>) -> (r: usize)
        ensures
            r == old(self).meshes@.len(),
            final(self).meshes@ == old(self).meshes@.push(mesh),
    {
        self.meshes.push(mesh);
        self.meshes.len() - 1
    }

    /// The mesh filed under `index`, exactly as it was added.
    pub fn get_mesh(&self, index: usize) -> (r: &Vec<M>)
        requires
            index < self.meshes@.len(),
        ensures
            r == self.meshes@[index as int],
    {
        &self.meshes[index]
    }
}

/// One interleaved vertex: a position, a normal, and a texture coordinate,
/// over whatever scalar the mesh streams carry.
#[derive(Debug, Clone, Copy)]
pub struct Vertex<T> {
    pub position: [T; 3],
    pub normal: [T; 3],
    pub tex_coord: [T; 2],
}

/// Assembles interleaved vertices from the flat streams of a loaded model:
/// vertex `i` takes positions and normals `3*i .. 3*i+3` and texture
/// coordinates `2*i .. 2*i+2`. The vertex count is the position count
/// divided by three; the other streams must reach that far.
pub fn assemble_vertices<T: Copy>(
    positions: &Vec<T>,
    normals: &Vec<T>,
    texcoords: &Vec<T>,
) -> (r: Vec<Vertex<T>>)
    requires
        normals@.len() >= 3 * (positions@.len() / 3),
        texcoords@.len() >= 2 * (positions@.len() / 3),
    ensures
        r@.len() == positions@.len() / 3,
        forall|i: int|
            0 <= i < r@.len() ==> {
                &&& (#[trigger] r@[i]).position@ == seq![
                    positions@[3 * i],
                    positions@[3 * i + 1],
                    positions@[3 * i + 2],
                ]
                &&& r@[i].normal@ == seq![
                    normals@[3 * i],
                    normals@[3 * i + 1],
                    normals@[3 * i + 2],
                ]
                &&& r@[i].tex_coord@ == seq![texcoords@[2 * i], texcoords@[2 * i + 1]]
            },
{
    let n = positions.len() / 3;
    proof {
        vstd::arithmetic::div_mod::lemma_fundamental_div_mod(positions@.len() as int, 3);
        vstd::arithmetic::div_mod::lemma_mod_bound(positions@.len() as int, 3);
    }
    let mut vertices: Vec<Vertex<T>> = Vec::new();
    let mut i: usize = 0;
    let mut p: usize = 0;
    let mut t: usize = 0;
    while i < n
        invariant
            i <= n,
            n == positions@.len() / 3,
            3 * n <= positions@.len(),
            positions@.len() <= usize::MAX,
            normals@.len() >= 3 * n,
            texcoords@.len() >= 2 * n,
            p == 3 * i,
            t == 2 * i,
            vertices@.len() == i,
            forall|k: int|
                0 <= k < i ==> {
                    &&& (#[trigger] vertices@[k]).position@ == seq![
                        positions@[3 * k],
                        positions@[3 * k + 1],
                        positions@[3 * k + 2],
                    ]
                    &&& vertices@[k].normal@ == seq![
                        normals@[3 * k],
                        normals@[3 * k + 1],
                        normals@[3 * k + 2],
                    ]
                    &&& vertices@[k].tex_coord@ == seq![texcoords@[2 * k], texcoords@[2 * k + 1]]
                },
        decreases n - i,
    {
        proof {
            assert(3 * (i as int) + 2 < 3 * (n as int)) by (nonlinear_arith)
                requires
                    i < n,
            ;
        }
        let p1 = p + 1;
        let p2 = p + 2;
        let t1 = t + 1;
        let vertex = Vertex {
            position: [positions[p], positions[p1], positions[p2]],
            normal: [normals[p], normals[p1], normals[p2]],
            tex_coord: [texcoords[t], texcoords[t1]],
        };
        proof {
            assert(vertex.position@ =~= seq![
                positions@[3 * i],
                positions@[3 * i + 1],
                positions@[3 * i + 2],
            ]);
            assert(vertex.normal@ =~= seq![
                normals@[3 * i],
                normals@[3 * i + 1],
                normals@[3 * i + 2],
            ]);
            assert(vertex.tex_coord@ =~= seq![texcoords@[2 * i], texcoords@[2 * i + 1]]);
        }
        vertices.push(vertex);
        i += 1;
        p += 3;
        t += 2;
    }
    vertices
}

} // verus!
