//! Plain scene data as a scene file describes it: materials by texture
//! binding, and objects naming their mesh and material. Reading the file
//! itself is the caller's business; the library holds the decoded values.

use vstd::prelude::*;

use std::collections::HashMap;

verus! {

/// A material: its texture file by binding name.
#[derive(Debug, Clone)]
pub struct Material {
    pub textures: HashMap<String, String>,
}

/// An object: the mesh file it is built from and the material it is drawn
/// with, both by name.
#[derive(Debug, Clone)]
pub struct Object {
    pub mesh: String,
    pub material_name: String,
}

} // verus!
