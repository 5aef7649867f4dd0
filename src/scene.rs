//! The scene catalogue: materials, meshes and encoded images.

use vstd::prelude::*;

verus! {

/// An encoded image and the name materials use to refer to it.
pub struct ImageBlob {
    pub name: String,
    pub image: Vec<u8>,
}

/// A piece of geometry drawn with a single material.
///
/// `geometry` holds the mesh's numeric data (vertices, bounding sphere, local-to-world
/// transform). The library carries it along and never reads it.
pub struct Mesh<G> {
    pub name: String,
    pub material_index: usize,
    pub geometry: G,
}

/// Material properties passed to the shader program. `diffuse_texname` names an
/// image of the scene; an empty name selects the default blank texture.
pub struct Material<C> {
    pub name: String,
    pub diffuse: C,
    pub diffuse_texname: String,
}

/// Geometry, materials and textures that can be rendered.
pub struct Scene<G, C> {
    pub materials: Vec<Material<C>>,
    pub meshes: Vec<Mesh<G>>,
    pub images: Vec<ImageBlob>,
}

impl<G, C> Scene<G, C> {
    /// Every mesh refers to a material of the scene.
    pub open spec fn materials_resolve(&self) -> bool {
        forall|i: int|
            0 <= i < self.meshes@.len() ==> #[trigger] self.meshes@[i].material_index
                < self.materials@.len()
    }

    /// Whether some mesh carries the name `name`.
    pub open spec fn has_mesh_named(&self, name: Seq<char>) -> bool {
        exists|i: int| 0 <= i < self.meshes@.len() && #[trigger] self.meshes@[i].name@ == name
    }

    /// `i` is the first mesh carrying the name `name`.
    pub open spec fn first_mesh_named(&self, name: Seq<char>, i: int) -> bool {
        &&& 0 <= i < self.meshes@.len()
        &&& self.meshes@[i].name@ == name
        &&& forall|j: int| 0 <= j < i ==> #[trigger] self.meshes@[j].name@ != name
    }
}

/// The last image carrying the name `name` among the first `n` images: a texture table
/// filled in image order keeps, for each name, the image inserted last.
pub open spec fn last_image_named(images: Seq<ImageBlob>, name: Seq<char>, n: int) -> Option<usize>
    decreases n,
{
    if n <= 0 {
        None
    } else if images[n - 1].name@ == name {
        Some((n - 1) as usize)
    } else {
        last_image_named(images, name, n - 1)
    }
}

/// Finds the image a texture name refers to; later images shadow earlier ones of the
/// same name.
pub fn find_image(images: &Vec<ImageBlob>, name: &String) -> (r: Option<usize>)
    ensures
        r == last_image_named(images@, name@, images@.len() as int),
{
    let mut n: usize = images.len();
    while n > 0
        invariant
            n <= images@.len(),
            last_image_named(images@, name@, images@.len() as int) == last_image_named(
                images@,
                name@,
                n as int,
            ),
        decreases n,
    {
        if images[n - 1].name == *name {
            return Some(n - 1);
        }
        n = n - 1;
    }
    None
}

} // verus!
