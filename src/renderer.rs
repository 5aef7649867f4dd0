//! Per-frame draw planning: which meshes are drawn, in which order, with which
//! material and texture.
//!
//! The bounding-sphere test against the view frustum is floating-point work done by the
//! graphics front end; it hands the outcome in as one visibility flag per mesh.

use vstd::prelude::*;
use vstd::string::StringExecFns;

use crate::errors::not_found_error;
use crate::scene::{find_image, last_image_named, ImageBlob, Mesh, Scene};

verus! {

/// Why a renderer could not be built from a scene.
#[derive(Debug, PartialEq, Eq, Structural)]
pub enum RendererError {
    /// The scene holds no mesh.
    EmptySceneError,
    /// The mesh at this index refers to a material the scene does not hold.
    MaterialIndexOutOfRange(usize),
}

/// The texture bound as a mesh's diffuse texture.
#[derive(Debug, Clone, Copy, PartialEq, Eq, Structural)]
pub enum TextureSource {
    /// The designated blank texture.
    DefaultBlank,
    /// The texture decoded from the scene image at this index.
    Image(usize),
}

/// One draw call of a frame: a mesh with its resolved material and texture.
#[derive(Debug, Clone, Copy, PartialEq, Eq, Structural)]
pub struct DrawCall {
    pub mesh_index: usize,
    pub material_index: usize,
    pub texture: TextureSource,
}

/// The texture a material's diffuse texture name resolves to: the blank texture when the
/// name is empty or names no image, else the image the texture table keeps for it.
pub open spec fn texture_for(images: Seq<ImageBlob>, texname: Seq<char>) -> TextureSource {
    if texname.len() == 0 {
        TextureSource::DefaultBlank
    } else {
        match last_image_named(images, texname, images.len() as int) {
            Some(i) => TextureSource::Image(i),
            None => TextureSource::DefaultBlank,
        }
    }
}

/// The draw call issued for the mesh at index `i`.
pub open spec fn draw_call_for<G, C>(scene: Scene<G, C>, i: int) -> DrawCall {
    let m = scene.meshes@[i].material_index;
    DrawCall {
        mesh_index: i as usize,
        material_index: m,
        texture: texture_for(scene.images@, scene.materials@[m as int].diffuse_texname@),
    }
}

/// The draw calls for the first `n` meshes, in scene order, skipping those not visible.
pub open spec fn planned_draws<G, C>(scene: Scene<G, C>, visible: Seq<bool>, n: int) -> Seq<
    DrawCall,
>
    decreases n,
{
    if n <= 0 {
        seq![]
    } else if visible[n - 1] {
        planned_draws(scene, visible, n - 1).push(draw_call_for(scene, n - 1))
    } else {
        planned_draws(scene, visible, n - 1)
    }
}

/// How many of the first `n` flags are set.
pub open spec fn count_visible(visible: Seq<bool>, n: int) -> nat
    decreases n,
{
    if n <= 0 {
        0
    } else {
        count_visible(visible, n - 1) + if visible[n - 1] {
            1nat
        } else {
            0nat
        }
    }
}

/// A scene ready to be drawn: it holds at least one mesh and every mesh's material exists.
pub struct Renderer<G, C> {
    scene: Scene<G, C>,
}

impl<G, C> Renderer<G, C> {
    #[verifier::type_invariant]
    spec fn inv(self) -> bool {
        self.scene.meshes@.len() > 0 && self.scene.materials_resolve()
    }

    /// The scene this renderer draws.
    pub closed spec fn model(self) -> Scene<G, C> {
        self.scene
    }

    /// Builds a renderer; fails on a scene without meshes, and on the first mesh whose
    /// material index is out of range.
    pub fn new(scene: Scene<G, C>) -> (r: Result<Self, RendererError>)
        ensures
            scene.meshes@.len() == 0 <==> r == Err::<Self, RendererError>(
                RendererError::EmptySceneError,
            ),
            r is Ok <==> scene.meshes@.len() > 0 && scene.materials_resolve(),
            r matches Ok(rd) ==> rd.model() == scene,
            r matches Err(RendererError::MaterialIndexOutOfRange(i)) ==> {
                &&& i < scene.meshes@.len()
                &&& scene.meshes@[i as int].material_index >= scene.materials@.len()
                &&& forall|j: int|
                    0 <= j < i ==> #[trigger] scene.meshes@[j].material_index
                        < scene.materials@.len()
            },
    {
        if scene.meshes.len() == 0 {
            return Err(RendererError::EmptySceneError);
        }
        let mut i: usize = 0;
        while i < scene.meshes.len()
            invariant
                i <= scene.meshes@.len(),
                forall|j: int|
                    0 <= j < i ==> #[trigger] scene.meshes@[j].material_index
                        < scene.materials@.len(),
            decreases scene.meshes@.len() - i,
        {
            if scene.meshes[i].material_index >= scene.materials.len() {
                return Err(RendererError::MaterialIndexOutOfRange(i));
            }
            i = i + 1;
        }
        Ok(Renderer { scene })
    }

    /// The scene this renderer draws.
    pub fn scene(&self) -> (r: &Scene<G, C>)
        ensures
            *r == self.model(),
    {
        &self.scene
    }

    /// Looks a mesh up by name: the first mesh of the scene carrying it, or a not-found
    /// error when none does.
    pub fn get_mesh(&self, name: &str) -> (r: Result<&Mesh<G>, std::io::Error>)
        ensures
            r is Ok <==> self.model().has_mesh_named(name@),
            r matches Ok(m) ==> exists|i: int|
                self.model().first_mesh_named(name@, i) && *m == self.model().meshes@[i],
    {
        let key = name.to_owned();
        let meshes = &self.scene.meshes;
        let mut i: usize = 0;
        while i < meshes.len()
            invariant
                *meshes == self.model().meshes,
                key@ == name@,
                i <= meshes@.len(),
                forall|j: int| 0 <= j < i ==> #[trigger] meshes@[j].name@ != name@,
            decreases meshes@.len() - i,
        {
            if meshes[i].name == key {
                return Ok(&meshes[i]);
            }
            i = i + 1;
        }
        Err(not_found_error(String::from_str("Unable to load mesh")))
    }

    /// The image a texture name refers to, if any.
    pub fn texture_index(&self, name: &String) -> (r: Option<usize>)
        ensures
            r == last_image_named(self.model().images@, name@, self.model().images@.len() as int),
    {
        find_image(&self.scene.images, name)
    }

    /// Resolves the diffuse texture of a material; an empty name, or one that names no
    /// image, falls back to the default blank texture.
    pub fn resolve_texture(&self, material_index: usize) -> (r: TextureSource)
        requires
            material_index < self.model().materials@.len(),
        ensures
            r == texture_for(
                self.model().images@,
                self.model().materials@[material_index as int].diffuse_texname@,
            ),
            self.model().materials@[material_index as int].diffuse_texname@.len() == 0
                ==> r == TextureSource::DefaultBlank,
            last_image_named(
                self.model().images@,
                self.model().materials@[material_index as int].diffuse_texname@,
                self.model().images@.len() as int,
            ) is None ==> r == TextureSource::DefaultBlank,
    {
        let texname = &self.scene.materials[material_index].diffuse_texname;
        if texname.as_str().is_empty() {
            TextureSource::DefaultBlank
        } else {
            match find_image(&self.scene.images, texname) {
                Some(i) => TextureSource::Image(i),
                None => TextureSource::DefaultBlank,
            }
        }
    }

    /// Plans one frame: a draw call for each mesh whose flag in `visible` is set, in scene
    /// order; meshes culled by the frustum test get none.
    pub fn plan_frame(&self, visible: &Vec<bool>) -> (draws: Vec<DrawCall>)
        requires
            visible@.len() == self.model().meshes@.len(),
        ensures
            draws@ == planned_draws(self.model(), visible@, visible@.len() as int),
            draws@.len() == count_visible(visible@, visible@.len() as int),
    {
        proof {
            use_type_invariant(self);
        }
        let mut draws: Vec<DrawCall> = Vec::new();
        let mut i: usize = 0;
        while i < visible.len()
            invariant
                visible@.len() == self.scene.meshes@.len(),
                self.scene.materials_resolve(),
                i <= visible@.len(),
                draws@ == planned_draws(self.model(), visible@, i as int),
            decreases visible@.len() - i,
        {
            if visible[i] {
                let material_index = self.scene.meshes[i].material_index;
                let texture = self.resolve_texture(material_index);
                draws.push(DrawCall { mesh_index: i, material_index, texture });
            }
            i = i + 1;
        }
        proof {
            lemma_draw_count(self.model(), visible@, visible@.len() as int);
        }
        draws
    }
}

/// One draw call is planned per visible mesh: culling removes exactly the meshes whose
/// bounding sphere failed the frustum test.
pub proof fn lemma_draw_count<G, C>(scene: Scene<G, C>, visible: Seq<bool>, n: int)
    requires
        0 <= n <= visible.len(),
    ensures
        planned_draws(scene, visible, n).len() == count_visible(visible, n),
    decreases n,
{
    if n > 0 {
        lemma_draw_count(scene, visible, n - 1);
    }
}

} // verus!
