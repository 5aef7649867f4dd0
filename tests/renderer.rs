use quick3d::renderer::{DrawCall, Renderer, RendererError, TextureSource};
use quick3d::scene::{ImageBlob, Material, Mesh, Scene};

fn material(name: &str, texname: &str) -> Material<[f32; 3]> {
    Material {
        name: String::from(name),
        diffuse: [0.5, 0.5, 0.5],
        diffuse_texname: String::from(texname),
    }
}

fn mesh(name: &str, material_index: usize, center: [f32; 3]) -> Mesh<[f32; 3]> {
    Mesh { name: String::from(name), material_index, geometry: center }
}

fn image(name: &str, byte: u8) -> ImageBlob {
    ImageBlob { name: String::from(name), image: vec![byte] }
}

fn sample_scene() -> Scene<[f32; 3], [f32; 3]> {
    Scene {
        materials: vec![
            material("plain", ""),
            material("brick", "brick.png"),
            material("lost", "missing.png"),
        ],
        meshes: vec![
            mesh("Cube", 0, [0.0, 0.0, 0.0]),
            mesh("Torus", 1, [0.0, 1.0, 5.0]),
            mesh("Sphere", 2, [0.0, 0.0, -2000.0]),
            mesh("Torus", 0, [3.0, 0.0, 0.0]),
        ],
        images: vec![
            image("DEFAULT_BLANK_TEXTURE.png", 0),
            image("brick.png", 1),
            image("brick.png", 2),
        ],
    }
}

#[test]
fn empty_scene_is_refused() {
    let scene: Scene<[f32; 3], [f32; 3]> =
        Scene { materials: vec![material("plain", "")], meshes: vec![], images: vec![] };
    match Renderer::new(scene) {
        Err(e) => assert_eq!(e, RendererError::EmptySceneError),
        Ok(_) => panic!("a scene without meshes must be refused"),
    }
}

#[test]
fn material_out_of_range_is_refused() {
    let scene = Scene {
        materials: vec![material("plain", "")],
        meshes: vec![mesh("a", 0, [0.0; 3]), mesh("b", 1, [0.0; 3]), mesh("c", 5, [0.0; 3])],
        images: vec![],
    };
    match Renderer::new(scene) {
        Err(e) => assert_eq!(e, RendererError::MaterialIndexOutOfRange(1)),
        Ok(_) => panic!("a mesh without material must be refused"),
    }
}

#[test]
fn get_mesh_finds_torus() {
    let renderer = Renderer::new(sample_scene()).unwrap();
    let torus = renderer.get_mesh("Torus").unwrap();
    assert_eq!(torus.name, "Torus");
    assert_eq!(torus.material_index, 1);
    assert_eq!(torus.geometry, [0.0, 1.0, 5.0]);
}

#[test]
fn get_mesh_reports_missing_name() {
    let renderer = Renderer::new(sample_scene()).unwrap();
    match renderer.get_mesh("Nonexistent") {
        Err(e) => assert_eq!(e.kind(), std::io::ErrorKind::NotFound),
        Ok(_) => panic!("no mesh carries that name"),
    }
}

#[test]
fn empty_texture_name_uses_default() {
    let renderer = Renderer::new(sample_scene()).unwrap();
    assert_eq!(renderer.resolve_texture(0), TextureSource::DefaultBlank);
}

#[test]
fn unknown_texture_name_uses_default() {
    let renderer = Renderer::new(sample_scene()).unwrap();
    assert_eq!(renderer.resolve_texture(2), TextureSource::DefaultBlank);
}

#[test]
fn texture_name_resolves_to_last_image_of_that_name() {
    let renderer = Renderer::new(sample_scene()).unwrap();
    assert_eq!(renderer.resolve_texture(1), TextureSource::Image(2));
    assert_eq!(renderer.texture_index(&String::from("DEFAULT_BLANK_TEXTURE.png")), Some(0));
    assert_eq!(renderer.texture_index(&String::from("nothing.png")), None);
}

#[test]
fn culled_mesh_gets_no_draw_call() {
    let scene = Scene {
        materials: vec![material("plain", "")],
        meshes: vec![mesh("target", 0, [0.0, 1.0, 1.0]), mesh("behind", 0, [0.0, 1.0, -2000.0])],
        images: vec![image("DEFAULT_BLANK_TEXTURE.png", 0)],
    };
    let renderer = Renderer::new(scene).unwrap();
    let draws = renderer.plan_frame(&vec![true, false]);
    assert_eq!(draws.len(), 1);
    assert_eq!(
        draws[0],
        DrawCall { mesh_index: 0, material_index: 0, texture: TextureSource::DefaultBlank }
    );
}

#[test]
fn draw_calls_follow_scene_order() {
    let renderer = Renderer::new(sample_scene()).unwrap();
    let draws = renderer.plan_frame(&vec![true, true, false, true]);
    assert_eq!(
        draws,
        vec![
            DrawCall { mesh_index: 0, material_index: 0, texture: TextureSource::DefaultBlank },
            DrawCall { mesh_index: 1, material_index: 1, texture: TextureSource::Image(2) },
            DrawCall { mesh_index: 3, material_index: 0, texture: TextureSource::DefaultBlank },
        ]
    );
}

#[test]
fn nothing_visible_draws_nothing() {
    let renderer = Renderer::new(sample_scene()).unwrap();
    assert!(renderer.plan_frame(&vec![false, false, false, false]).is_empty());
}

#[test]
fn scene_is_kept_by_renderer() {
    let renderer = Renderer::new(sample_scene()).unwrap();
    assert_eq!(renderer.scene().meshes.len(), 4);
    assert_eq!(renderer.scene().images[1].image, vec![1u8]);
}
