use quick3d::dbloader::{
    mesh_vertex_lists, shader_id_query, shader_source_query, DBLoader, DBLoaderError, SceneNode,
};

fn node(start: i32, end: i32, material_index: usize) -> SceneNode {
    SceneNode {
        name: String::from("node"),
        material_index,
        start_position: start,
        end_position: end,
    }
}

#[test]
fn id_query_text() {
    assert_eq!(shader_id_query("default"), "SELECT id FROM shader WHERE name = 'default'");
}

#[test]
fn source_query_text() {
    assert_eq!(
        shader_source_query(7, "330", "vertex"),
        "SELECT source FROM shader_version WHERE shader_id=7 AND version = 330 AND type = 'vertex';"
    );
    assert_eq!(
        shader_source_query(-120, "300 es", "fragment"),
        "SELECT source FROM shader_version WHERE shader_id=-120 AND version = 300 es AND type = 'fragment';"
    );
    assert_eq!(
        shader_source_query(i32::MIN, "1", "x"),
        "SELECT source FROM shader_version WHERE shader_id=-2147483648 AND version = 1 AND type = 'x';"
    );
}

#[test]
fn missing_database_file_is_not_found() {
    match DBLoader::new("/no/such/dir/scene.db") {
        Err(DBLoaderError::IoError(e)) => {
            assert_eq!(e.kind(), std::io::ErrorKind::NotFound);
            assert_eq!(e.to_string(), "Unable to load /no/such/dir/scene.db");
        }
        _ => panic!("the file does not exist"),
    }
}

#[test]
fn existing_path_gives_loader() {
    let loader = DBLoader::new("/").unwrap();
    assert_eq!(loader.filename(), "/");
}

fn shader_store(path: &str) {
    let conn = rusqlite::Connection::open(path).unwrap();
    conn.execute_batch(
        "DROP TABLE IF EXISTS shader;
         DROP TABLE IF EXISTS shader_version;
         CREATE TABLE shader (id INTEGER, name TEXT);
         CREATE TABLE shader_version (shader_id INTEGER, version INTEGER, type TEXT, source TEXT);
         INSERT INTO shader VALUES (3, 'default');
         INSERT INTO shader_version VALUES (3, 330, 'vertex', 'void main() { vertex }');
         INSERT INTO shader_version VALUES (3, 330, 'fragment', 'void main() { fragment }');
         INSERT INTO shader_version VALUES (3, 110, 'vertex', 'old vertex');",
    )
    .unwrap();
}

#[test]
fn shader_sources_are_read() {
    let path = "/tmp/quick3d_shader_sources_are_read.db";
    shader_store(path);
    let loader = DBLoader::new(path).unwrap();
    let shader = loader.load_shader("default", "330").unwrap();
    assert_eq!(shader.name, "default");
    assert_eq!(shader.vertex_source, "void main() { vertex }");
    assert_eq!(shader.fragment_source, "void main() { fragment }");
}

#[test]
fn missing_shader_or_stage_fails() {
    let path = "/tmp/quick3d_missing_shader_or_stage_fails.db";
    shader_store(path);
    let loader = DBLoader::new(path).unwrap();
    assert!(matches!(loader.load_shader("toon", "330"), Err(DBLoaderError::DBError(_))));
    assert!(matches!(loader.load_shader("default", "110"), Err(DBLoaderError::DBError(_))));
}

#[test]
fn material_ids_start_at_one() {
    let n = SceneNode::from_row(String::from("Torus"), 2, 0, 3).unwrap();
    assert_eq!(n.name, "Torus");
    assert_eq!(n.material_index, 1);
    assert_eq!((n.start_position, n.end_position), (0, 3));
    assert!(matches!(
        SceneNode::from_row(String::from("bad"), 0, 0, 3),
        Err(DBLoaderError::InvalidMaterialId(0))
    ));
}

#[test]
fn vertices_are_cut_per_node() {
    let vertices = vec![10, 11, 12, 13, 14];
    let nodes = vec![node(0, 2, 0), node(2, 5, 1), node(3, 3, 0)];
    let lists = mesh_vertex_lists(&vertices, &nodes, 2).unwrap();
    assert_eq!(lists, vec![vec![10, 11], vec![12, 13, 14], vec![]]);
}

#[test]
fn empty_vertex_table_fails() {
    let vertices: Vec<u32> = vec![];
    assert!(matches!(mesh_vertex_lists(&vertices, &vec![], 1), Err(DBLoaderError::NoVertices)));
}

#[test]
fn first_bad_node_decides() {
    let vertices = vec![1u8, 2, 3];
    let nodes = vec![node(0, 1, 0), node(1, 4, 0), node(0, 1, 9)];
    assert!(matches!(
        mesh_vertex_lists(&vertices, &nodes, 1),
        Err(DBLoaderError::VertexRangeOutOfBounds(1, 4))
    ));
    let nodes = vec![node(0, 1, 0), node(0, 1, 9), node(2, 1, 0)];
    assert!(matches!(
        mesh_vertex_lists(&vertices, &nodes, 1),
        Err(DBLoaderError::MaterialIndexOutOfBounds(9))
    ));
    assert!(matches!(
        mesh_vertex_lists(&vertices, &vec![node(-1, 1, 0)], 1),
        Err(DBLoaderError::VertexRangeOutOfBounds(-1, 1))
    ));
}
