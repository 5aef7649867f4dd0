//! The relational scene store: where a database lives, the queries that read shader
//! sources from it, and the checks that turn its scene-node rows into meshes.

use vstd::prelude::*;
use vstd::string::StringExecFns;

use crate::errors::not_found_error;
use crate::shader::Shader;
use crate::text::{push_signed_decimal, signed_decimal};

verus! {

/// A database connection, carried through without being looked into.
#[verifier::external_type_specification]
#[verifier::external_body]
pub struct ExConnection(rusqlite::Connection);

/// An error reported by the database, carried through without being looked into.
#[verifier::external_type_specification]
#[verifier::external_body]
pub struct ExSqlError(rusqlite::Error);

/// Relies on std::path::Path::exists: whether a file is found at the path when asked.
#[verifier::external_body]
fn path_exists(path: &str) -> bool {
    std::path::Path::new(path).exists()
}

/// Relies on rusqlite::Connection::open: opens the database file at the path.
#[verifier::external_body]
fn open_connection(path: &str) -> Result<rusqlite::Connection, rusqlite::Error> {
    rusqlite::Connection::open(path)
}

/// Relies on rusqlite::Connection::query_row: runs the query and reads the first column
/// of its first row.
#[verifier::external_body]
fn query_first_column<T: rusqlite::types::FromSql>(conn: &rusqlite::Connection, sql: &str) -> Result<
    T,
    rusqlite::Error,
> {
    conn.query_row(sql, [], |row| row.get(0))
}

/// Why reading from the scene store failed.
#[derive(Debug)]
pub enum DBLoaderError {
    /// The database file could not be found.
    IoError(std::io::Error),
    /// The database refused a query.
    DBError(rusqlite::Error),
    /// The vertex table is empty.
    NoVertices,
    /// A scene node names a material id below 1 (ids start at 1).
    InvalidMaterialId(i32),
    /// A scene node refers to a material the store does not hold.
    MaterialIndexOutOfBounds(usize),
    /// A scene node's vertex range does not lie within the vertex table.
    VertexRangeOutOfBounds(i32, i32),
}

/// A handle on a scene store: the path of its database file.
pub struct DBLoader {
    filename: String,
}

impl View for DBLoader {
    type V = Seq<char>;

    closed spec fn view(&self) -> Seq<char> {
        self.filename@
    }
}

/// The query that finds a shader's id by its name.
pub open spec fn shader_id_sql(name: Seq<char>) -> Seq<char> {
    "SELECT id FROM shader WHERE name = '"@ + name + "'"@
}

/// The query that reads one stage (`vertex` or `fragment`) of a shader's source for a
/// GLSL version.
pub open spec fn shader_source_sql(shader_id: i32, version: Seq<char>, stage: Seq<char>) -> Seq<
    char,
> {
    "SELECT source FROM shader_version WHERE shader_id="@ + signed_decimal(shader_id as int)
        + " AND version = "@ + version + " AND type = '"@ + stage + "';"@
}

/// Builds the query that finds a shader's id by its name.
pub fn shader_id_query(name: &str) -> (r: String)
    ensures
        r@ == shader_id_sql(name@),
{
    let mut sql = String::from_str("SELECT id FROM shader WHERE name = '");
    sql.append(name);
    sql.append("'");
    sql
}

/// Builds the query that reads one stage of a shader's source for a GLSL version.
pub fn shader_source_query(shader_id: i32, version: &str, stage: &str) -> (r: String)
    ensures
        r@ == shader_source_sql(shader_id, version@, stage@),
{
    let mut sql = String::from_str("SELECT source FROM shader_version WHERE shader_id=");
    push_signed_decimal(&mut sql, shader_id);
    sql.append(" AND version = ");
    sql.append(version);
    sql.append(" AND type = '");
    sql.append(stage);
    sql.append("';");
    sql
}

impl DBLoader {
    /// A loader for the database file at `filename`; fails with a not-found I/O error
    /// when no file is there.
    pub fn new(filename: &str) -> (r: Result<DBLoader, DBLoaderError>)
        ensures
            r matches Ok(loader) ==> loader@ == filename@,
            r matches Err(e) ==> e is IoError,
    {
        if !path_exists(filename) {
            let mut message = String::from_str("Unable to load ");
            message.append(filename);
            return Err(DBLoaderError::IoError(not_found_error(message)));
        }
        Ok(DBLoader { filename: String::from_str(filename) })
    }

    /// The path of the database file.
    pub fn filename(&self) -> (r: &str)
        ensures
            r@ == self@,
    {
        self.filename.as_str()
    }

    /// Reads the vertex and fragment sources stored for a shader under a GLSL version.
    ///
    /// The shader's id is found by `shader_id_query(name)`; the sources are then read by
    /// `shader_source_query(id, glsl_version_string, "vertex")` and its `"fragment"`
    /// counterpart. Any query the database refuses, or that finds no row, fails the load.
    pub fn load_shader(&self, name: &str, glsl_version_string: &str) -> (r: Result<
        Shader,
        DBLoaderError,
    >)
        ensures
            r matches Ok(shader) ==> shader.name@ == name@,
            r matches Err(e) ==> e is DBError,
    {
        let conn = match open_connection(self.filename.as_str()) {
            Ok(c) => c,
            Err(e) => return Err(DBLoaderError::DBError(e)),
        };
        let id_sql = shader_id_query(name);
        let shader_id = match query_first_column::<i32>(&conn, id_sql.as_str()) {
            Ok(id) => id,
            Err(e) => return Err(DBLoaderError::DBError(e)),
        };
        let vertex_sql = shader_source_query(shader_id, glsl_version_string, "vertex");
        let fragment_sql = shader_source_query(shader_id, glsl_version_string, "fragment");
        let vertex_source = match query_first_column::<String>(&conn, vertex_sql.as_str()) {
            Ok(s) => s,
            Err(e) => return Err(DBLoaderError::DBError(e)),
        };
        let fragment_source = match query_first_column::<String>(&conn, fragment_sql.as_str()) {
            Ok(s) => s,
            Err(e) => return Err(DBLoaderError::DBError(e)),
        };
        Ok(Shader { name: String::from_str(name), vertex_source, fragment_source })
    }
}

/// A row of the scene-node table: a named mesh, its material, and the range
/// `[start_position, end_position)` of its vertices in the vertex table.
pub struct SceneNode {
    pub name: String,
    pub material_index: usize,
    pub start_position: i32,
    pub end_position: i32,
}

/// Why a scene node cannot become a mesh of a store holding `vertex_count` vertices and
/// `material_count` materials, if it cannot.
pub open spec fn node_error(node: SceneNode, vertex_count: nat, material_count: nat) -> Option<
    DBLoaderError,
> {
    if !(0 <= node.start_position <= node.end_position && node.end_position <= vertex_count) {
        Some(DBLoaderError::VertexRangeOutOfBounds(node.start_position, node.end_position))
    } else if node.material_index >= material_count {
        Some(DBLoaderError::MaterialIndexOutOfBounds(node.material_index))
    } else {
        None
    }
}

/// The first node among the first `n` that cannot become a mesh, and why.
pub open spec fn first_node_error(
    nodes: Seq<SceneNode>,
    vertex_count: nat,
    material_count: nat,
    n: int,
) -> Option<DBLoaderError>
    decreases n,
{
    if n <= 0 {
        None
    } else {
        match first_node_error(nodes, vertex_count, material_count, n - 1) {
            Some(e) => Some(e),
            None => node_error(nodes[n - 1], vertex_count, material_count),
        }
    }
}

impl SceneNode {
    /// A scene node from a table row. Material ids start at 1 in the store; the node keeps
    /// the index of the material in the material list, one less.
    pub fn from_row(name: String, material_id: i32, start_position: i32, end_position: i32) -> (r:
        Result<SceneNode, DBLoaderError>)
        ensures
            material_id < 1 <==> (r matches Err(DBLoaderError::InvalidMaterialId(id))
                && id == material_id),
            r is Ok <==> material_id >= 1,
            r matches Ok(node) ==> node.name == name && node.material_index == material_id - 1
                && node.start_position == start_position && node.end_position == end_position,
    {
        if material_id < 1 {
            return Err(DBLoaderError::InvalidMaterialId(material_id));
        }
        Ok(SceneNode {
            name,
            material_index: (material_id - 1) as usize,
            start_position,
            end_position,
        })
    }

    /// Why this node cannot become a mesh, if it cannot.
    pub fn check(&self, vertex_count: usize, material_count: usize) -> (r: Option<DBLoaderError>)
        ensures
            r == node_error(*self, vertex_count as nat, material_count as nat),
    {
        if !(0 <= self.start_position && self.start_position <= self.end_position
            && self.end_position as usize <= vertex_count) {
            Some(DBLoaderError::VertexRangeOutOfBounds(self.start_position, self.end_position))
        } else if self.material_index >= material_count {
            Some(DBLoaderError::MaterialIndexOutOfBounds(self.material_index))
        } else {
            None
        }
    }
}

/// Cuts each node's vertices out of the vertex table, in node order.
///
/// Fails when the vertex table is empty, and otherwise with the reason the first node
/// that cannot become a mesh gives.
pub fn mesh_vertex_lists<V: Copy>(
    vertices: &Vec<V>,
    nodes: &Vec<SceneNode>,
    material_count: usize,
) -> (r: Result<Vec<Vec<V>>, DBLoaderError>)
    ensures
        vertices@.len() == 0 ==> r matches Err(DBLoaderError::NoVertices),
        vertices@.len() > 0 ==> (r is Ok <==> first_node_error(
            nodes@,
            vertices@.len(),
            material_count as nat,
            nodes@.len() as int,
        ) is None),
        vertices@.len() > 0 ==> (r matches Err(e) ==> Some(e) == first_node_error(
            nodes@,
            vertices@.len(),
            material_count as nat,
            nodes@.len() as int,
        )),
        r matches Ok(lists) ==> {
            &&& lists@.len() == nodes@.len()
            &&& forall|k: int|
                0 <= k < nodes@.len() ==> #[trigger] lists@[k]@ == vertices@.subrange(
                    nodes@[k].start_position as int,
                    nodes@[k].end_position as int,
                )
        },
{
    if vertices.len() == 0 {
        return Err(DBLoaderError::NoVertices);
    }
    let mut lists: Vec<Vec<V>> = Vec::new();
    let mut k: usize = 0;
    while k < nodes.len()
        invariant
            vertices@.len() > 0,
            k <= nodes@.len(),
            first_node_error(nodes@, vertices@.len(), material_count as nat, k as int) is None,
            lists@.len() == k,
            forall|j: int|
                0 <= j < k ==> #[trigger] lists@[j]@ == vertices@.subrange(
                    nodes@[j].start_position as int,
                    nodes@[j].end_position as int,
                ),
        decreases nodes@.len() - k,
    {
        let node = &nodes[k];
        match node.check(vertices.len(), material_count) {
            Some(e) => {
                proof {
                    lemma_first_error_stays(
                        nodes@,
                        vertices@.len(),
                        material_count as nat,
                        k as int + 1,
                        nodes@.len() as int,
                    );
                }
                return Err(e);
            },
            None => {},
        }
        let start = node.start_position as usize;
        let end = node.end_position as usize;
        let mut list: Vec<V> = Vec::new();
        let mut i: usize = start;
        while i < end
            invariant
                start <= i <= end,
                end <= vertices@.len(),
                list@ == vertices@.subrange(start as int, i as int),
            decreases end - i,
        {
            list.push(vertices[i]);
            proof {
                assert(list@ =~= vertices@.subrange(start as int, i + 1));
            }
            i = i + 1;
        }
        lists.push(list);
        k = k + 1;
    }
    Ok(lists)
}

/// Once a node fails, the first failure among a longer prefix is the same.
proof fn lemma_first_error_stays(
    nodes: Seq<SceneNode>,
    vertex_count: nat,
    material_count: nat,
    m: int,
    n: int,
)
    requires
        0 < m <= n,
        first_node_error(nodes, vertex_count, material_count, m) is Some,
    ensures
        first_node_error(nodes, vertex_count, material_count, n) == first_node_error(
            nodes,
            vertex_count,
            material_count,
            m,
        ),
    decreases n - m,
{
    if n > m {
        lemma_first_error_stays(nodes, vertex_count, material_count, m, n - 1);
    }
}

} // verus!
