//! Mesh types, their registry, and their instances.

use vstd::prelude::*;
use vstd::slice::slice_to_vec;
use crate::buffer::ObjectInformation;
use crate::error::Error;
use crate::words::{
    QuaternionWords, TriangleIndices, Vec3, Vec4, Vertex, HALF, NEG_HALF, NEG_ONE, NEG_PHI, ONE,
    PHI, ZERO,
};

verus! {

/// The ids under which the built-in meshes are registered.
pub struct Primitive;

impl Primitive {
    /// The id of the sphere, an icosahedron.
    pub const SPHERE: usize = 0;

    /// The id of the unit cube.
    pub const CUBE: usize = 1;
}

/// The largest number of triangles that one draw covers: three indices for
/// each have to fit the driver's signed 32-bit count.
pub const MAX_TRIANGLES: usize = 715_827_882;

/// A registered mesh: its vertices, its triangles, its name, and the driver
/// resources that it is drawn through. It never changes once registered.
#[derive(Debug, PartialEq, Eq)]
pub struct ObjectType {
    verts: Vec<Vertex>,
    tris: Vec<TriangleIndices>,
    name: String,
    info: ObjectInformation,
}

/// What an [`ObjectType`] holds, as plain sequences.
pub struct ObjectTypeView {
    pub verts: Seq<Vertex>,
    pub tris: Seq<TriangleIndices>,
    pub name: Seq<char>,
    pub info: ObjectInformation,
}

impl ObjectTypeView {
    /// The number of indices that a draw of all triangles covers.
    pub open spec fn index_count(self) -> nat {
        3 * self.tris.len()
    }

    /// Every index of every triangle names a vertex of the mesh.
    pub open spec fn indices_in_range(self) -> bool {
        forall|t: int, c: int|
            0 <= t < self.tris.len() && 0 <= c < 3 ==> 0 <= (#[trigger] self.tris[t][c])
                < self.verts.len()
    }
}

impl View for ObjectType {
    type V = ObjectTypeView;

    closed spec fn view(&self) -> ObjectTypeView {
        ObjectTypeView { verts: self.verts@, tris: self.tris@, name: self.name@, info: self.info }
    }
}

impl ObjectType {
    #[verifier::type_invariant]
    spec fn drawable(&self) -> bool {
        self.tris@.len() <= MAX_TRIANGLES
    }

    /// A mesh type made of copies of the given parts.
    fn new(name: &str, verts: &[Vertex], tris: &[TriangleIndices], info: ObjectInformation) -> (ty:
        Self)
        requires
            tris@.len() <= MAX_TRIANGLES,
        ensures
            ty@ == (ObjectTypeView { verts: verts@, tris: tris@, name: name@, info }),
    {
        ObjectType { verts: slice_to_vec(verts), tris: slice_to_vec(tris), name: name.to_owned(), info }
    }

    /// The vertices of the mesh.
    pub fn vertices(&self) -> (verts: &[Vertex])
        ensures
            verts@ == self@.verts,
    {
        self.verts.as_slice()
    }

    /// The triangles of the mesh.
    pub fn triangles(&self) -> (tris: &[TriangleIndices])
        ensures
            tris@ == self@.tris,
    {
        self.tris.as_slice()
    }

    /// The display name of the mesh.
    pub fn name(&self) -> (name: &str)
        ensures
            name@ == self@.name,
    {
        self.name.as_str()
    }

    /// The driver resources of the mesh.
    pub fn info(&self) -> (info: ObjectInformation)
        ensures
            info == self@.info,
    {
        self.info
    }

    /// The number of indices that a draw of all triangles covers: three for
    /// each triangle.
    pub fn index_count(&self) -> (count: i32)
        ensures
            count == self@.index_count(),
    {
        proof {
            use_type_invariant(self);
        }
        let triangles: usize = self.tris.len();
        (triangles * 3) as i32
    }
}

/// An instance of a mesh type, placed in a scene.
#[derive(Clone, Copy, Debug, PartialEq, Eq)]
pub struct Object {
    /// The id of the mesh type in the registry.
    pub object_type: usize,
    pub position: Vec3,
    pub orientation: QuaternionWords,
    pub scale: Vec3,
    pub color: Vec4,
}

/// The vertices of the built-in sphere: the twelve corners of an icosahedron,
/// three golden rectangles at right angles to each other.
pub open spec fn sphere_vertices() -> Seq<Vertex> {
    seq![
        [NEG_ONE, PHI, ZERO],
        [ONE, PHI, ZERO],
        [NEG_ONE, NEG_PHI, ZERO],
        [ONE, NEG_PHI, ZERO],
        [ZERO, NEG_ONE, PHI],
        [ZERO, ONE, PHI],
        [ZERO, NEG_ONE, NEG_PHI],
        [ZERO, ONE, NEG_PHI],
        [PHI, ZERO, NEG_ONE],
        [PHI, ZERO, ONE],
        [NEG_PHI, ZERO, NEG_ONE],
        [NEG_PHI, ZERO, ONE],
    ]
}

/// The triangles of the built-in sphere: the twenty faces of the icosahedron.
pub open spec fn sphere_triangles() -> Seq<TriangleIndices> {
    seq![
        [0i32, 11i32, 5i32],
        [0i32, 5i32, 1i32],
        [0i32, 1i32, 7i32],
        [0i32, 7i32, 10i32],
        [0i32, 10i32, 11i32],
        [1i32, 5i32, 9i32],
        [5i32, 11i32, 4i32],
        [11i32, 10i32, 2i32],
        [10i32, 7i32, 6i32],
        [7i32, 1i32, 8i32],
        [3i32, 9i32, 4i32],
        [3i32, 4i32, 2i32],
        [3i32, 2i32, 6i32],
        [3i32, 6i32, 8i32],
        [3i32, 8i32, 9i32],
        [4i32, 9i32, 5i32],
        [2i32, 4i32, 11i32],
        [6i32, 2i32, 10i32],
        [8i32, 6i32, 7i32],
        [9i32, 8i32, 1i32],
    ]
}

/// The vertices of the built-in cube, of side one around the origin. Vertex
/// `k` lies on the positive side of the `x`, `y` and `z` axis where bit 0,
/// 1 and 2 of `k` is set.
pub open spec fn cube_vertices() -> Seq<Vertex> {
    seq![
        [NEG_HALF, NEG_HALF, NEG_HALF],
        [HALF, NEG_HALF, NEG_HALF],
        [NEG_HALF, HALF, NEG_HALF],
        [HALF, HALF, NEG_HALF],
        [NEG_HALF, NEG_HALF, HALF],
        [HALF, NEG_HALF, HALF],
        [NEG_HALF, HALF, HALF],
        [HALF, HALF, HALF],
    ]
}

/// The triangles of the built-in cube: two for each of its six faces, wound
/// counter-clockwise as seen from outside.
pub open spec fn cube_triangles() -> Seq<TriangleIndices> {
    seq![
        [0i32, 4i32, 6i32],
        [0i32, 6i32, 2i32],
        [1i32, 3i32, 7i32],
        [1i32, 7i32, 5i32],
        [0i32, 1i32, 5i32],
        [0i32, 5i32, 4i32],
        [2i32, 6i32, 7i32],
        [2i32, 7i32, 3i32],
        [0i32, 2i32, 3i32],
        [0i32, 3i32, 1i32],
        [4i32, 5i32, 7i32],
        [4i32, 7i32, 6i32],
    ]
}

/// The built-in sphere as a mesh type over the given resources.
pub open spec fn sphere_type(info: ObjectInformation) -> ObjectTypeView {
    ObjectTypeView { verts: sphere_vertices(), tris: sphere_triangles(), name: "sphere"@, info }
}

/// The built-in cube as a mesh type over the given resources.
pub open spec fn cube_type(info: ObjectInformation) -> ObjectTypeView {
    ObjectTypeView { verts: cube_vertices(), tris: cube_triangles(), name: "cube"@, info }
}

/// The registry of mesh types. A mesh type keeps the id that its
/// registration returned for as long as the registry lives: entries are
/// added at the end and never removed or changed.
#[derive(Debug)]
pub struct ObjectManager {
    registered_objects: Vec<ObjectType>,
}

impl View for ObjectManager {
    type V = Seq<ObjectTypeView>;

    closed spec fn view(&self) -> Seq<ObjectTypeView> {
        Seq::new(self.registered_objects@.len(), |i: int| self.registered_objects@[i]@)
    }
}

impl ObjectManager {
    /// A registry that holds the two built-in meshes, the sphere under
    /// [`Primitive::SPHERE`] and the cube under [`Primitive::CUBE`], each over
    /// the driver resources that were created for it.
    pub fn new(sphere: ObjectInformation, cube: ObjectInformation) -> (manager: Self)
        ensures
            manager@ == seq![sphere_type(sphere), cube_type(cube)],
    {
        let mut registered_objects: Vec<ObjectType> = Vec::new();
        registered_objects.push(Self::generate_sphere(sphere));
        registered_objects.push(Self::generate_cube(cube));
        let manager = ObjectManager { registered_objects };
        assert(manager@ =~= seq![sphere_type(sphere), cube_type(cube)]);
        manager
    }

    /// The number of registered mesh types.
    pub fn len(&self) -> (n: usize)
        ensures
            n == self@.len(),
    {
        self.registered_objects.len()
    }

    /// Registers a mesh under the next free id, given the outcome of the
    /// creation of its driver resources. Where that creation failed, the
    /// error is handed on and the registry stays as it was.
    pub fn register_object(
        &mut self,
        name: &str,
        verts: &[Vertex],
        tris: &[TriangleIndices],
        info: Result<ObjectInformation, Error>,
    ) -> (id: Result<usize, Error>)
        requires
            tris@.len() <= MAX_TRIANGLES,
        ensures
            match info {
                Ok(resources) => {
                    &&& id == Ok::<usize, Error>(old(self)@.len() as usize)
                    &&& final(self)@ == old(self)@.push(
                        ObjectTypeView { verts: verts@, tris: tris@, name: name@, info: resources },
                    )
                },
                Err(error) => {
                    &&& id == Err::<usize, Error>(error)
                    &&& final(self)@ == old(self)@
                },
            },
    {
        let id = self.registered_objects.len();
        let resources = match info {
            Ok(resources) => resources,
            Err(error) => {
                return Err(error);
            },
        };
        self.registered_objects.push(ObjectType::new(name, verts, tris, resources));
        assert(self@ =~= old(self)@.push(
            ObjectTypeView { verts: verts@, tris: tris@, name: name@, info: resources },
        ));
        Ok(id)
    }

    /// Looks a mesh type up by its id. An id that no registration has
    /// returned is out of range.
    pub fn from_id(&self, id: usize) -> (found: Result<&ObjectType, Error>)
        ensures
            id < self@.len() ==> found is Ok && found->Ok_0@ == self@[id as int],
            id >= self@.len() ==> found == Err::<&ObjectType, Error>(Error::IndexOutOfRange),
    {
        if id >= self.registered_objects.len() {
            return Err(Error::IndexOutOfRange);
        }
        Ok(&self.registered_objects[id])
    }

    /// The built-in sphere over the given resources.
    pub fn generate_sphere(info: ObjectInformation) -> (ty: ObjectType)
        ensures
            ty@ == sphere_type(info),
    {
        let (verts, tris) = sphere_mesh();
        ObjectType { verts, tris, name: "sphere".to_owned(), info }
    }

    /// The built-in cube over the given resources.
    pub fn generate_cube(info: ObjectInformation) -> (ty: ObjectType)
        ensures
            ty@ == cube_type(info),
    {
        let (verts, tris) = cube_mesh();
        ObjectType { verts, tris, name: "cube".to_owned(), info }
    }
}

/// The vertices and the triangles of the built-in sphere, for the driver
/// resources of the sphere to be created from.
pub fn sphere_mesh() -> (mesh: (Vec<Vertex>, Vec<TriangleIndices>))
    ensures
        mesh.0@ == sphere_vertices(),
        mesh.1@ == sphere_triangles(),
{
    let verts: Vec<Vertex> = vec![
        [NEG_ONE, PHI, ZERO],
        [ONE, PHI, ZERO],
        [NEG_ONE, NEG_PHI, ZERO],
        [ONE, NEG_PHI, ZERO],
        [ZERO, NEG_ONE, PHI],
        [ZERO, ONE, PHI],
        [ZERO, NEG_ONE, NEG_PHI],
        [ZERO, ONE, NEG_PHI],
        [PHI, ZERO, NEG_ONE],
        [PHI, ZERO, ONE],
        [NEG_PHI, ZERO, NEG_ONE],
        [NEG_PHI, ZERO, ONE],
    ];
    let tris: Vec<TriangleIndices> = vec![
        [0, 11, 5],
        [0, 5, 1],
        [0, 1, 7],
        [0, 7, 10],
        [0, 10, 11],
        [1, 5, 9],
        [5, 11, 4],
        [11, 10, 2],
        [10, 7, 6],
        [7, 1, 8],
        [3, 9, 4],
        [3, 4, 2],
        [3, 2, 6],
        [3, 6, 8],
        [3, 8, 9],
        [4, 9, 5],
        [2, 4, 11],
        [6, 2, 10],
        [8, 6, 7],
        [9, 8, 1],
    ];
    assert(verts@ =~= sphere_vertices());
    assert(tris@ =~= sphere_triangles());
    (verts, tris)
}

/// The vertices and the triangles of the built-in cube, for the driver
/// resources of the cube to be created from.
pub fn cube_mesh() -> (mesh: (Vec<Vertex>, Vec<TriangleIndices>))
    ensures
        mesh.0@ == cube_vertices(),
        mesh.1@ == cube_triangles(),
{
    let verts: Vec<Vertex> = vec![
        [NEG_HALF, NEG_HALF, NEG_HALF],
        [HALF, NEG_HALF, NEG_HALF],
        [NEG_HALF, HALF, NEG_HALF],
        [HALF, HALF, NEG_HALF],
        [NEG_HALF, NEG_HALF, HALF],
        [HALF, NEG_HALF, HALF],
        [NEG_HALF, HALF, HALF],
        [HALF, HALF, HALF],
    ];
    let tris: Vec<TriangleIndices> = vec![
        [0, 4, 6],
        [0, 6, 2],
        [1, 3, 7],
        [1, 7, 5],
        [0, 1, 5],
        [0, 5, 4],
        [2, 6, 7],
        [2, 7, 3],
        [0, 2, 3],
        [0, 3, 1],
        [4, 5, 7],
        [4, 7, 6],
    ];
    assert(verts@ =~= cube_vertices());
    assert(tris@ =~= cube_triangles());
    (verts, tris)
}

/// How often the triangle runs along the edge from vertex `a` to vertex
/// `b`, going around its corners in their order.
pub open spec fn runs_along(triangle: TriangleIndices, a: int, b: int) -> nat {
    (if triangle[0] == a && triangle[1] == b {
        1nat
    } else {
        0nat
    }) + (if triangle[1] == a && triangle[2] == b {
        1nat
    } else {
        0nat
    }) + (if triangle[2] == a && triangle[0] == b {
        1nat
    } else {
        0nat
    })
}

/// How many triangles of the list run along the edge from `a` to `b`.
pub open spec fn edge_uses(tris: Seq<TriangleIndices>, a: int, b: int) -> nat
    decreases tris.len(),
{
    if tris.len() == 0 {
        0
    } else {
        edge_uses(tris.drop_last(), a, b) + runs_along(tris.last(), a, b)
    }
}

/// Whether the triangles make a closed surface that is wound one way
/// throughout: no edge is run along twice in the same direction, and every
/// edge that is run along in one direction is run along in the other too.
pub open spec fn closed_surface(tris: Seq<TriangleIndices>) -> bool {
    forall|a: int, b: int|
        #![trigger edge_uses(tris, a, b)]
        edge_uses(tris, a, b) <= 1 && edge_uses(tris, a, b) == edge_uses(tris, b, a)
}

/// The built-in sphere has twelve vertices and twenty triangles, and the
/// built-in cube eight vertices and twelve triangles. In both, every index
/// names a vertex of the mesh.
pub proof fn lemma_builtin_meshes(info: ObjectInformation)
    ensures
        sphere_type(info).verts.len() == 12,
        sphere_type(info).tris.len() == 20,
        sphere_type(info).indices_in_range(),
        cube_type(info).verts.len() == 8,
        cube_type(info).tris.len() == 12,
        cube_type(info).indices_in_range(),
{
}

/// The triangles of the built-in cube make a closed surface that is wound
/// one way throughout.
pub proof fn lemma_cube_is_closed()
    ensures
        closed_surface(cube_triangles()),
{
    let tris = cube_triangles();
    assert forall|a: int, b: int|
        #![trigger edge_uses(tris, a, b)]
        edge_uses(tris, a, b) <= 1 && edge_uses(tris, a, b) == edge_uses(tris, b, a) by {
        lemma_edge_uses_unfold(tris, a, b, 12);
        lemma_edge_uses_unfold(tris, b, a, 12);
        reveal_with_fuel(edge_uses_upto, 13);
    }
}

/// The triangles of the built-in sphere make a closed surface that is wound
/// one way throughout.
pub proof fn lemma_sphere_is_closed()
    ensures
        closed_surface(sphere_triangles()),
{
    let tris = sphere_triangles();
    assert forall|a: int, b: int|
        #![trigger edge_uses(tris, a, b)]
        edge_uses(tris, a, b) <= 1 && edge_uses(tris, a, b) == edge_uses(tris, b, a) by {
        lemma_edge_uses_unfold(tris, a, b, 20);
        lemma_edge_uses_unfold(tris, b, a, 20);
        reveal_with_fuel(edge_uses_upto, 21);
    }
}

/// The uses of an edge among the first `n` triangles, one triangle after
/// the other.
pub open spec fn edge_uses_upto(tris: Seq<TriangleIndices>, a: int, b: int, n: int) -> nat
    decreases n,
{
    if n <= 0 {
        0
    } else {
        edge_uses_upto(tris, a, b, n - 1) + runs_along(tris[n - 1], a, b)
    }
}

/// Counting the uses of an edge from the last triangle down is counting
/// them triangle by triangle.
pub proof fn lemma_edge_uses_unfold(tris: Seq<TriangleIndices>, a: int, b: int, n: int)
    requires
        n == tris.len(),
    ensures
        edge_uses(tris, a, b) == edge_uses_upto(tris, a, b, n),
    decreases n,
{
    if n > 0 {
        lemma_edge_uses_unfold(tris.drop_last(), a, b, n - 1);
        lemma_edge_uses_upto_prefix(tris, tris.drop_last(), a, b, n - 1);
    }
}

/// The count over the first `n` triangles looks at those triangles only.
pub proof fn lemma_edge_uses_upto_prefix(
    tris: Seq<TriangleIndices>,
    head: Seq<TriangleIndices>,
    a: int,
    b: int,
    n: int,
)
    requires
        0 <= n <= head.len() <= tris.len(),
        forall|k: int| 0 <= k < n ==> head[k] == tris[k],
    ensures
        edge_uses_upto(head, a, b, n) == edge_uses_upto(tris, a, b, n),
    decreases n,
{
    if n > 0 {
        lemma_edge_uses_upto_prefix(tris, head, a, b, n - 1);
    }
}

} // verus!
