use tiny_render::words::{HALF, NEG_HALF, NEG_ONE, NEG_PHI, ONE, PHI, ZERO};
use tiny_render::{
    Buffer, BufferType, Error, ObjectInformation, ObjectManager, Primitive, Resource, VertexArray,
};

fn info(vao: u32, buffer: u32) -> ObjectInformation {
    ObjectInformation { vao: VertexArray(vao), inst_vbo: Buffer { bo: buffer, ty: BufferType::Array } }
}

fn manager() -> ObjectManager {
    ObjectManager::new(info(1, 4), info(5, 8))
}

fn is_closed_surface(tris: &[[i32; 3]]) -> bool {
    let mut edges: Vec<(i32, i32)> = Vec::new();
    for t in tris {
        for c in 0..3 {
            edges.push((t[c], t[(c + 1) % 3]));
        }
    }
    edges.iter().all(|&(a, b)| {
        edges.iter().filter(|&&e| e == (a, b)).count() == 1
            && edges.iter().filter(|&&e| e == (b, a)).count() == 1
    })
}

#[test]
fn builtin_ids_are_zero_and_one() {
    assert_eq!(Primitive::SPHERE, 0);
    assert_eq!(Primitive::CUBE, 1);
}

#[test]
fn sphere_has_twelve_vertices_and_twenty_triangles_at_its_id() {
    let manager = manager();
    let sphere = manager.from_id(Primitive::SPHERE).unwrap();
    assert_eq!(sphere.vertices().len(), 12);
    assert_eq!(sphere.triangles().len(), 20);
    assert_eq!(sphere.name(), "sphere");
    assert_eq!(sphere.info(), info(1, 4));
    assert_eq!(sphere.index_count(), 60);
}

#[test]
fn cube_has_eight_vertices_and_twelve_triangles_at_its_id() {
    let manager = manager();
    let cube = manager.from_id(Primitive::CUBE).unwrap();
    assert_eq!(cube.vertices().len(), 8);
    assert_eq!(cube.triangles().len(), 12);
    assert_eq!(cube.name(), "cube");
    assert_eq!(cube.info(), info(5, 8));
    assert_eq!(cube.index_count(), 36);
}

#[test]
fn coordinate_words_are_the_bits_of_the_numbers() {
    assert_eq!(f32::from_bits(ZERO), 0.0);
    assert_eq!(f32::from_bits(ONE), 1.0);
    assert_eq!(f32::from_bits(NEG_ONE), -1.0);
    assert_eq!(f32::from_bits(HALF), 0.5);
    assert_eq!(f32::from_bits(NEG_HALF), -0.5);
    let t = (1.0 + 5.0_f32.sqrt()) / 2.0;
    assert_eq!(f32::from_bits(PHI), t);
    assert_eq!(f32::from_bits(NEG_PHI), -t);
}

#[test]
fn sphere_is_the_icosahedron() {
    let manager = manager();
    let sphere = manager.from_id(Primitive::SPHERE).unwrap();
    let t = (1.0 + 5.0_f32.sqrt()) / 2.0;
    let expected: [[f32; 3]; 12] = [
        [-1., t, 0.],
        [1., t, 0.],
        [-1., -t, 0.],
        [1., -t, 0.],
        [0., -1., t],
        [0., 1., t],
        [0., -1., -t],
        [0., 1., -t],
        [t, 0., -1.],
        [t, 0., 1.],
        [-t, 0., -1.],
        [-t, 0., 1.],
    ];
    let vertices: Vec<[f32; 3]> =
        sphere.vertices().iter().map(|v| [f32::from_bits(v[0]), f32::from_bits(v[1]), f32::from_bits(v[2])]).collect();
    assert_eq!(vertices, expected.to_vec());
    let triangles: [[i32; 3]; 20] = [
        [0, 11, 5],
        [0, 5, 1],
        [0, 1, 7],
        [0, 7, 10],
        [0, 10, 11],
        [1, 5, 9],
        [5, 11, 4],
        [11, 10, 2],
        [10, 7, 6],
        [7, 1, 8],
        [3, 9, 4],
        [3, 4, 2],
        [3, 2, 6],
        [3, 6, 8],
        [3, 8, 9],
        [4, 9, 5],
        [2, 4, 11],
        [6, 2, 10],
        [8, 6, 7],
        [9, 8, 1],
    ];
    assert_eq!(sphere.triangles(), &triangles[..]);
    assert!(is_closed_surface(sphere.triangles()));
    assert!(sphere.triangles().iter().flatten().all(|&i| 0 <= i && i < 12));
}

#[test]
fn cube_is_a_unit_cube_around_the_origin() {
    let manager = manager();
    let cube = manager.from_id(Primitive::CUBE).unwrap();
    for (k, v) in cube.vertices().iter().enumerate() {
        for axis in 0..3 {
            let expected = if k & (1 << axis) != 0 { 0.5 } else { -0.5 };
            assert_eq!(f32::from_bits(v[axis]), expected);
        }
    }
    assert!(is_closed_surface(cube.triangles()));
    assert!(cube.triangles().iter().flatten().all(|&i| 0 <= i && i < 8));
    // every triangle lies in one face and is wound counter-clockwise from outside
    for t in cube.triangles() {
        let p: Vec<[f32; 3]> = t
            .iter()
            .map(|&i| {
                let v = cube.vertices()[i as usize];
                [f32::from_bits(v[0]), f32::from_bits(v[1]), f32::from_bits(v[2])]
            })
            .collect();
        let u = [p[1][0] - p[0][0], p[1][1] - p[0][1], p[1][2] - p[0][2]];
        let w = [p[2][0] - p[0][0], p[2][1] - p[0][1], p[2][2] - p[0][2]];
        let normal =
            [u[1] * w[2] - u[2] * w[1], u[2] * w[0] - u[0] * w[2], u[0] * w[1] - u[1] * w[0]];
        let outward = normal[0] * p[0][0] + normal[1] * p[0][1] + normal[2] * p[0][2];
        assert!(outward > 0.0);
        assert_eq!(normal.iter().filter(|&&x| x != 0.0).count(), 1);
    }
}

#[test]
fn register_object_returns_the_next_free_id() {
    let mut manager = manager();
    assert_eq!(manager.len(), 2);
    let verts = [[ZERO, ZERO, ZERO], [ONE, ZERO, ZERO], [ZERO, ONE, ZERO]];
    let tris = [[0, 1, 2]];
    assert_eq!(manager.register_object("triangle", &verts, &tris, Ok(info(9, 12))), Ok(2));
    assert_eq!(manager.register_object("empty", &[], &[], Ok(info(13, 16))), Ok(3));
    assert_eq!(manager.len(), 4);

    let triangle = manager.from_id(2).unwrap();
    assert_eq!(triangle.name(), "triangle");
    assert_eq!(triangle.vertices(), &verts[..]);
    assert_eq!(triangle.triangles(), &tris[..]);
    assert_eq!(triangle.info(), info(9, 12));
    assert_eq!(triangle.index_count(), 3);

    let empty = manager.from_id(3).unwrap();
    assert_eq!(empty.name(), "empty");
    assert_eq!(empty.vertices().len(), 0);
    assert_eq!(empty.index_count(), 0);

    // the built-in meshes keep their ids
    assert_eq!(manager.from_id(Primitive::SPHERE).unwrap().name(), "sphere");
    assert_eq!(manager.from_id(Primitive::CUBE).unwrap().name(), "cube");
}

#[test]
fn register_object_without_resources_fails_and_keeps_the_registry() {
    let mut manager = manager();
    let failed = manager.register_object(
        "ghost",
        &[[ZERO, ZERO, ZERO]],
        &[],
        Err(Error::AllocationError(Resource::Buffer)),
    );
    assert_eq!(failed, Err(Error::AllocationError(Resource::Buffer)));
    assert_eq!(manager.len(), 2);
    assert_eq!(manager.from_id(2).err(), Some(Error::IndexOutOfRange));
    // the id that the failed registration would have had goes to the next one
    assert_eq!(manager.register_object("real", &[], &[], Ok(info(2, 3))), Ok(2));
}

#[test]
fn from_id_out_of_range_is_an_error() {
    let manager = manager();
    assert_eq!(manager.from_id(2).err(), Some(Error::IndexOutOfRange));
    assert_eq!(manager.from_id(usize::MAX).err(), Some(Error::IndexOutOfRange));
    assert!(manager.from_id(1).is_ok());
}

#[test]
fn generated_meshes_are_those_of_the_registry() {
    let sphere = ObjectManager::generate_sphere(info(1, 4));
    let cube = ObjectManager::generate_cube(info(5, 8));
    let manager = manager();
    assert_eq!(&sphere, manager.from_id(0).unwrap());
    assert_eq!(&cube, manager.from_id(1).unwrap());
}
