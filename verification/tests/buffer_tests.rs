use tiny_render::{
    Buffer, BufferSetup, BufferType, BufferUsage, Command, Error, MeshPart, ObjectInformation,
    Resource, VertexArray,
};

fn upload(target: BufferType, part: MeshPart) -> Command {
    Command::BufferData { target, part, usage: BufferUsage::StaticDraw }
}

#[test]
fn vertex_array_needs_a_real_handle() {
    assert_eq!(VertexArray::new(0), None);
    assert_eq!(VertexArray::new(1), Some(VertexArray(1)));
    assert_eq!(VertexArray::new(u32::MAX), Some(VertexArray(u32::MAX)));
}

#[test]
fn vertex_array_binds_itself_and_clears_with_zero() {
    assert_eq!(VertexArray(5).bind(), Command::BindVertexArray { array: 5 });
    assert_eq!(VertexArray::clear_binding(), Command::BindVertexArray { array: 0 });
}

#[test]
fn buffer_needs_a_real_handle() {
    assert_eq!(Buffer::new(0, BufferType::Array), None);
    assert_eq!(
        Buffer::new(3, BufferType::ElementArray),
        Some(Buffer { bo: 3, ty: BufferType::ElementArray })
    );
}

#[test]
fn buffer_commands_name_its_binding_point() {
    let buffer = Buffer { bo: 9, ty: BufferType::ElementArray };
    assert_eq!(buffer.bind(), Command::BindBuffer { target: BufferType::ElementArray, buffer: 9 });
    assert_eq!(
        Buffer::clear_binding(BufferType::Array),
        Command::BindBuffer { target: BufferType::Array, buffer: 0 }
    );
    assert_eq!(
        buffer.buffer_data(MeshPart::Indices, BufferUsage::StaticDraw),
        upload(BufferType::ElementArray, MeshPart::Indices)
    );
}

#[test]
fn setup_creates_every_resource_in_order() {
    let verts = [[1u32, 2, 3], [4, 5, 6]];
    let tris = [[0i32, 1, 0]];
    let (mut setup, first) = ObjectInformation::new(&verts, &tris);
    assert_eq!(first, vec![Command::GenVertexArray]);
    assert_eq!(setup.finish(), None);

    assert_eq!(
        setup.step(11),
        vec![Command::BindVertexArray { array: 11 }, Command::GenBuffer]
    );
    assert_eq!(setup.finish(), None);
    assert_eq!(
        setup.step(12),
        vec![
            Command::BindBuffer { target: BufferType::Array, buffer: 12 },
            upload(BufferType::Array, MeshPart::Vertices),
            Command::VertexAttribPointer { index: 0, size: 3, stride: 12 },
            Command::EnableVertexAttribArray { index: 0 },
            Command::GenBuffer,
        ]
    );
    assert_eq!(
        setup.step(13),
        vec![
            Command::BindBuffer { target: BufferType::ElementArray, buffer: 13 },
            upload(BufferType::ElementArray, MeshPart::Indices),
            Command::GenBuffer,
        ]
    );
    assert_eq!(setup.finish(), None);
    assert_eq!(
        setup.step(14),
        vec![Command::BindBuffer { target: BufferType::Array, buffer: 14 }]
    );
    assert_eq!(
        setup.finish(),
        Some(Ok(ObjectInformation {
            vao: VertexArray(11),
            inst_vbo: Buffer { bo: 14, ty: BufferType::Array },
        }))
    );
    // a finished setup takes no more answers
    assert_eq!(setup.step(15), vec![]);
    assert_eq!(
        setup.finish(),
        Some(Ok(ObjectInformation {
            vao: VertexArray(11),
            inst_vbo: Buffer { bo: 14, ty: BufferType::Array },
        }))
    );
}

#[test]
fn setup_fails_at_the_first_null_handle() {
    for failing in 0..4usize {
        let (mut setup, _) = ObjectInformation::new(&[], &[]);
        for step in 0..4usize {
            let handle = if step == failing { 0 } else { 20 + step as u32 };
            let commands = setup.step(handle);
            if step >= failing {
                assert_eq!(commands, vec![]);
            } else {
                assert!(!commands.is_empty());
            }
        }
        let resource = if failing == 0 { Resource::VertexArray } else { Resource::Buffer };
        assert_eq!(setup.finish(), Some(Err(Error::AllocationError(resource))));
    }
}

#[test]
fn setup_lays_the_mesh_out_as_bytes() {
    let verts = [[0x3F80_0000u32, 0, 0xBF80_0000], [1, 2, 3]];
    let tris = [[0i32, 1, -1]];
    let (setup, _) = ObjectInformation::new(&verts, &tris);
    let mut vertex_bytes: Vec<u8> = Vec::new();
    for v in verts {
        for word in v {
            vertex_bytes.extend_from_slice(&word.to_ne_bytes());
        }
    }
    let mut index_bytes: Vec<u8> = Vec::new();
    for t in tris {
        for index in t {
            index_bytes.extend_from_slice(&index.to_ne_bytes());
        }
    }
    assert_eq!(setup.bytes(MeshPart::Vertices), &vertex_bytes);
    assert_eq!(setup.bytes(MeshPart::Indices), &index_bytes);
    assert_eq!(setup.bytes(MeshPart::Vertices).len(), 24);
    assert_eq!(setup.bytes(MeshPart::Indices).len(), 12);
}

#[test]
fn setup_of_an_empty_mesh_has_no_bytes() {
    let (setup, _) = ObjectInformation::new(&[], &[]);
    assert!(setup.bytes(MeshPart::Vertices).is_empty());
    assert!(setup.bytes(MeshPart::Indices).is_empty());
}

#[test]
fn begin_keeps_the_bytes_it_is_given() {
    let (mut setup, first) = BufferSetup::begin(vec![1, 2, 3], vec![4, 5]);
    assert_eq!(first, vec![Command::GenVertexArray]);
    setup.step(1);
    setup.step(2);
    assert_eq!(setup.bytes(MeshPart::Vertices), &vec![1, 2, 3]);
    assert_eq!(setup.bytes(MeshPart::Indices), &vec![4, 5]);
}
