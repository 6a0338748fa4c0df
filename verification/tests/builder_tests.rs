use wiener::buffers::{
    AttribPointer, Buffer, ElementBuffer, UniformBuffer, VertexArray, VertexAttribute,
    VertexBuffer,
};
use wiener::framebuffer::{AttachTarget, Attachment, FrameBuffer};
use wiener::glenum;
use wiener::mesh::Mesh;
use wiener::shader::{get_shader_type, Shader, ShaderProgram};
use wiener::textures::{CubeMapTexture, ExportKind, RenderBuffer, Texture2D};
use wiener::types::HasID;
use wiener::window::{CursorMode, WindowDescriptor, WindowMode};

#[test]
fn window_descriptor_starts_from_its_defaults() {
    let d = WindowDescriptor::builder();
    assert_eq!(d.width, 640);
    assert_eq!(d.height, 480);
    assert_eq!(d.title, "Hello World!");
    assert_eq!(d.mode, WindowMode::Windowed);
    assert!(d.key_polling);
    assert!(d.cursor_enter_polling);
    assert!(d.cursor_pos_polling);
    assert!(d.mouse_button_polling);
    assert!(d.framebuffer_size_polling);
    assert_eq!(d.cursor_mode, CursorMode::Normal);
    assert!(d.make_current);
}

#[test]
fn window_descriptor_setters_change_one_thing_at_a_time() {
    let d = WindowDescriptor::builder()
        .set_dimensions(1280, 720)
        .set_title("demo")
        .set_fullscreen(1)
        .set_key_polling(false)
        .set_cursor_enter_polling(false)
        .set_cursor_pos_polling(false)
        .set_mouse_button_polling(false)
        .set_framebuffer_size_polling(false)
        .set_cursor_mode(CursorMode::Disabled)
        .set_make_current(false);
    assert_eq!(d.width, 1280);
    assert_eq!(d.height, 720);
    assert_eq!(d.title, "demo");
    assert_eq!(d.mode, WindowMode::FullScreen(1));
    assert!(!d.key_polling);
    assert!(!d.make_current);
    assert_eq!(d.cursor_mode, CursorMode::Disabled);
    let d = d.set_windowed().set_width(64).set_height(48).set_mode(WindowMode::FullScreen(0));
    assert_eq!((d.width, d.height), (64, 48));
    assert_eq!(d.mode, WindowMode::FullScreen(0));
}

#[test]
fn buffers_record_their_id_usage_and_buffered_length() {
    let mut e = ElementBuffer::new(4).usage(77);
    assert_eq!(e.id, 4);
    assert_eq!(e.usage, 77);
    assert_eq!(e.buffered_len, 0);
    e.buffer_data(&[1u32, 2, 3]);
    assert_eq!(e.buffered_len, 3);

    let mut v = VertexBuffer::new(5);
    assert_eq!(v.get_id(), 5);
    assert_eq!(v.usage, glenum::STATIC_DRAW);
    v.buffer_data(&[1.0f32; 12]);
    assert_eq!(v.buffered_len, 12);

    let mut u = UniformBuffer::new(6, 128).usage(88);
    assert_eq!(u.get_id(), 6);
    assert_eq!(u.size, 128);
    assert_eq!(u.usage, 88);
    u.buffer_data(&[0u8; 128]);
    assert_eq!(u.buffered_len, 128);
}

#[test]
fn vertex_array_stride_is_the_sum_of_the_layout() {
    let layout = vec![
        VertexAttribute::new(0, 3, glenum::FLOAT),
        VertexAttribute::new(1, 3, glenum::FLOAT),
        VertexAttribute::new(2, 2, glenum::FLOAT),
    ];
    let vao = VertexArray::new(9).layout(layout.clone());
    assert_eq!(vao.get_id(), 9);
    assert_eq!(vao.size, 4);
    assert_eq!(vao.stride, 8);
    assert_eq!(vao.layout, layout);

    let d = VertexAttribute::default();
    assert_eq!((d.location, d.size, d.data_type), (0, 0, glenum::FLOAT));
}

#[test]
fn vertex_array_update_computes_byte_offsets() {
    let layout = vec![
        VertexAttribute::new(0, 3, glenum::FLOAT),
        VertexAttribute::new(1, 3, glenum::FLOAT),
        VertexAttribute::new(2, 2, glenum::FLOAT),
    ];
    let mut vao = VertexArray::new(9);
    vao.set_layout(layout);
    let pointers = vao.update();
    assert_eq!(
        pointers,
        vec![
            AttribPointer {
                location: 0,
                size: 3,
                data_type: glenum::FLOAT,
                stride_bytes: 32,
                offset_bytes: 0,
            },
            AttribPointer {
                location: 1,
                size: 3,
                data_type: glenum::FLOAT,
                stride_bytes: 32,
                offset_bytes: 12,
            },
            AttribPointer {
                location: 2,
                size: 2,
                data_type: glenum::FLOAT,
                stride_bytes: 32,
                offset_bytes: 24,
            },
        ]
    );
}

#[test]
fn shader_types_follow_the_extension() {
    assert_eq!(get_shader_type("v"), glenum::VERTEX_SHADER);
    assert_eq!(get_shader_type("vert"), glenum::VERTEX_SHADER);
    assert_eq!(get_shader_type("fs"), glenum::FRAGMENT_SHADER);
    assert_eq!(get_shader_type("fragment"), glenum::FRAGMENT_SHADER);
    assert_eq!(get_shader_type("geom"), glenum::GEOMETRY_SHADER);
    assert_eq!(get_shader_type("tesscontrol"), glenum::TESS_CONTROL_SHADER);
    assert_eq!(get_shader_type("teseval"), glenum::TESS_EVALUATION_SHADER);
    assert_eq!(get_shader_type("compute"), glenum::COMPUTE_SHADER);
}

#[test]
fn shader_programs_keep_their_shaders() {
    let vs = Shader::new(11, glenum::VERTEX_SHADER);
    let fs = Shader::new(12, glenum::FRAGMENT_SHADER);
    assert_eq!(vs.get_id(), 11);
    assert_eq!(fs.shader_type(), glenum::FRAGMENT_SHADER);
    let p = ShaderProgram::from_array(3, vec![vs, fs]);
    assert_eq!(p.get_id(), 3);
    let p2 = ShaderProgram::new(4);
    assert_eq!(p2.get_id(), 4);
}

#[test]
fn texture2d_builder_sets_each_parameter() {
    let t = Texture2D::new(21)
        .tex_num(2)
        .internal_format(glenum::RGBA)
        .format(glenum::RGBA)
        .wrap_s(glenum::LINEAR)
        .wrap_t(glenum::REPEAT)
        .wrap_r(glenum::REPEAT)
        .min_filter(glenum::LINEAR)
        .mag_filter(glenum::LINEAR);
    assert_eq!(t.get_id(), 21);
    assert_eq!(t.tex_num, 2);
    assert_eq!(t.internal_format, glenum::RGBA);
    assert_eq!(t.format, glenum::RGBA);
    assert_eq!(t.data_type, glenum::UNSIGNED_BYTE);

    let d = Texture2D::default();
    assert_eq!(d.get_id(), 0);
    assert_eq!(d.format, glenum::RGB);
    assert_eq!(d.wrap_s, glenum::REPEAT);
    assert_eq!(d.min_filter, glenum::LINEAR);
}

#[test]
fn export_dispatch_follows_format_and_data_type() {
    let t = Texture2D::new(1);
    assert_eq!(t.export(), Some(ExportKind::RgbU8));
    let t = t.format(glenum::DEPTH_COMPONENT);
    assert_eq!(t.export(), Some(ExportKind::DepthU8));
    let t = t.format(glenum::RGBA);
    assert_eq!(t.export(), Some(ExportKind::RgbaU8));
    let mut t2 = Texture2D::new(2).format(glenum::RGB);
    t2.data_type = glenum::UNSIGNED_SHORT;
    assert_eq!(t2.export(), Some(ExportKind::RgbU16));
    t2.data_type = glenum::FLOAT;
    assert_eq!(t2.export(), Some(ExportKind::RgbF32));
    t2.format = glenum::RGBA;
    assert_eq!(t2.export(), Some(ExportKind::RgbaF32));
    t2.data_type = glenum::UNSIGNED_SHORT;
    assert_eq!(t2.export(), Some(ExportKind::RgbaU16));
    // No export for an unknown pairing.
    t2.data_type = glenum::UNSIGNED_INT;
    assert_eq!(t2.export(), None);
    t2.format = glenum::TEXTURE_2D;
    assert_eq!(t2.export(), None);
}

#[test]
fn export_buffer_len_scales_the_window() {
    assert_eq!(wiener::textures::export_buffer_len((0, 0, 4, 3), 3), 36);
    assert_eq!(wiener::textures::export_buffer_len((2, 1, 4, 3), 4), 16);
    assert_eq!(wiener::textures::export_buffer_len((5, 5, 5, 5), 3), 0);
}

#[test]
fn replicate_channel_triples_the_buffer() {
    let depth = vec![1u8, 2, 3];
    assert_eq!(
        wiener::textures::replicate_channel(&depth),
        vec![1u8, 2, 3, 1, 2, 3, 1, 2, 3]
    );
    assert_eq!(wiener::textures::replicate_channel(&Vec::new()), Vec::<u8>::new());
}

#[test]
fn cubemap_builder_sets_each_parameter() {
    let c = CubeMapTexture::new(31)
        .tex_num(1)
        .internal_format(glenum::RGBA)
        .format(glenum::RGBA)
        .data_type(glenum::FLOAT)
        .wrap_s(glenum::REPEAT)
        .wrap_t(glenum::REPEAT)
        .wrap_r(glenum::REPEAT)
        .min_filter(glenum::LINEAR)
        .mag_filter(glenum::LINEAR);
    assert_eq!(c.get_id(), 31);
    assert_eq!(c.data_type, glenum::FLOAT);
    let d = CubeMapTexture::default();
    assert_eq!(d.get_id(), 0);
    assert_eq!(d.format, glenum::RGB);
}

#[test]
fn renderbuffer_records_its_storage() {
    let rb = RenderBuffer::new(41).set_up(glenum::RGBA, 800, 600);
    assert_eq!(rb.get_id(), 41);
    assert_eq!((rb.format, rb.width, rb.height, rb.samples), (glenum::RGBA, 800, 600, 0));
    let rb = rb.set_up_multisample(4, glenum::RGB, 400, 300);
    assert_eq!((rb.format, rb.width, rb.height, rb.samples), (glenum::RGB, 400, 300, 4));
}

#[test]
fn framebuffer_records_attachments_in_order() {
    let rb = RenderBuffer::new(50);
    let tex = Texture2D::new(51);
    let fb = FrameBuffer::new(7)
        .attach_renderbuffer(glenum::DEPTH_STENCIL_ATTACHMENT, &rb)
        .attach_texture2d(0, &tex)
        .attach_multisampled_texture2d(1, &tex)
        .attach_depth(&tex)
        .attach_depth_stencil(&rb)
        .attach_texture(glenum::COLOR_ATTACHMENT0, &tex)
        .attach_raw_texture2d(glenum::DEPTH_ATTACHMENT, glenum::TEXTURE_2D, &tex);
    assert_eq!(fb.get_id(), 7);
    assert_eq!(
        fb.attachments,
        vec![
            Attachment {
                point: glenum::DEPTH_STENCIL_ATTACHMENT,
                target: AttachTarget::Renderbuffer,
                target_id: 50,
            },
            Attachment {
                point: glenum::COLOR_ATTACHMENT0,
                target: AttachTarget::Texture2D(glenum::TEXTURE_2D),
                target_id: 51,
            },
            Attachment {
                point: glenum::COLOR_ATTACHMENT0 + 1,
                target: AttachTarget::Texture2D(glenum::TEXTURE_2D_MULTISAMPLE),
                target_id: 51,
            },
            Attachment {
                point: glenum::DEPTH_ATTACHMENT,
                target: AttachTarget::Texture,
                target_id: 51,
            },
            Attachment {
                point: glenum::DEPTH_STENCIL_ATTACHMENT,
                target: AttachTarget::Texture,
                target_id: 50,
            },
            Attachment {
                point: glenum::COLOR_ATTACHMENT0,
                target: AttachTarget::Texture,
                target_id: 51,
            },
            Attachment {
                point: glenum::DEPTH_ATTACHMENT,
                target: AttachTarget::Texture2D(glenum::TEXTURE_2D),
                target_id: 51,
            },
        ]
    );

    let mut fb2 = FrameBuffer::new(8);
    fb2.inplace_attach_renderbuffer(glenum::DEPTH_ATTACHMENT, &rb);
    fb2.inplace_attach_texture2d(2, &tex);
    assert_eq!(fb2.attachments.len(), 2);
    assert_eq!(fb2.attachments[1].point, glenum::COLOR_ATTACHMENT0 + 2);
}

#[test]
fn mesh_tracks_its_data_and_primitive_count() {
    let program = ShaderProgram::new(3);
    let mesh: Mesh<f32, u32> = Mesh::new(program, 10, 11, 12);
    assert_eq!(mesh.vao.get_id(), 10);
    assert_eq!(mesh.vao.size, 4);
    assert_eq!(mesh.vbo.get_id(), 11);
    assert_eq!(mesh.ebo.id, 12);
    assert_eq!(mesh.primitive, glenum::TRIANGLES);
    assert_eq!(mesh.primitive_num, 0);
    assert_eq!(mesh.model_mat, [[1, 0, 0, 0], [0, 1, 0, 0], [0, 0, 1, 0], [0, 0, 0, 1]]);

    let verts = [0.0f32, 0.0, 0.0, 1.0, 0.0, 0.0, 0.0, 1.0, 0.0];
    let idx = [0u32, 1, 2];
    let mesh = mesh.vertices(&verts).indices(&idx).primitive(glenum::TRIANGLES).usage(99);
    assert_eq!(mesh.vertices, verts.to_vec());
    assert_eq!(mesh.indices, idx.to_vec());
    assert_eq!(mesh.primitive_num, 3);
    assert_eq!(mesh.vbo.buffered_len, 9);
    assert_eq!(mesh.ebo.buffered_len, 3);
    assert_eq!(mesh.vbo.usage, 99);

    let mut mesh = mesh.model_mat([[2, 0, 0, 0], [0, 2, 0, 0], [0, 0, 2, 0], [0, 0, 0, 1]]);
    assert_eq!(mesh.model_mat[0][0], 2);
    mesh.set_usage(88);
    assert_eq!((mesh.vbo.usage, mesh.ebo.usage), (88, 88));
    mesh.set_indices(&[0u32, 2, 1, 0, 1, 2]);
    assert_eq!(mesh.primitive_num, 6);

    let mesh: Mesh<f64, u16> = Mesh::new(ShaderProgram::new(0), 1, 2, 3);
    assert_eq!(mesh.vao.size, 8);
}

#[test]
fn mesh_layout_updates_the_vertex_array() {
    let mut mesh: Mesh<f32, u32> = Mesh::new(ShaderProgram::new(0), 1, 2, 3);
    mesh.set_layout(vec![
        VertexAttribute::new(0, 3, glenum::FLOAT),
        VertexAttribute::new(1, 2, glenum::FLOAT),
    ]);
    assert_eq!(mesh.vao.stride, 5);
    let mesh = mesh.layout(vec![VertexAttribute::new(0, 4, glenum::FLOAT)]);
    assert_eq!(mesh.vao.stride, 4);
}

#[test]
fn interleaving_pairs_positions_with_normals() {
    let positions = vec![[0.0f32, 1.0, 2.0], [3.0, 4.0, 5.0]];
    let normals = vec![[0.0f32, 0.0, 1.0], [0.0, 1.0, 0.0]];
    let flat = wiener::file_handlers::interleave_vertex_data(&positions, &normals);
    assert_eq!(
        flat,
        vec![0.0, 1.0, 2.0, 0.0, 0.0, 1.0, 3.0, 4.0, 5.0, 0.0, 1.0, 0.0]
    );
}

#[test]
fn widening_indices_keeps_their_values() {
    let idx = vec![0u16, 7, 65535];
    assert_eq!(wiener::file_handlers::widen_indices(&idx), vec![0u32, 7, 65535]);
}

#[test]
fn handlers_remember_their_file_and_format() {
    let off = wiener::file_handlers::MeshHandlerOFF::new("model.off");
    assert_eq!(off.filename, "model.off");
    assert_eq!(wiener::file_handlers::MeshHandlerOFF::get_name(), "OFF");
    let obj = wiener::file_handlers::MeshHandlerOBJ::new("model.obj");
    assert_eq!(obj.filename, "model.obj");
    assert_eq!(wiener::file_handlers::MeshHandlerOBJ::get_name(), "OBJ");
}
