use sph_gl::mesh::{mesh_layout, AttribPointer};
use sph_gl::shader::{c_source, info_log_len};

#[test]
fn quad_layout() {
    let m = mesh_layout(20, 6);
    assert_eq!(m.num_vertices, 20);
    assert_eq!(m.num_indices, 6);
    assert_eq!(m.vertex_bytes, 80);
    assert_eq!(m.index_bytes, 24);
    assert_eq!(
        m.attributes,
        vec![
            AttribPointer { index: 0, components: 3, stride_bytes: 20, offset_bytes: 0 },
            AttribPointer { index: 1, components: 2, stride_bytes: 20, offset_bytes: 12 },
        ]
    );
}

#[test]
fn empty_mesh_layout() {
    let m = mesh_layout(0, 0);
    assert_eq!((m.num_vertices, m.num_indices, m.vertex_bytes, m.index_bytes), (0, 0, 0, 0));
}

#[test]
fn counts_wrap_like_as() {
    let big: usize = (1usize << 32) + 5;
    let m = mesh_layout(big, 3);
    assert_eq!(m.num_vertices, 5);
}

#[test]
fn source_is_nul_terminated() {
    assert_eq!(c_source(String::from("void main() {}")), "void main() {}\0");
    assert_eq!(c_source(String::new()), "\0");
}

#[test]
fn log_length() {
    assert_eq!(info_log_len(0), 0);
    assert_eq!(info_log_len(1024), 1024);
}
