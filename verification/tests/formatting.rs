use glb2fbx::textfmt::{
    derive_output_file_name, format_file_size, is_glb_extension, u64_to_dec_string,
};

#[test]
fn decimal_rendering_is_exact() {
    assert_eq!(u64_to_dec_string(0), "0");
    assert_eq!(u64_to_dec_string(7), "7");
    assert_eq!(u64_to_dec_string(10), "10");
    assert_eq!(u64_to_dec_string(65536), "65536");
    assert_eq!(u64_to_dec_string(u64::MAX), "18446744073709551615");
}

#[test]
fn sizes_below_one_kibibyte_print_as_bytes() {
    assert_eq!(format_file_size(0), "0 B");
    assert_eq!(format_file_size(1), "1 B");
    assert_eq!(format_file_size(1023), "1023 B");
}

#[test]
fn sizes_scale_to_the_largest_unit() {
    assert_eq!(format_file_size(1024), "1.00 KB");
    assert_eq!(format_file_size(1536), "1.50 KB");
    assert_eq!(format_file_size(10 * 1024), "10.00 KB");
    assert_eq!(format_file_size(1024 * 1024), "1.00 MB");
    assert_eq!(format_file_size(5 * 1024 * 1024 + 512 * 1024), "5.50 MB");
    assert_eq!(format_file_size(1024 * 1024 * 1024), "1.00 GB");
    assert_eq!(format_file_size(3 * 1024 * 1024 * 1024 / 2), "1.50 GB");
}

#[test]
fn scaled_sizes_round_half_away_from_zero() {
    // 1024 + 5.12 bytes of a kibibyte: 1.005 KB rounds up to 1.01 KB.
    assert_eq!(format_file_size(1029), "1.00 KB");
    assert_eq!(format_file_size(1030), "1.01 KB");
    assert_eq!(format_file_size(2047), "2.00 KB");
}

#[test]
fn glb_extension_matches_without_regard_to_case() {
    assert!(is_glb_extension("glb"));
    assert!(is_glb_extension("GLB"));
    assert!(is_glb_extension("Glb"));
    assert!(is_glb_extension("gLB"));
    assert!(!is_glb_extension("gltf"));
    assert!(!is_glb_extension("fbx"));
    assert!(!is_glb_extension(""));
    assert!(!is_glb_extension("gl"));
    assert!(!is_glb_extension("glbx"));
}

#[test]
fn output_names_replace_the_extension() {
    assert_eq!(derive_output_file_name("model"), "model.fbx");
    assert_eq!(derive_output_file_name("scene.v2"), "scene.v2.fbx");
    assert_eq!(derive_output_file_name(""), ".fbx");
}
