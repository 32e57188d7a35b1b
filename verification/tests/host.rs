use gpu_util::app_config::{
    get_base_args, should_retry_install, sync_args, version_operator, version_to_install,
    AppConfig, Dirs, PythonConfig, PythonStatus,
};
use gpu_util::shared_texture::{
    coded_size, find_memory_type_index, frame_color_space, full_rectangle, pixel_format_name,
    Metadata,
    PixelLayout, Rectangle, SharedTexturePlane, Size,
};

#[test]
fn base_arguments() {
    assert_eq!(get_base_args("/data"), vec!["--directory", "/data", "--no-cache"]);
    assert_eq!(sync_args("/data"), vec!["sync", "--directory", "/data", "--no-cache"]);
}

#[test]
fn version_requirements() {
    assert_eq!(version_operator(true), "~=");
    assert_eq!(version_operator(false), "==");
}

#[test]
fn installation_is_tried_three_times() {
    let missing = PythonStatus { installed: false, version: None };
    let present = PythonStatus { installed: true, version: Some(String::from("3.12.1")) };
    assert!(should_retry_install(&missing, 0));
    assert!(should_retry_install(&missing, 2));
    assert!(!should_retry_install(&missing, 3));
    assert!(!should_retry_install(&present, 0));
}

#[test]
fn version_comes_from_the_check_or_the_configuration() {
    let config = AppConfig { python: PythonConfig { default_version: String::from("3.12") } };
    let missing = PythonStatus { installed: false, version: None };
    assert_eq!(version_to_install(&missing, &config), (&String::from("3.12"), true));
    let mismatch = PythonStatus { installed: false, version: Some(String::from("3.11.4")) };
    assert_eq!(version_to_install(&mismatch, &config), (&String::from("3.11.4"), false));
}

#[test]
fn directories_are_plain_values() {
    let dirs = Dirs {
        data_dir: String::from("a"),
        local_data_dir: String::from("b"),
        resource_dir: String::from("c"),
        plugin_manager_dir: String::from("d"),
        default_plugins_dir: String::from("e"),
        dist_dir: String::from("f"),
    };
    let copy = dirs.clone();
    assert_eq!(copy.data_dir, "a");
    assert_eq!(copy.dist_dir, "f");
}

#[test]
fn pixel_format_names() {
    assert_eq!(pixel_format_name(PixelLayout::Abgr8888), "rgba");
    assert_eq!(pixel_format_name(PixelLayout::Xbgr8888), "rgba");
    assert_eq!(pixel_format_name(PixelLayout::Argb8888), "bgra");
    assert_eq!(pixel_format_name(PixelLayout::Xrgb8888), "bgra");
    assert_eq!(pixel_format_name(PixelLayout::Abgr16161616f), "rgbaf16");
}

#[test]
fn frame_description() {
    assert_eq!(coded_size(1920, 1080), Size { width: 1920, height: 1080 });
    assert_eq!(full_rectangle(1920, 1080), Rectangle { x: 0, y: 0, width: 1920, height: 1080 });
    let space = frame_color_space();
    assert_eq!(space.primaries, "bt709");
    assert_eq!(space.transfer, "srgb");
    assert_eq!(space.matrix, "rgb");
    assert_eq!(space.range, "full");
    let metadata = Metadata {
        capture_update_rect: None,
        region_capture_rect: None,
        source_size: Some(full_rectangle(2, 3)),
        frame_count: Some(1),
    };
    assert_eq!(metadata.source_size.unwrap().height, 3);
    let plane = SharedTexturePlane { fd: 3, stride: 16, offset: 0, size: 32 };
    assert_eq!(plane.size, 32);
}

#[test]
fn first_allowed_memory_type_with_the_required_properties() {
    let flags = vec![0b0001, 0b0110, 0b0111, 0b0111];
    assert_eq!(find_memory_type_index(0b1111, &flags, 0b0001), Some(0));
    assert_eq!(find_memory_type_index(0b1110, &flags, 0b0001), Some(2));
    assert_eq!(find_memory_type_index(0b1000, &flags, 0b0011), Some(3));
    assert_eq!(find_memory_type_index(0b1111, &flags, 0b0110), Some(1));
    assert_eq!(find_memory_type_index(0b0011, &flags, 0b0100), Some(1));
    assert_eq!(find_memory_type_index(0b0001, &flags, 0b0100), None);
    assert_eq!(find_memory_type_index(0b1111, &flags, 0b1000), None);
    assert_eq!(find_memory_type_index(0, &flags, 0), None);
    assert_eq!(find_memory_type_index(0b1111, &Vec::new(), 0), None);
    assert_eq!(find_memory_type_index(0b10000, &flags, 0), None);
    assert_eq!(find_memory_type_index(u32::MAX, &vec![0; 40], 1), None);
    let mut many = vec![0u32; 40];
    many[31] = 1;
    many[35] = 1;
    assert_eq!(find_memory_type_index(1 << 31, &many, 1), Some(31));
    many[31] = 0;
    assert_eq!(find_memory_type_index(u32::MAX, &many, 1), None);
}
