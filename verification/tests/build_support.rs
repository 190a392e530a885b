use skia_safe::build_support::azure::is_active;
use skia_safe::build_support::emscripten::args;
use skia_safe::build_support::emscripten::link_libraries;
use skia_safe::build_support::no;
use skia_safe::build_support::quote;
use skia_safe::build_support::yes;
use skia_safe::build_support::yes_if;
use skia_safe::build_support::ArgBuilder;
use skia_safe::build_support::BuildConfiguration;
use skia_safe::build_support::Features;
use skia_safe::build_support::LinkLibrariesBuilder;

fn features(gl: bool) -> Features {
    Features { gl, vulkan: false, metal: false, d3d: false }
}

#[test]
fn active_exactly_with_a_staging_directory() {
    assert!(is_active(&Some(String::from("/tmp/staging"))));
    assert!(is_active(&Some(String::new())));
    assert!(!is_active(&None));
}

#[test]
fn gl_is_linked_only_when_asked_for() {
    let mut builder = LinkLibrariesBuilder::new();
    link_libraries(&features(false), &mut builder);
    assert!(builder.libraries.is_empty());
    link_libraries(&features(true), &mut builder);
    assert_eq!(builder.libraries, vec![String::from("GL")]);
    builder.link_library("m");
    assert_eq!(builder.libraries, vec![String::from("GL"), String::from("m")]);
}

#[test]
fn setting_texts() {
    assert_eq!(quote("emcc"), "\"emcc\"");
    assert_eq!(quote(""), "\"\"");
    assert_eq!(yes(), "true");
    assert_eq!(no(), "false");
    assert_eq!(yes_if(true), "true");
    assert_eq!(yes_if(false), "false");
}

#[test]
fn gpu_is_any_backend() {
    assert!(!features(false).gpu());
    assert!(features(true).gpu());
    assert!(Features { gl: false, vulkan: true, metal: false, d3d: false }.gpu());
    assert!(Features { gl: false, vulkan: false, metal: true, d3d: false }.gpu());
    assert!(Features { gl: false, vulkan: false, metal: false, d3d: true }.gpu());
}

#[test]
fn emscripten_arguments() {
    let mut builder = ArgBuilder::new();
    builder.skia("is_official_build", yes());
    builder.clang_arg(String::from("-O2"));
    let config = BuildConfiguration { features: features(true) };
    args(&config, &mut builder, "/opt/emsdk");
    let pair = |k: &str, v: &str| (String::from(k), String::from(v));
    assert_eq!(
        builder.skia_args,
        vec![
            pair("is_official_build", "true"),
            pair("cc", "\"emcc\""),
            pair("cxx", "\"em++\""),
            pair("skia_gl_standard", "\"webgl\""),
            pair("skia_use_freetype", "true"),
            pair("skia_use_system_freetype2", "false"),
            pair("skia_use_webgl", "true"),
            pair("target_cpu", "\"wasm\""),
            pair("skia_enable_fontmgr_custom_embedded", "false"),
            pair("skia_enable_fontmgr_custom_empty", "true"),
        ]
    );
    assert_eq!(
        builder.clang_args,
        vec![
            String::from("-O2"),
            String::from("-fvisibility=default"),
            String::from("-nobuiltininc"),
            String::from("-isystem/opt/emsdk/upstream/emscripten/system/lib/libc/musl/arch/emscripten"),
            String::from("-isystem/opt/emsdk/upstream/emscripten/system/lib/libc/musl/arch/generic"),
            String::from("-isystem/opt/emsdk/upstream/emscripten/system/lib/libcxx/include"),
            String::from("-isystem/opt/emsdk/upstream/emscripten/system/lib/libc/musl/include"),
            String::from("-isystem/opt/emsdk/upstream/emscripten/system/include"),
        ]
    );
}

#[test]
fn emscripten_without_gpu_switches_webgl_off() {
    let mut builder = ArgBuilder::new();
    let config = BuildConfiguration { features: features(false) };
    args(&config, &mut builder, "");
    assert_eq!(builder.skia_args[5], (String::from("skia_use_webgl"), String::from("false")));
    assert_eq!(builder.clang_args[6], "-isystem/upstream/emscripten/system/include");
    assert_eq!(builder.skia_args.len(), 9);
    assert_eq!(builder.clang_args.len(), 7);
}
