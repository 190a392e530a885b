//! Builds for WebAssembly with the Emscripten toolchain.
use vstd::prelude::*;
use vstd::string::StringExecFns;
use crate::build_support::no;
use crate::build_support::quote;
use crate::build_support::spec_flag;
use crate::build_support::spec_quote;
use crate::build_support::yes;
use crate::build_support::yes_if;
use crate::build_support::ArgBuilder;
use crate::build_support::BuildConfiguration;
use crate::build_support::Features;
use crate::build_support::LinkLibrariesBuilder;

verus! {

/// The settings of the native build for this target, in the order in which
/// they are added.
pub open spec fn spec_skia_settings(gpu: bool) -> Seq<(Seq<char>, Seq<char>)> {
    seq![
        ("cc"@, spec_quote("emcc"@)),
        ("cxx"@, spec_quote("em++"@)),
        ("skia_gl_standard"@, spec_quote("webgl"@)),
        ("skia_use_freetype"@, spec_flag(true)),
        ("skia_use_system_freetype2"@, spec_flag(false)),
        ("skia_use_webgl"@, spec_flag(gpu)),
        ("target_cpu"@, spec_quote("wasm"@)),
        ("skia_enable_fontmgr_custom_embedded"@, spec_flag(false)),
        ("skia_enable_fontmgr_custom_empty"@, spec_flag(true)),
    ]
}

/// The argument that adds a directory of the toolchain's system headers.
pub open spec fn spec_system_include(emsdk_base_dir: Seq<char>, path: Seq<char>) -> Seq<char> {
    "-isystem"@ + emsdk_base_dir + "/upstream/emscripten/system/"@ + path
}

/// The compiler arguments for this target, in the order in which they are
/// added.
pub open spec fn spec_clang_settings(emsdk_base_dir: Seq<char>) -> Seq<Seq<char>> {
    seq![
        "-fvisibility=default"@,
        "-nobuiltininc"@,
        spec_system_include(emsdk_base_dir, "lib/libc/musl/arch/emscripten"@),
        spec_system_include(emsdk_base_dir, "lib/libc/musl/arch/generic"@),
        spec_system_include(emsdk_base_dir, "lib/libcxx/include"@),
        spec_system_include(emsdk_base_dir, "lib/libc/musl/include"@),
        spec_system_include(emsdk_base_dir, "include"@),
    ]
}

fn add_sys_include(builder: &mut ArgBuilder, emsdk_base_dir: &str, path: &str)
    ensures
        final(builder).spec_clang_args() == old(builder).spec_clang_args().push(
            spec_system_include(emsdk_base_dir@, path@),
        ),
        final(builder).spec_skia_args() == old(builder).spec_skia_args(),
{
    let arg = String::from_str("-isystem").concat(emsdk_base_dir).concat(
        "/upstream/emscripten/system/",
    ).concat(path);
    builder.clang_arg(arg);
}

/// Adds what a build for this target needs: the settings of the native
/// build, then the compiler arguments, among them the system header
/// directories under the toolchain's root `emsdk_base_dir`.
pub fn args(config: &BuildConfiguration, builder: &mut ArgBuilder, emsdk_base_dir: &str)
    ensures
        final(builder).spec_skia_args() == old(builder).spec_skia_args() + spec_skia_settings(
            config.features.spec_gpu(),
        ),
        final(builder).spec_clang_args() == old(builder).spec_clang_args() + spec_clang_settings(
            emsdk_base_dir@,
        ),
{
    let features = &config.features;

    builder.skia("cc", quote("emcc"));
    builder.skia("cxx", quote("em++"));
    builder.skia("skia_gl_standard", quote("webgl"));
    builder.skia("skia_use_freetype", yes());
    builder.skia("skia_use_system_freetype2", no());
    builder.skia("skia_use_webgl", yes_if(features.gpu()));
    builder.skia("target_cpu", quote("wasm"));

    // The embedded font manager needs a symbol that this target does not
    // define; the empty one keeps typeface creation working.
    builder.skia("skia_enable_fontmgr_custom_embedded", no());
    builder.skia("skia_enable_fontmgr_custom_empty", yes());

    // With hidden visibility some types would be missing from the bindings.
    builder.clang_arg(String::from_str("-fvisibility=default"));
    builder.clang_arg(String::from_str("-nobuiltininc"));

    // Without the C++ headers the standard library is not found.
    add_sys_include(builder, emsdk_base_dir, "lib/libc/musl/arch/emscripten");
    add_sys_include(builder, emsdk_base_dir, "lib/libc/musl/arch/generic");
    add_sys_include(builder, emsdk_base_dir, "lib/libcxx/include");
    add_sys_include(builder, emsdk_base_dir, "lib/libc/musl/include");
    add_sys_include(builder, emsdk_base_dir, "include");

    assert(builder.spec_skia_args() =~= old(builder).spec_skia_args() + spec_skia_settings(
        config.features.spec_gpu(),
    ));
    assert(builder.spec_clang_args() =~= old(builder).spec_clang_args() + spec_clang_settings(
        emsdk_base_dir@,
    ));
}

/// Adds the libraries that this target links: the GL library when GL is
/// asked for, and nothing otherwise.
pub fn link_libraries(features: &Features, builder: &mut LinkLibrariesBuilder)
    ensures
        final(builder).spec_libraries() == if features.gl {
            old(builder).spec_libraries().push("GL"@)
        } else {
            old(builder).spec_libraries()
        },
{
    if features.gl {
        builder.link_library("GL");
    }
}

} // verus!
