use cpp_wrapper_gen::cpp_lib_builder::CppLibBuilder;
use cpp_wrapper_gen::errors::{ErrorKind, GenError};

fn builder(is_msvc: bool) -> CppLibBuilder {
    CppLibBuilder {
        cmake_source_dir: "/work/c_lib".to_string(),
        build_dir: "/work/build".to_string(),
        install_dir: "/work/install".to_string(),
        num_jobs: 12,
        linker_env_library_dirs: vec!["/opt/qt/lib".to_string()],
        pipe_output: true,
        is_msvc,
    }
}

#[test]
fn configure_command_plain() {
    let c = builder(false).configure_command();
    assert_eq!(c.program, "cmake");
    assert_eq!(c.args, vec!["/work/c_lib", "-DCMAKE_INSTALL_PREFIX=/work/install"]);
}

#[test]
fn configure_command_msvc_forces_generator_and_release() {
    let c = builder(true).configure_command();
    assert_eq!(c.program, "cmake");
    assert_eq!(
        c.args,
        vec![
            "/work/c_lib",
            "-DCMAKE_INSTALL_PREFIX=/work/install",
            "-G",
            "NMake Makefiles",
            "-DCMAKE_BUILD_TYPE=Release",
        ]
    );
}

#[test]
fn build_command_passes_job_count() {
    let c = builder(false).build_command();
    assert_eq!(c.program, "make");
    assert_eq!(c.args, vec!["-j12", "install"]);
}

#[test]
fn build_command_msvc_omits_job_flag() {
    let c = builder(true).build_command();
    assert_eq!(c.program, "nmake");
    assert_eq!(c.args, vec!["install"]);
}

#[test]
fn linker_env_names_cover_all_platforms() {
    let names = builder(false).linker_env_names();
    assert_eq!(names, vec!["LIBRARY_PATH", "LD_LIBRARY_PATH", "LIB"]);
}

#[test]
fn error_chain_describes_every_layer() {
    let inner = GenError::external_process("exit status 2".to_string());
    let outer = inner.context("failed to build the C++ wrapper library".to_string());
    assert_eq!(outer.kind, ErrorKind::ExternalProcess);
    assert_eq!(
        outer.describe(),
        "failed to build the C++ wrapper library: exit status 2"
    );
    let single = GenError::encoding("path is not valid unicode".to_string());
    assert_eq!(single.describe(), "path is not valid unicode");
}
