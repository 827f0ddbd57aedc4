//! The native build driver's decisions: which programs to invoke with which
//! arguments for the two-phase configure and build+install run, and which
//! environment variables carry extra library search directories.
//!
//! Spawning the processes and threading the environment through them is
//! outside this library; callers execute the computed commands.

use vstd::prelude::*;
use crate::text::{decimal_seq, decimal_string};

verus! {

/// One external command: the program and its arguments, to run in the
/// build directory.
#[derive(Debug)]
pub struct BuildCommand {
    pub program: String,
    pub args: Vec<String>,
}

/// Drives the external build of the generated library.
#[derive(Debug)]
pub struct CppLibBuilder {
    /// Source root handed to the build-system generator.
    pub cmake_source_dir: String,
    /// Separate directory the build runs in.
    pub build_dir: String,
    /// Prefix the built artifact is installed under.
    pub install_dir: String,
    /// Parallel jobs requested from the build tool, where supported.
    pub num_jobs: u32,
    /// Extra library search directories for the link step, propagated under
    /// every platform-conventional environment variable name.
    pub linker_env_library_dirs: Vec<String>,
    /// Whether child output is passed through live instead of captured.
    pub pipe_output: bool,
    /// Whether the host toolchain is the single-project-file variant,
    /// detected once at startup.
    pub is_msvc: bool,
}

/// The arguments of the configure phase: the source directory and the
/// install prefix; the single-project-file toolchain additionally forces
/// its generator and a release configuration, since the calling runtime
/// links against a release-mode standard library.
pub open spec fn configure_args(
    source_dir: Seq<char>,
    install_dir: Seq<char>,
    is_msvc: bool,
) -> Seq<Seq<char>> {
    seq![source_dir, "-DCMAKE_INSTALL_PREFIX="@ + install_dir] + (if is_msvc {
        seq!["-G"@, "NMake Makefiles"@, "-DCMAKE_BUILD_TYPE=Release"@]
    } else {
        Seq::<Seq<char>>::empty()
    })
}

/// The arguments of the build+install phase: a parallel-job flag where the
/// build tool supports one, then the install target.
pub open spec fn build_args(num_jobs: u32, is_msvc: bool) -> Seq<Seq<char>> {
    (if is_msvc {
        Seq::<Seq<char>>::empty()
    } else {
        seq!["-j"@ + decimal_seq(num_jobs as nat)]
    }) + seq!["install"@]
}

impl CppLibBuilder {
    /// The configure-phase command.
    pub fn configure_command(&self) -> (r: BuildCommand)
        ensures
            r.program@ == "cmake"@,
            r.args.deep_view() == configure_args(
                self.cmake_source_dir@,
                self.install_dir@,
                self.is_msvc,
            ),
    {
        let mut program = String::new();
        program.append("cmake");
        let mut args: Vec<String> = Vec::new();
        args.push(self.cmake_source_dir.clone());
        let mut prefix = String::new();
        prefix.append("-DCMAKE_INSTALL_PREFIX=");
        prefix.append(self.install_dir.as_str());
        args.push(prefix);
        if self.is_msvc {
            args.push(String::from_str("-G"));
            args.push(String::from_str("NMake Makefiles"));
            args.push(String::from_str("-DCMAKE_BUILD_TYPE=Release"));
        }
        proof {
            assert(args.deep_view() =~= configure_args(
                self.cmake_source_dir@,
                self.install_dir@,
                self.is_msvc,
            ));
        }
        BuildCommand { program, args }
    }

    /// The build+install-phase command.
    pub fn build_command(&self) -> (r: BuildCommand)
        ensures
            self.is_msvc ==> r.program@ == "nmake"@,
            !self.is_msvc ==> r.program@ == "make"@,
            r.args.deep_view() == build_args(self.num_jobs, self.is_msvc),
    {
        let mut program = String::new();
        let mut args: Vec<String> = Vec::new();
        if self.is_msvc {
            program.append("nmake");
        } else {
            program.append("make");
            let mut jobs = String::new();
            jobs.append("-j");
            let n = decimal_string(self.num_jobs);
            jobs.append(n.as_str());
            args.push(jobs);
        }
        args.push(String::from_str("install"));
        proof {
            assert(args.deep_view() =~= build_args(self.num_jobs, self.is_msvc));
        }
        BuildCommand { program, args }
    }

    /// The environment variable names under which the extra library search
    /// directories are propagated, so the link step finds dependency
    /// libraries on every platform.
    pub fn linker_env_names(&self) -> (r: Vec<String>)
        ensures
            r.deep_view() == seq!["LIBRARY_PATH"@, "LD_LIBRARY_PATH"@, "LIB"@],
    {
        let mut r: Vec<String> = Vec::new();
        r.push(String::from_str("LIBRARY_PATH"));
        r.push(String::from_str("LD_LIBRARY_PATH"));
        r.push(String::from_str("LIB"));
        proof {
            assert(r.deep_view() =~= seq!["LIBRARY_PATH"@, "LD_LIBRARY_PATH"@, "LIB"@]);
        }
        r
    }
}

} // verus!
