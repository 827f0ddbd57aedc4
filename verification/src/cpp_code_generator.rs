//! The conversion and call-expression engine and the code emitter: renders
//! each generated method's C-linkage signature, forwarding expressions and
//! return transformation, and assembles per-group header/source files, the
//! umbrella header and the fixed scaffolding.
//!
//! Generation is a pure function of the model: the emitter returns the
//! prospective files as path/content pairs and never touches the file system.

use vstd::prelude::*;
use crate::errors::{ErrorKind, GenError};
use crate::model::{
    AllocationPlace, CppMethodArgumentV, CppTypeIndirection, CppTypeV, FfiArgumentMeaning,
    CppTypeBase, FfiArgumentV, GeneratedMethod, GeneratedMethodV, HeaderGroup, HeaderGroupV,
    ReturnConversion, base_code, base_to_code, find_arg, find_ffi_arg, is_void, is_void_type,
    type_code, type_code_named, type_codes, type_list_code, type_to_code, type_to_code_named,
};
use crate::text::{
    concat_seq, dots_to_underscores, escaped_backslashes, escaped_quotes, join_seq, upper_of,
};

verus! {

/// One prospective output file: path components under the library root, and
/// the full text content.
#[derive(Debug)]
pub struct GeneratedFile {
    pub path: Vec<String>,
    pub content: String,
}

/// Mathematical view of `GeneratedFile`.
pub struct GeneratedFileV {
    pub path: Seq<Seq<char>>,
    pub content: Seq<char>,
}

impl View for GeneratedFile {
    type V = GeneratedFileV;

    open spec fn view(&self) -> GeneratedFileV {
        GeneratedFileV { path: self.path.deep_view(), content: self.content@ }
    }
}

impl DeepView for GeneratedFile {
    type V = GeneratedFileV;

    open spec fn deep_view(&self) -> GeneratedFileV {
        self.view()
    }
}

/// Mathematical view of `CppCodeGenerator`.
pub struct CppCodeGeneratorV {
    pub lib_name: Seq<char>,
    pub lib_name_upper: Seq<char>,
    pub lib_path: Seq<char>,
    pub is_shared: bool,
    pub cpp_libs: Seq<Seq<char>>,
}

/// Generates C++ code for the C wrapper library.
pub struct CppCodeGenerator {
    /// Library name.
    lib_name: String,
    /// Uppercase library name, kept alongside to avoid recomputation.
    lib_name_upper: String,
    /// Path to the directory where the library is generated.
    lib_path: String,
    is_shared: bool,
    cpp_libs: Vec<String>,
}

impl View for CppCodeGenerator {
    type V = CppCodeGeneratorV;

    closed spec fn view(&self) -> CppCodeGeneratorV {
        CppCodeGeneratorV {
            lib_name: self.lib_name@,
            lib_name_upper: self.lib_name_upper@,
            lib_path: self.lib_path@,
            is_shared: self.is_shared,
            cpp_libs: self.cpp_libs.deep_view(),
        }
    }
}

/// The meaning tag of the FFI argument standing for the original parameter
/// at position `i`.
pub open spec fn positional(i: int) -> FfiArgumentMeaning {
    FfiArgumentMeaning::Positional { index: i as usize }
}

/// The declared parameter list of the wrapper function.
pub open spec fn arg_decls(args: Seq<FfiArgumentV>) -> Seq<Seq<char>> {
    Seq::new(args.len(), |i: int| type_code_named(args[i].argument_type, args[i].name))
}

/// The wrapper symbol followed by its parenthesized parameter list.
pub open spec fn name_with_args(m: GeneratedMethodV) -> Seq<char> {
    m.c_name + "("@ + join_seq(arg_decls(m.ffi_signature.arguments), ", "@) + ")"@
}

/// The full wrapper signature.  A function-pointer return type embeds the
/// name-with-arguments inside the pointer-to-function declarator; any other
/// return type is prefixed.
pub open spec fn signature_text(m: GeneratedMethodV) -> Seq<char> {
    if m.ffi_signature.return_type.base is FunctionPointer {
        type_code_named(m.ffi_signature.return_type, name_with_args(m))
    } else {
        type_code(m.ffi_signature.return_type) + " "@ + name_with_args(m)
    }
}

/// The export-macro-qualified declaration line of the wrapper.
pub open spec fn declaration_text(g: CppCodeGeneratorV, m: GeneratedMethodV) -> Seq<char> {
    g.lib_name_upper + "_EXPORT "@ + signature_text(m) + ";\n"@
}

/// The type text used to rebuild a strong flags value from its unsigned
/// representation: a const reference is stripped to the bare value type.
pub open spec fn flags_arg_type_code(t: CppTypeV) -> Seq<char> {
    if t.indirection == CppTypeIndirection::Reference && t.is_const {
        base_code(t.base)
    } else {
        type_code(t)
    }
}

/// The forwarding expression for one original parameter, given its FFI
/// counterpart: pointers from values/references are dereferenced, and flags
/// values are reconstructed by value.
pub open spec fn arg_value(cpp_arg: CppMethodArgumentV, c_arg: FfiArgumentV) -> Seq<char> {
    match c_arg.conversion {
        ReturnConversion::NoChange => c_arg.name,
        ReturnConversion::ValueToPointer => "*"@ + c_arg.name,
        ReturnConversion::ReferenceToPointer => "*"@ + c_arg.name,
        ReturnConversion::FlagsToUnsignedInt => flags_arg_type_code(cpp_arg.argument_type) + "("@
            + c_arg.name + ")"@,
    }
}

/// The forwarding expression for the parameter at position `i`, or empty if
/// no FFI argument matches that position.
pub open spec fn arg_value_at(m: GeneratedMethodV, i: int) -> Seq<char> {
    match find_arg(m.ffi_signature.arguments, positional(i)) {
        Option::Some(c) => arg_value(m.cpp_method.arguments[i], c),
        Option::None => Seq::empty(),
    }
}

/// Every original parameter has an FFI counterpart.
pub open spec fn args_values_ok(m: GeneratedMethodV) -> bool {
    forall|i: int|
        0 <= i < m.cpp_method.arguments.len() ==> (#[trigger] find_arg(
            m.ffi_signature.arguments,
            positional(i),
        )) is Some
}

/// The comma-separated forwarding expressions for all original parameters.
pub open spec fn args_values_text(m: GeneratedMethodV) -> Seq<char> {
    join_seq(Seq::new(m.cpp_method.arguments.len(), |i: int| arg_value_at(m, i)), ", "@)
}

/// The call target is well-formed: a constructor has an owning class, an
/// applicable allocation place, and its out-parameter where stack-allocated;
/// a non-static instance method has a this-argument.
pub open spec fn scope_ok(m: GeneratedMethodV) -> bool {
    if m.cpp_method.is_constructor {
        &&& m.cpp_method.class_name is Some
        &&& !(m.ffi_signature.allocation_place is NotApplicable)
        &&& (m.ffi_signature.allocation_place is Stack ==> find_arg(
            m.ffi_signature.arguments,
            FfiArgumentMeaning::ReturnValue,
        ) is Some)
    } else {
        (m.cpp_method.class_name is Some && !m.cpp_method.is_static) ==> find_arg(
            m.ffi_signature.arguments,
            FfiArgumentMeaning::This,
        ) is Some
    }
}

/// The inner call target: placement- or heap-construction for constructors;
/// a class-qualified, receiver-dereferencing, or plain name otherwise, with
/// bound template arguments rendered in call syntax.
pub open spec fn call_target(m: GeneratedMethodV) -> Seq<char> {
    if m.cpp_method.is_constructor {
        match m.cpp_method.class_name {
            Option::Some(class) => match m.ffi_signature.allocation_place {
                AllocationPlace::Stack => match find_arg(
                    m.ffi_signature.arguments,
                    FfiArgumentMeaning::ReturnValue,
                ) {
                    Option::Some(rv) => "new("@ + rv.name + ") "@ + class,
                    Option::None => Seq::empty(),
                },
                AllocationPlace::Heap => "new "@ + class,
                AllocationPlace::NotApplicable => Seq::empty(),
            },
            Option::None => Seq::empty(),
        }
    } else {
        let scope = match m.cpp_method.class_name {
            Option::Some(class) => if m.cpp_method.is_static {
                class + "::"@
            } else {
                match find_arg(m.ffi_signature.arguments, FfiArgumentMeaning::This) {
                    Option::Some(this_arg) => this_arg.name + "->"@,
                    Option::None => Seq::empty(),
                }
            },
            Option::None => Seq::empty(),
        };
        let templ = match m.cpp_method.template_arguments {
            Option::Some(ts) => "<"@ + join_seq(type_codes(ts), ", "@) + ">"@,
            Option::None => Seq::empty(),
        };
        scope + m.cpp_method.name + templ
    }
}

/// The inner call expression: the target applied to the forwarded arguments.
pub open spec fn inner_call(m: GeneratedMethodV) -> Seq<char> {
    call_target(m) + "("@ + args_values_text(m) + ")"@
}

/// Value-to-pointer conversion is only valid with heap allocation.
pub open spec fn conversion_ok(m: GeneratedMethodV) -> bool {
    m.ffi_signature.return_conversion is ValueToPointer ==> m.ffi_signature.allocation_place
        is Heap
}

/// A stack-allocated non-constructor needs a return-value out-parameter.
pub open spec fn stack_out_ok(m: GeneratedMethodV) -> bool {
    (m.ffi_signature.allocation_place is Stack && !m.cpp_method.is_constructor) ==> find_arg(
        m.ffi_signature.arguments,
        FfiArgumentMeaning::ReturnValue,
    ) is Some
}

/// The return transformation applied to the inner call expression `e`:
/// value-to-pointer wraps in a heap allocate-and-copy-construct (except for
/// constructors, whose expression is already pointer-valued),
/// reference-to-pointer takes the address, flags are cast to unsigned; then
/// a stack-allocated non-constructor placement-constructs into the
/// out-parameter.
pub open spec fn converted_expr(m: GeneratedMethodV, e: Seq<char>) -> Seq<char> {
    let step1 = match m.ffi_signature.return_conversion {
        ReturnConversion::NoChange => e,
        ReturnConversion::ValueToPointer => if m.cpp_method.is_constructor {
            e
        } else {
            "new "@ + base_code(m.cpp_method.return_type.base) + "("@ + e + ")"@
        },
        ReturnConversion::ReferenceToPointer => "&"@ + e,
        ReturnConversion::FlagsToUnsignedInt => "uint("@ + e + ")"@,
    };
    if m.ffi_signature.allocation_place is Stack && !m.cpp_method.is_constructor {
        match find_arg(m.ffi_signature.arguments, FfiArgumentMeaning::ReturnValue) {
            Option::Some(rv) => "new("@ + rv.name + ") "@ + base_code(m.cpp_method.return_type.base)
                + "("@ + step1 + ")"@,
            Option::None => step1,
        }
    } else {
        step1
    }
}

/// All conditions under which the returned expression of a non-destructor
/// can be generated.
pub open spec fn returned_expr_ok(m: GeneratedMethodV) -> bool {
    &&& scope_ok(m)
    &&& args_values_ok(m)
    &&& conversion_ok(m)
    &&& stack_out_ok(m)
}

/// The fully transformed expression a non-destructor wrapper evaluates.
pub open spec fn returned_expr(m: GeneratedMethodV) -> Seq<char> {
    converted_expr(m, inner_call(m))
}

/// All conditions under which a wrapper body can be generated: a destructor
/// must be heap-allocating with a this-argument; any other method needs a
/// well-formed expression, and stack allocation demands a void FFI return.
pub open spec fn body_ok(m: GeneratedMethodV) -> bool {
    if m.cpp_method.is_destructor {
        m.ffi_signature.allocation_place is Heap && find_arg(
            m.ffi_signature.arguments,
            FfiArgumentMeaning::This,
        ) is Some
    } else {
        &&& (m.ffi_signature.allocation_place is Stack ==> is_void_type(
            m.ffi_signature.return_type,
        ))
        &&& returned_expr_ok(m)
    }
}

/// The wrapper body: a heap destructor is exactly one deletion statement;
/// any other method evaluates its expression, preceded by `return` exactly
/// when the FFI return type is not void.
pub open spec fn source_body_text(m: GeneratedMethodV) -> Seq<char> {
    if m.cpp_method.is_destructor {
        match find_arg(m.ffi_signature.arguments, FfiArgumentMeaning::This) {
            Option::Some(this_arg) => "delete "@ + this_arg.name + ";\n"@,
            Option::None => Seq::empty(),
        }
    } else {
        (if is_void_type(m.ffi_signature.return_type) {
            Seq::<char>::empty()
        } else {
            "return "@
        }) + returned_expr(m) + ";\n"@
    }
}

/// The full wrapper definition for the source file.
pub open spec fn implementation_text(m: GeneratedMethodV) -> Seq<char> {
    signature_text(m) + " {\n  "@ + source_body_text(m) + "}\n\n"@
}

/// All methods of a group can be generated.
pub open spec fn group_ok(g: HeaderGroupV) -> bool {
    forall|i: int| 0 <= i < g.methods.len() ==> body_ok(#[trigger] g.methods[i])
}

/// All groups can be generated.
pub open spec fn all_groups_ok(gs: Seq<HeaderGroupV>) -> bool {
    forall|i: int| 0 <= i < gs.len() ==> group_ok(#[trigger] gs[i])
}

/// The declaration block of a group, in input order.
pub open spec fn decls_text(g: CppCodeGeneratorV, ms: Seq<GeneratedMethodV>) -> Seq<char> {
    concat_seq(Seq::new(ms.len(), |i: int| declaration_text(g, ms[i])))
}

/// The definition block of a group, in the same order as the declarations.
pub open spec fn impls_text(ms: Seq<GeneratedMethodV>) -> Seq<char> {
    concat_seq(Seq::new(ms.len(), |i: int| implementation_text(ms[i])))
}

/// The header file name of a group.
pub open spec fn header_file_name(g: CppCodeGeneratorV, base: Seq<char>) -> Seq<char> {
    g.lib_name + "_"@ + base + ".h"@
}

/// The source file name of a group.
pub open spec fn source_file_name(g: CppCodeGeneratorV, base: Seq<char>) -> Seq<char> {
    g.lib_name + "_"@ + base + ".cpp"@
}

/// The include guard of a group header: the file name with dots replaced by
/// underscores, uppercased.
pub open spec fn group_guard(g: CppCodeGeneratorV, base: Seq<char>) -> Seq<char> {
    upper_of(dots_to_underscores(header_file_name(g, base)))
}

/// The full text of a group header.
pub open spec fn header_text(g: CppCodeGeneratorV, grp: HeaderGroupV) -> Seq<char> {
    "#ifndef "@ + group_guard(g, grp.base_name) + "\n#define "@ + group_guard(g, grp.base_name)
        + "\n\n"@ + "#include \""@ + g.lib_name + "_global.h\"\n\n"@ + "extern \"C\" {\n\n"@
        + decls_text(g, grp.methods) + "\n} // extern \"C\"\n\n"@ + "#endif // "@ + group_guard(
        g,
        grp.base_name,
    ) + "\n"@
}

/// The full text of a group source file.
pub open spec fn source_file_text(g: CppCodeGeneratorV, grp: HeaderGroupV) -> Seq<char> {
    "#include \""@ + header_file_name(g, grp.base_name) + "\"\n\n"@ + impls_text(grp.methods)
}

/// The full text of the umbrella header including every group header.
pub open spec fn umbrella_text(g: CppCodeGeneratorV, bases: Seq<Seq<char>>) -> Seq<char> {
    "#ifndef "@ + g.lib_name_upper + "_H\n#define "@ + g.lib_name_upper + "_H\n\n"@ + concat_seq(
        Seq::new(bases.len(), |i: int| "#include \""@ + g.lib_name + "_"@ + bases[i] + ".h\"\n"@),
    ) + "#endif // "@ + g.lib_name_upper + "_H\n"@
}

/// The base names of the groups, in input order.
pub open spec fn group_base_names(gs: Seq<HeaderGroupV>) -> Seq<Seq<char>> {
    Seq::new(gs.len(), |i: int| gs[i].base_name)
}

/// The header/source file pairs of the groups, in input order.
pub open spec fn group_files(g: CppCodeGeneratorV, gs: Seq<HeaderGroupV>) -> Seq<GeneratedFileV>
    decreases gs.len(),
{
    if gs.len() == 0 {
        Seq::empty()
    } else {
        group_files(g, gs.subrange(0, gs.len() - 1)) + seq![
            (GeneratedFileV {
                path: seq!["include"@, header_file_name(g, gs.last().base_name)],
                content: header_text(g, gs.last()),
            }),
            (GeneratedFileV {
                path: seq!["src"@, source_file_name(g, gs.last().base_name)],
                content: source_file_text(g, gs.last()),
            }),
        ]
    }
}

/// Everything `generate_files` emits: the umbrella header first, then each
/// group's header and source, in input order.
pub open spec fn generated_files_spec(g: CppCodeGeneratorV, gs: Seq<HeaderGroupV>) -> Seq<
    GeneratedFileV,
> {
    seq![
        (GeneratedFileV {
            path: seq!["include"@, g.lib_name + ".h"@],
            content: umbrella_text(g, group_base_names(gs)),
        }),
    ] + group_files(g, gs)
}

/// The export-macro header: the platform import/export attribute keyed off
/// the library-name-derived macro.
pub open spec fn exports_text(u: Seq<char>) -> Seq<char> {
    "#ifndef "@ + u + "_EXPORTS_H\n#define "@ + u + "_EXPORTS_H\n\n#ifdef _WIN32\n    #ifdef "@ + u
        + "_LIBRARY\n        #define "@ + u + "_EXPORT __declspec(dllexport)\n    #else\n        #define "@
        + u + "_EXPORT __declspec(dllimport)\n    #endif\n#else\n    #define "@ + u
        + "_EXPORT\n#endif\n\n#endif // "@ + u + "_EXPORTS_H\n"@
}

/// The global compatibility header aggregating caller-supplied include
/// directives.
pub open spec fn global_text(g: CppCodeGeneratorV, directives: Seq<Seq<char>>) -> Seq<char> {
    "#ifndef "@ + upper_of(g.lib_name) + "_GLOBAL_H\n#define "@ + upper_of(g.lib_name)
        + "_GLOBAL_H\n\n#include \""@ + g.lib_name + "_exports.h\"\n\n"@ + join_seq(
        Seq::new(directives.len(), |i: int| "#include \""@ + directives[i] + "\""@),
        "\n"@,
    ) + "\n\n#endif // "@ + upper_of(g.lib_name) + "_GLOBAL_H\n"@
}

/// The include directories as they appear in the build description: each
/// quoted, with backslashes escaped, joined by spaces.
pub open spec fn quoted_dirs_text(dirs: Seq<Seq<char>>) -> Seq<char> {
    join_seq(Seq::new(dirs.len(), |i: int| "\""@ + escaped_backslashes(dirs[i]) + "\""@), " "@)
}

/// The compiler flags as they appear in the build description: the caller's
/// flags followed by one `-F"<dir>"` flag per framework directory, each with
/// double quotes escaped, joined by spaces.
pub open spec fn compiler_flags_text(flags: Seq<Seq<char>>, fw_dirs: Seq<Seq<char>>) -> Seq<char> {
    let combined = flags + Seq::new(fw_dirs.len(), |i: int| "-F\""@ + fw_dirs[i] + "\""@);
    join_seq(Seq::new(combined.len(), |i: int| escaped_quotes(combined[i])), " "@)
}

/// The native-build description: library name, compiler flags, include
/// directories, static or shared linkage, and (shared only) the link
/// libraries.
pub open spec fn cmakelists_text(
    g: CppCodeGeneratorV,
    include_dirs: Seq<Seq<char>>,
    fw_dirs: Seq<Seq<char>>,
    flags: Seq<Seq<char>>,
) -> Seq<char> {
    "cmake_minimum_required(VERSION 3.5)\nproject("@ + g.lib_name
        + ")\n\nset(CMAKE_CXX_FLAGS \"${CMAKE_CXX_FLAGS} "@ + compiler_flags_text(flags, fw_dirs)
        + "\")\n\ninclude_directories(\"${CMAKE_CURRENT_SOURCE_DIR}/include\" "@ + quoted_dirs_text(
        include_dirs,
    ) + ")\n\nfile(GLOB sources \"src/*.cpp\")\nadd_library("@ + g.lib_name + " "@ + (
    if g.is_shared {
        "SHARED"@
    } else {
        "STATIC"@
    }) + " ${sources})\n"@ + (if g.is_shared {
        "target_link_libraries("@ + g.lib_name + " "@ + join_seq(g.cpp_libs, " "@) + ")\n"@
    } else {
        Seq::<char>::empty()
    }) + "\ninstall(TARGETS "@ + g.lib_name
        + " DESTINATION lib)\ninstall(DIRECTORY include/ DESTINATION include)\n"@
}

/// Everything `generate_template_files` emits: the build description, the
/// export-macro header, and the global compatibility header.
pub open spec fn template_files_spec(
    g: CppCodeGeneratorV,
    directives: Seq<Seq<char>>,
    include_dirs: Seq<Seq<char>>,
    fw_dirs: Seq<Seq<char>>,
    flags: Seq<Seq<char>>,
) -> Seq<GeneratedFileV> {
    seq![
        (GeneratedFileV {
            path: seq!["CMakeLists.txt"@],
            content: cmakelists_text(g, include_dirs, fw_dirs, flags),
        }),
        (GeneratedFileV {
            path: seq!["include"@, g.lib_name + "_exports.h"@],
            content: exports_text(upper_of(g.lib_name)),
        }),
        (GeneratedFileV {
            path: seq!["include"@, g.lib_name + "_global.h"@],
            content: global_text(g, directives),
        }),
    ]
}

/// Law: with heap allocation and value-to-pointer conversion, a
/// non-constructor's expression wraps the inner call in exactly one heap
/// allocate-and-copy-construct, while a constructor's expression is the
/// inner call unchanged — the allocation expression itself already yields
/// the required pointer, so no double allocation happens.
pub proof fn lemma_value_to_pointer_wrapping(m: GeneratedMethodV)
    requires
        m.ffi_signature.return_conversion is ValueToPointer,
        m.ffi_signature.allocation_place is Heap,
    ensures
        !m.cpp_method.is_constructor ==> returned_expr(m) == "new "@ + base_code(
            m.cpp_method.return_type.base,
        ) + "("@ + inner_call(m) + ")"@,
        m.cpp_method.is_constructor ==> returned_expr(m) == inner_call(m),
{
}

/// Law: the body of a heap-allocating destructor is exactly one deletion
/// statement through the this-argument, with no `return`.
pub proof fn lemma_destructor_body(m: GeneratedMethodV)
    requires
        m.cpp_method.is_destructor,
        body_ok(m),
    ensures
        (match find_arg(m.ffi_signature.arguments, FfiArgumentMeaning::This) {
            Option::Some(this_arg) => source_body_text(m) == "delete "@ + this_arg.name + ";\n"@,
            Option::None => false,
        }),
{
}

/// Law: whether a body carries the `return` keyword is decided solely by
/// the FFI return type: a void-returning wrapper's body is the bare
/// expression statement, with no `return` prefix; a non-void wrapper's body
/// is the expression prefixed by `return `.
pub proof fn lemma_void_return(m: GeneratedMethodV)
    requires
        !m.cpp_method.is_destructor,
    ensures
        is_void_type(m.ffi_signature.return_type) ==> source_body_text(m) == returned_expr(m)
            + ";\n"@,
        !is_void_type(m.ffi_signature.return_type) ==> source_body_text(m) == "return "@
            + returned_expr(m) + ";\n"@,
{
    if is_void_type(m.ffi_signature.return_type) {
        assert(Seq::<char>::empty() + returned_expr(m) =~= returned_expr(m));
    }
}

/// Law: stack allocation together with a non-void FFI return type is an
/// internal inconsistency — no body is generated for such a method.
pub proof fn lemma_stack_nonvoid_rejected(m: GeneratedMethodV)
    requires
        !m.cpp_method.is_destructor,
        m.ffi_signature.allocation_place is Stack,
        !is_void_type(m.ffi_signature.return_type),
    ensures
        !body_ok(m),
{
}

/// Law: generation is deterministic.  The emitted files are a pure function
/// of the generator configuration and the group list: two runs over models
/// with equal views yield byte-identical headers and sources.
pub proof fn lemma_generation_deterministic(
    g1: CppCodeGeneratorV,
    g2: CppCodeGeneratorV,
    d1: Seq<HeaderGroupV>,
    d2: Seq<HeaderGroupV>,
)
    requires
        g1 == g2,
        d1 == d2,
    ensures
        generated_files_spec(g1, d1) == generated_files_spec(g2, d2),
{
}

impl CppCodeGenerator {
    /// Creates a generator for a library with the given name, output
    /// directory, linkage and link libraries.
    pub fn new(lib_name: String, lib_path: String, is_shared: bool, cpp_libs: Vec<String>) -> (r:
        CppCodeGenerator)
        ensures
            r@.lib_name == lib_name@,
            r@.lib_name_upper == upper_of(lib_name@),
            r@.lib_path == lib_path@,
            r@.is_shared == is_shared,
            r@.cpp_libs == cpp_libs.deep_view(),
    {
        let lib_name_upper = crate::text::to_upper(lib_name.as_str());
        CppCodeGenerator { lib_name, lib_name_upper, lib_path, is_shared, cpp_libs }
    }

    /// The directory the library is generated under; output file paths are
    /// relative to it.
    pub fn lib_path(&self) -> (r: &String)
        ensures
            r@ == self@.lib_path,
    {
        &self.lib_path
    }

    /// Renders the wrapper's name, return type and parameter list as they
    /// appear in both the declaration and the definition.
    pub fn function_signature(&self, method: &GeneratedMethod) -> (r: String)
        ensures
            r@ == signature_text(method@),
    {
        let ghost argsv = method.ffi_signature.arguments.deep_view();
        let ghost decls = arg_decls(argsv);
        let args = &method.ffi_signature.arguments;
        let mut joined = String::new();
        let mut i: usize = 0;
        while i < args.len()
            invariant
                i <= argsv.len(),
                argsv == args.deep_view(),
                argsv.len() == args@.len(),
                decls == arg_decls(argsv),
                joined@ == join_seq(decls.subrange(0, i as int), ", "@),
            decreases argsv.len() - i,
        {
            if i > 0 {
                joined.append(", ");
            }
            let t = type_to_code_named(&args[i].argument_type, args[i].name.as_str());
            joined.append(t.as_str());
            proof {
                assert(decls[i as int] == type_code_named(argsv[i as int].argument_type, argsv[i as int].name));
                assert(decls.subrange(0, i + 1).subrange(0, i as int) =~= decls.subrange(0, i as int));
                assert(decls.subrange(0, i + 1).last() == decls[i as int]);
                if i == 0 {
                    assert(join_seq(decls.subrange(0, 1), ", "@) == decls[0]);
                    assert(joined@ =~= decls[0]);
                }
            }
            i += 1;
        }
        proof {
            assert(decls.subrange(0, decls.len() as int) =~= decls);
        }
        let mut nwa = method.c_name.clone();
        nwa.append("(");
        nwa.append(joined.as_str());
        nwa.append(")");
        match &method.ffi_signature.return_type.base {
            CppTypeBase::FunctionPointer { .. } => {
                let r = type_to_code_named(&method.ffi_signature.return_type, nwa.as_str());
                proof {
                    assert(r@ =~= signature_text(method@));
                }
                r
            },
            CppTypeBase::Plain { .. } => {
                let mut r = type_to_code(&method.ffi_signature.return_type);
                r.append(" ");
                r.append(nwa.as_str());
                proof {
                    assert(r@ =~= signature_text(method@));
                }
                r
            },
        }
    }

    /// Renders the wrapper declaration line for the group header.
    pub fn function_declaration(&self, method: &GeneratedMethod) -> (r: String)
        ensures
            r@ == declaration_text(self@, method@),
    {
        let mut r = self.lib_name_upper.clone();
        r.append("_EXPORT ");
        let sig = self.function_signature(method);
        r.append(sig.as_str());
        r.append(";\n");
        proof {
            assert(r@ =~= declaration_text(self@, method@));
        }
        r
    }

    /// Renders the comma-separated expressions forwarded to the original
    /// C++ method, dereferencing pointer-passed values and rebuilding flags
    /// values; fails when an original parameter has no FFI counterpart.
    pub fn arguments_values(&self, method: &GeneratedMethod) -> (r: Result<String, GenError>)
        ensures
            r is Ok <==> args_values_ok(method@),
            (r matches Ok(s) ==> s@ == args_values_text(method@)),
            (r matches Err(e) ==> e.kind == ErrorKind::InternalConsistency),
    {
        let ghost mv = method@;
        let ghost pieces = Seq::new(mv.cpp_method.arguments.len(), |i: int| arg_value_at(mv, i));
        let cpp_args = &method.cpp_method.arguments;
        let mut acc = String::new();
        let mut i: usize = 0;
        while i < cpp_args.len()
            invariant
                i <= cpp_args@.len(),
                mv == method@,
                cpp_args@ == method.cpp_method.arguments@,
                mv.cpp_method.arguments.len() == cpp_args@.len(),
                pieces == Seq::new(mv.cpp_method.arguments.len(), |k: int| arg_value_at(mv, k)),
                acc@ == join_seq(pieces.subrange(0, i as int), ", "@),
                forall|j: int|
                    0 <= j < i ==> (#[trigger] find_arg(
                        mv.ffi_signature.arguments,
                        positional(j),
                    )) is Some,
            decreases cpp_args@.len() - i,
        {
            let cpp_argument = &cpp_args[i];
            match find_ffi_arg(
                &method.ffi_signature.arguments,
                FfiArgumentMeaning::Positional { index: i },
            ) {
                Option::Some(c_argument) => {
                    let piece: String;
                    match c_argument.conversion {
                        ReturnConversion::NoChange => {
                            piece = c_argument.name.clone();
                        },
                        ReturnConversion::ValueToPointer => {
                            let mut p = String::new();
                            p.append("*");
                            p.append(c_argument.name.as_str());
                            piece = p;
                        },
                        ReturnConversion::ReferenceToPointer => {
                            let mut p = String::new();
                            p.append("*");
                            p.append(c_argument.name.as_str());
                            piece = p;
                        },
                        ReturnConversion::FlagsToUnsignedInt => {
                            let is_const_ref = matches!(
                                cpp_argument.argument_type.indirection,
                                CppTypeIndirection::Reference,
                            ) && cpp_argument.argument_type.is_const;
                            let mut p = if is_const_ref {
                                base_to_code(&cpp_argument.argument_type.base)
                            } else {
                                type_to_code(&cpp_argument.argument_type)
                            };
                            p.append("(");
                            p.append(c_argument.name.as_str());
                            p.append(")");
                            piece = p;
                        },
                    }
                    proof {
                        assert(find_arg(mv.ffi_signature.arguments, positional(i as int))
                            == Option::Some(c_argument@));
                        assert(piece@ =~= arg_value_at(mv, i as int));
                        assert(pieces[i as int] == arg_value_at(mv, i as int));
                    }
                    if i > 0 {
                        acc.append(", ");
                    }
                    acc.append(piece.as_str());
                    proof {
                        assert(pieces.subrange(0, i + 1).subrange(0, i as int) =~= pieces.subrange(
                            0,
                            i as int,
                        ));
                        assert(pieces.subrange(0, i + 1).last() == pieces[i as int]);
                        if i == 0 {
                            assert(join_seq(pieces.subrange(0, 1), ", "@) == pieces[0]);
                            assert(acc@ =~= pieces[0]);
                        }
                    }
                    i += 1;
                },
                Option::None => {
                    proof {
                        assert(find_arg(mv.ffi_signature.arguments, positional(i as int)) is None);
                        assert(!args_values_ok(mv));
                    }
                    return Result::Err(
                        GenError::internal(
                            String::from_str("no FFI argument matches a positional parameter"),
                        ),
                    );
                },
            }
        }
        proof {
            assert(pieces.subrange(0, pieces.len() as int) =~= pieces);
            assert(acc@ == args_values_text(mv));
        }
        Result::Ok(acc)
    }

    /// Wraps the expression returned by the original method so that it fits
    /// the FFI return type, and placement-constructs stack-allocated results
    /// into the out-parameter; fails on a conversion that contradicts the
    /// allocation place or on a missing out-parameter.
    pub fn convert_return_type(&self, method: &GeneratedMethod, expression: String) -> (r: Result<
        String,
        GenError,
    >)
        ensures
            r is Ok <==> conversion_ok(method@) && stack_out_ok(method@),
            (r matches Ok(s) ==> s@ == converted_expr(method@, expression@)),
            (r matches Err(e) ==> e.kind == ErrorKind::InternalConsistency),
    {
        let ghost mv = method@;
        let ghost exprv = expression@;
        let mut result = expression;
        match method.ffi_signature.return_conversion {
            ReturnConversion::NoChange => {},
            ReturnConversion::ValueToPointer => {
                match method.ffi_signature.allocation_place {
                    AllocationPlace::Stack => {
                        return Result::Err(
                            GenError::internal(
                                String::from_str(
                                    "stack-allocated wrappers are expected to return void",
                                ),
                            ),
                        );
                    },
                    AllocationPlace::NotApplicable => {
                        return Result::Err(
                            GenError::internal(
                                String::from_str(
                                    "value-to-pointer conflicts with a method that returns no object",
                                ),
                            ),
                        );
                    },
                    AllocationPlace::Heap => {
                        if !method.cpp_method.is_constructor {
                            let mut wrapped = String::new();
                            wrapped.append("new ");
                            let base = base_to_code(&method.cpp_method.return_type.base);
                            wrapped.append(base.as_str());
                            wrapped.append("(");
                            wrapped.append(result.as_str());
                            wrapped.append(")");
                            result = wrapped;
                        }
                    },
                }
            },
            ReturnConversion::ReferenceToPointer => {
                let mut wrapped = String::new();
                wrapped.append("&");
                wrapped.append(result.as_str());
                result = wrapped;
            },
            ReturnConversion::FlagsToUnsignedInt => {
                let mut wrapped = String::new();
                wrapped.append("uint(");
                wrapped.append(result.as_str());
                wrapped.append(")");
                result = wrapped;
            },
        }
        if matches!(method.ffi_signature.allocation_place, AllocationPlace::Stack)
            && !method.cpp_method.is_constructor {
            match find_ffi_arg(&method.ffi_signature.arguments, FfiArgumentMeaning::ReturnValue) {
                Option::Some(arg) => {
                    let mut wrapped = String::new();
                    wrapped.append("new(");
                    wrapped.append(arg.name.as_str());
                    wrapped.append(") ");
                    let base = base_to_code(&method.cpp_method.return_type.base);
                    wrapped.append(base.as_str());
                    wrapped.append("(");
                    wrapped.append(result.as_str());
                    wrapped.append(")");
                    result = wrapped;
                },
                Option::None => {
                    return Result::Err(
                        GenError::internal(
                            String::from_str("return-value out-parameter not found"),
                        ),
                    );
                },
            }
        }
        proof {
            assert(result@ =~= converted_expr(mv, exprv));
        }
        Result::Ok(result)
    }

    /// Builds the fully transformed expression a non-destructor wrapper
    /// evaluates: the inner call target, the forwarded arguments, and the
    /// return transformation.
    pub fn returned_expression(&self, method: &GeneratedMethod) -> (r: Result<String, GenError>)
        requires
            !method@.cpp_method.is_destructor,
        ensures
            r is Ok <==> returned_expr_ok(method@),
            (r matches Ok(s) ==> s@ == returned_expr(method@)),
            (r matches Err(e) ==> e.kind == ErrorKind::InternalConsistency),
    {
        let ghost mv = method@;
        let result_without_args: String;
        if method.cpp_method.is_constructor {
            match &method.cpp_method.class_name {
                Option::Some(class) => {
                    match method.ffi_signature.allocation_place {
                        AllocationPlace::Stack => {
                            match find_ffi_arg(
                                &method.ffi_signature.arguments,
                                FfiArgumentMeaning::ReturnValue,
                            ) {
                                Option::Some(arg) => {
                                    let mut t = String::new();
                                    t.append("new(");
                                    t.append(arg.name.as_str());
                                    t.append(") ");
                                    t.append(class.as_str());
                                    proof {
                                        assert(t@ =~= call_target(mv));
                                    }
                                    result_without_args = t;
                                },
                                Option::None => {
                                    return Result::Err(
                                        GenError::internal(
                                            String::from_str("return-value argument not found"),
                                        ),
                                    );
                                },
                            }
                        },
                        AllocationPlace::Heap => {
                            let mut t = String::new();
                            t.append("new ");
                            t.append(class.as_str());
                            proof {
                                assert(t@ =~= call_target(mv));
                            }
                            result_without_args = t;
                        },
                        AllocationPlace::NotApplicable => {
                            return Result::Err(
                                GenError::internal(
                                    String::from_str(
                                        "constructor with no applicable allocation place",
                                    ),
                                ),
                            );
                        },
                    }
                },
                Option::None => {
                    return Result::Err(
                        GenError::internal(
                            String::from_str("constructor without an owning class"),
                        ),
                    );
                },
            }
        } else {
            let mut t: String;
            match &method.cpp_method.class_name {
                Option::Some(class) => {
                    if method.cpp_method.is_static {
                        t = class.clone();
                        t.append("::");
                    } else {
                        match find_ffi_arg(
                            &method.ffi_signature.arguments,
                            FfiArgumentMeaning::This,
                        ) {
                            Option::Some(arg) => {
                                t = arg.name.clone();
                                t.append("->");
                            },
                            Option::None => {
                                return Result::Err(
                                    GenError::internal(
                                        String::from_str(
                                            "no this-argument on an instance method",
                                        ),
                                    ),
                                );
                            },
                        }
                    }
                },
                Option::None => {
                    t = String::new();
                },
            }
            t.append(method.cpp_method.name.as_str());
            match &method.cpp_method.template_arguments {
                Option::Some(args) => {
                    t.append("<");
                    let codes = type_list_code(args);
                    t.append(codes.as_str());
                    t.append(">");
                },
                Option::None => {},
            }
            proof {
                assert(t@ =~= call_target(mv));
            }
            result_without_args = t;
        }
        let mut call = result_without_args;
        call.append("(");
        match self.arguments_values(method) {
            Result::Ok(vals) => {
                call.append(vals.as_str());
            },
            Result::Err(e) => {
                return Result::Err(e);
            },
        }
        call.append(")");
        proof {
            assert(call@ =~= inner_call(mv));
        }
        self.convert_return_type(method, call)
    }

    /// Builds the body of the wrapper definition: one deletion statement for
    /// a heap destructor, otherwise the transformed expression, returned
    /// exactly when the FFI return type is not void.
    pub fn source_body(&self, method: &GeneratedMethod) -> (r: Result<String, GenError>)
        ensures
            r is Ok <==> body_ok(method@),
            (r matches Ok(s) ==> s@ == source_body_text(method@)),
            (r matches Err(e) ==> e.kind == ErrorKind::InternalConsistency),
    {
        let ghost mv = method@;
        if method.cpp_method.is_destructor {
            if !matches!(method.ffi_signature.allocation_place, AllocationPlace::Heap) {
                return Result::Err(
                    GenError::internal(String::from_str("destructor without heap allocation")),
                );
            }
            match find_ffi_arg(&method.ffi_signature.arguments, FfiArgumentMeaning::This) {
                Option::Some(arg) => {
                    let mut r = String::new();
                    r.append("delete ");
                    r.append(arg.name.as_str());
                    r.append(";\n");
                    proof {
                        assert(r@ =~= source_body_text(mv));
                    }
                    Result::Ok(r)
                },
                Option::None => Result::Err(
                    GenError::internal(String::from_str("no this-argument on a destructor")),
                ),
            }
        } else {
            let ret_is_void = is_void(&method.ffi_signature.return_type);
            if matches!(method.ffi_signature.allocation_place, AllocationPlace::Stack)
                && !ret_is_void {
                return Result::Err(
                    GenError::internal(
                        String::from_str("stack allocation requires a void FFI return type"),
                    ),
                );
            }
            match self.returned_expression(method) {
                Result::Ok(expr) => {
                    let mut r = String::new();
                    if !ret_is_void {
                        r.append("return ");
                    }
                    r.append(expr.as_str());
                    r.append(";\n");
                    proof {
                        assert(r@ =~= source_body_text(mv));
                    }
                    Result::Ok(r)
                },
                Result::Err(e) => Result::Err(e),
            }
        }
    }

    /// Renders the full wrapper definition for the source file.
    pub fn function_implementation(&self, method: &GeneratedMethod) -> (r: Result<
        String,
        GenError,
    >)
        ensures
            r is Ok <==> body_ok(method@),
            (r matches Ok(s) ==> s@ == implementation_text(method@)),
            (r matches Err(e) ==> e.kind == ErrorKind::InternalConsistency),
    {
        match self.source_body(method) {
            Result::Ok(body) => {
                let mut r = self.function_signature(method);
                r.append(" {\n  ");
                r.append(body.as_str());
                r.append("}\n\n");
                proof {
                    assert(r@ =~= implementation_text(method@));
                }
                Result::Ok(r)
            },
            Result::Err(e) => Result::Err(e),
        }
    }

    /// Generates the header and source file of one group: the header holds
    /// one export-qualified declaration per method inside an `extern "C"`
    /// block, the source file includes it and defines every body, in the
    /// same order.
    pub fn generate_one(&self, group: &HeaderGroup) -> (r: Result<
        (GeneratedFile, GeneratedFile),
        GenError,
    >)
        ensures
            r is Ok <==> group_ok(group@),
            (r matches Ok(pair) ==> pair.0@.path == seq![
                "include"@,
                header_file_name(self@, group@.base_name),
            ] && pair.0@.content == header_text(self@, group@) && pair.1@.path == seq![
                "src"@,
                source_file_name(self@, group@.base_name),
            ] && pair.1@.content == source_file_text(self@, group@)),
            (r matches Err(e) ==> e.kind == ErrorKind::InternalConsistency),
    {
        let ghost gv = group@;
        let mut ffi_include_file = self.lib_name.clone();
        ffi_include_file.append("_");
        ffi_include_file.append(group.base_name.as_str());
        ffi_include_file.append(".h");
        proof {
            assert(ffi_include_file@ =~= header_file_name(self@, gv.base_name));
        }
        let mut cpp_file_name = self.lib_name.clone();
        cpp_file_name.append("_");
        cpp_file_name.append(group.base_name.as_str());
        cpp_file_name.append(".cpp");
        proof {
            assert(cpp_file_name@ =~= source_file_name(self@, gv.base_name));
        }
        let replaced = crate::text::replace_dots(ffi_include_file.as_str());
        let guard = crate::text::to_upper(replaced.as_str());
        proof {
            assert(guard@ == group_guard(self@, gv.base_name));
        }
        let mut h = String::new();
        h.append("#ifndef ");
        h.append(guard.as_str());
        h.append("\n#define ");
        h.append(guard.as_str());
        h.append("\n\n");
        h.append("#include \"");
        h.append(self.lib_name.as_str());
        h.append("_global.h\"\n\n");
        h.append("extern \"C\" {\n\n");
        let mut c = String::new();
        c.append("#include \"");
        c.append(ffi_include_file.as_str());
        c.append("\"\n\n");
        let ghost dseq = Seq::new(gv.methods.len(), |k: int| declaration_text(self@, gv.methods[k]));
        let ghost iseq = Seq::new(
            gv.methods.len(),
            |k: int| implementation_text(gv.methods[k]),
        );
        let ghost h_prefix = h@;
        let ghost c_prefix = c@;
        let mut i: usize = 0;
        while i < group.methods.len()
            invariant
                i <= gv.methods.len(),
                gv == group@,
                gv.methods.len() == group.methods@.len(),
                dseq == Seq::new(gv.methods.len(), |k: int| declaration_text(self@, gv.methods[k])),
                iseq == Seq::new(gv.methods.len(), |k: int| implementation_text(gv.methods[k])),
                h@ == h_prefix + concat_seq(dseq.subrange(0, i as int)),
                c@ == c_prefix + concat_seq(iseq.subrange(0, i as int)),
                forall|j: int| 0 <= j < i ==> body_ok(#[trigger] gv.methods[j]),
            decreases gv.methods.len() - i,
        {
            let method = &group.methods[i];
            let decl = self.function_declaration(method);
            match self.function_implementation(method) {
                Result::Ok(imp) => {
                    h.append(decl.as_str());
                    c.append(imp.as_str());
                    proof {
                        assert(dseq.subrange(0, i + 1).subrange(0, i as int) =~= dseq.subrange(
                            0,
                            i as int,
                        ));
                        assert(dseq.subrange(0, i + 1).last() == dseq[i as int]);
                        assert(h@ =~= h_prefix + concat_seq(dseq.subrange(0, i + 1)));
                        assert(iseq.subrange(0, i + 1).subrange(0, i as int) =~= iseq.subrange(
                            0,
                            i as int,
                        ));
                        assert(iseq.subrange(0, i + 1).last() == iseq[i as int]);
                        assert(c@ =~= c_prefix + concat_seq(iseq.subrange(0, i + 1)));
                    }
                    i += 1;
                },
                Result::Err(e) => {
                    proof {
                        assert(!body_ok(gv.methods[i as int]));
                    }
                    return Result::Err(e);
                },
            }
        }
        proof {
            assert(dseq.subrange(0, dseq.len() as int) =~= dseq);
            assert(iseq.subrange(0, iseq.len() as int) =~= iseq);
        }
        h.append("\n} // extern \"C\"\n\n");
        h.append("#endif // ");
        h.append(guard.as_str());
        h.append("\n");
        proof {
            assert(h@ =~= header_text(self@, gv));
            assert(c@ =~= source_file_text(self@, gv));
        }
        let mut h_path: Vec<String> = Vec::new();
        h_path.push(String::from_str("include"));
        h_path.push(ffi_include_file);
        let mut c_path: Vec<String> = Vec::new();
        c_path.push(String::from_str("src"));
        c_path.push(cpp_file_name);
        let hf = GeneratedFile { path: h_path, content: h };
        let cf = GeneratedFile { path: c_path, content: c };
        proof {
            assert(hf@.path =~= seq!["include"@, header_file_name(self@, gv.base_name)]);
            assert(cf@.path =~= seq!["src"@, source_file_name(self@, gv.base_name)]);
        }
        Result::Ok((hf, cf))
    }

    /// Generates the umbrella header that includes every group header,
    /// guarded by the library-wide include guard.
    pub fn generate_all_headers_file(&self, names: &Vec<String>) -> (r: GeneratedFile)
        ensures
            r@.path == seq!["include"@, self@.lib_name + ".h"@],
            r@.content == umbrella_text(self@, names.deep_view()),
    {
        let ghost namesv = names.deep_view();
        let mut content = String::new();
        content.append("#ifndef ");
        content.append(self.lib_name_upper.as_str());
        content.append("_H\n#define ");
        content.append(self.lib_name_upper.as_str());
        content.append("_H\n\n");
        let ghost lines = Seq::new(
            namesv.len(),
            |k: int| "#include \""@ + self@.lib_name + "_"@ + namesv[k] + ".h\"\n"@,
        );
        let ghost prefix = content@;
        let mut i: usize = 0;
        while i < names.len()
            invariant
                i <= namesv.len(),
                namesv == names.deep_view(),
                namesv.len() == names@.len(),
                lines == Seq::new(
                    namesv.len(),
                    |k: int| "#include \""@ + self@.lib_name + "_"@ + namesv[k] + ".h\"\n"@,
                ),
                content@ == prefix + concat_seq(lines.subrange(0, i as int)),
            decreases namesv.len() - i,
        {
            content.append("#include \"");
            content.append(self.lib_name.as_str());
            content.append("_");
            content.append(names[i].as_str());
            content.append(".h\"\n");
            proof {
                assert(lines.subrange(0, i + 1).subrange(0, i as int) =~= lines.subrange(
                    0,
                    i as int,
                ));
                assert(lines.subrange(0, i + 1).last() == lines[i as int]);
                assert(content@ =~= prefix + concat_seq(lines.subrange(0, i + 1)));
            }
            i += 1;
        }
        proof {
            assert(lines.subrange(0, lines.len() as int) =~= lines);
        }
        content.append("#endif // ");
        content.append(self.lib_name_upper.as_str());
        content.append("_H\n");
        proof {
            assert(content@ =~= umbrella_text(self@, namesv));
        }
        let mut file_name = self.lib_name.clone();
        file_name.append(".h");
        let mut path: Vec<String> = Vec::new();
        path.push(String::from_str("include"));
        path.push(file_name);
        let r = GeneratedFile { path, content };
        proof {
            assert(r@.path =~= seq!["include"@, self@.lib_name + ".h"@]);
        }
        r
    }

    /// Generates the umbrella header and every group's header and source
    /// file, in input order; fails, aborting the run, when any method of any
    /// group is inconsistent.
    pub fn generate_files(&self, data: &Vec<HeaderGroup>) -> (r: Result<
        Vec<GeneratedFile>,
        GenError,
    >)
        ensures
            r is Ok <==> all_groups_ok(data.deep_view()),
            (r matches Ok(files) ==> files.deep_view() == generated_files_spec(
                self@,
                data.deep_view(),
            )),
            (r matches Err(e) ==> e.kind == ErrorKind::InternalConsistency),
    {
        let ghost gsv = data.deep_view();
        let mut names: Vec<String> = Vec::new();
        let mut i: usize = 0;
        while i < data.len()
            invariant
                i <= gsv.len(),
                gsv == data.deep_view(),
                gsv.len() == data@.len(),
                names.deep_view().len() == i,
                forall|j: int| 0 <= j < i ==> names.deep_view()[j] == gsv[j].base_name,
            decreases gsv.len() - i,
        {
            let n = data[i].base_name.clone();
            let ghost prev_raw = names@;
            let ghost prev = names.deep_view();
            names.push(n);
            proof {
                assert(names@ == prev_raw.push(n));
                assert forall|j: int|
                    0 <= j < i + 1 implies names.deep_view()[j] == gsv[j].base_name by {
                    if j < i {
                        assert(names@[j] == prev_raw[j]);
                        assert(prev[j] == prev_raw[j]@);
                        assert(prev[j] == gsv[j].base_name);
                    } else {
                        assert(names.deep_view()[j] == n@);
                    }
                }
            }
            i += 1;
        }
        proof {
            assert(names.deep_view() =~= group_base_names(gsv));
        }
        let umbrella = self.generate_all_headers_file(&names);
        let ghost umbrella_v = umbrella@;
        let mut files: Vec<GeneratedFile> = Vec::new();
        files.push(umbrella);
        proof {
            assert(files.deep_view() =~= seq![umbrella_v] + group_files(
                self@,
                gsv.subrange(0, 0),
            ));
        }
        let mut i: usize = 0;
        while i < data.len()
            invariant
                i <= gsv.len(),
                gsv == data.deep_view(),
                gsv.len() == data@.len(),
                umbrella_v.path == seq!["include"@, self@.lib_name + ".h"@],
                umbrella_v.content == umbrella_text(self@, group_base_names(gsv)),
                files.deep_view() == seq![umbrella_v] + group_files(
                    self@,
                    gsv.subrange(0, i as int),
                ),
                forall|j: int| 0 <= j < i ==> group_ok(#[trigger] gsv[j]),
            decreases gsv.len() - i,
        {
            match self.generate_one(&data[i]) {
                Result::Ok(pair) => {
                    let (hf, cf) = pair;
                    let ghost hv = hf@;
                    let ghost cv = cf@;
                    let ghost prev_raw = files@;
                    let ghost prev = files.deep_view();
                    files.push(hf);
                    proof {
                        assert forall|j: int|
                            0 <= j < prev.len() implies files.deep_view()[j] == prev[j] by {
                            assert(files@[j] == prev_raw[j]);
                            assert(prev[j] == prev_raw[j].deep_view());
                        }
                        assert(files.deep_view() =~= prev.push(hv));
                    }
                    let ghost prev_raw2 = files@;
                    let ghost prev2 = files.deep_view();
                    files.push(cf);
                    proof {
                        assert forall|j: int|
                            0 <= j < prev2.len() implies files.deep_view()[j] == prev2[j] by {
                            assert(files@[j] == prev_raw2[j]);
                            assert(prev2[j] == prev_raw2[j].deep_view());
                        }
                        assert(files.deep_view() =~= prev2.push(cv));
                        let sub1 = gsv.subrange(0, i + 1);
                        assert(sub1.subrange(0, i as int) =~= gsv.subrange(0, i as int));
                        assert(sub1.last() == gsv[i as int]);
                        assert(files.deep_view() =~= seq![umbrella_v] + group_files(
                            self@,
                            gsv.subrange(0, i + 1),
                        ));
                    }
                    i += 1;
                },
                Result::Err(e) => {
                    proof {
                        assert(!group_ok(gsv[i as int]));
                    }
                    return Result::Err(
                        e.context(String::from_str("C++ code generator failed")),
                    );
                },
            }
        }
        proof {
            assert(gsv.subrange(0, gsv.len() as int) =~= gsv);
            assert(files.deep_view() == generated_files_spec(self@, gsv));
        }
        Result::Ok(files)
    }

    /// Generates the fixed scaffolding of the library: the native-build
    /// description, the export-macro header, and the global compatibility
    /// header aggregating the caller's include directives.
    pub fn generate_template_files(
        &self,
        include_directives: &Vec<String>,
        include_directories: &Vec<String>,
        framework_directories: &Vec<String>,
        cpp_compiler_flags: &Vec<String>,
    ) -> (r: Vec<GeneratedFile>)
        ensures
            r.deep_view() == template_files_spec(
                self@,
                include_directives.deep_view(),
                include_directories.deep_view(),
                framework_directories.deep_view(),
                cpp_compiler_flags.deep_view(),
            ),
    {
        let ghost dirs = include_directories.deep_view();
        let ghost fw = framework_directories.deep_view();
        let ghost flags = cpp_compiler_flags.deep_view();
        let ghost combined = flags + Seq::new(fw.len(), |k: int| "-F\""@ + fw[k] + "\""@);
        let ghost escaped = Seq::new(combined.len(), |k: int| escaped_quotes(combined[k]));

        // The compiler flags: caller flags, then one -F flag per framework
        // directory, quotes escaped, joined by spaces.
        let mut flags_joined = String::new();
        let mut i: usize = 0;
        while i < cpp_compiler_flags.len()
            invariant
                i <= flags.len(),
                flags == cpp_compiler_flags.deep_view(),
                fw == framework_directories.deep_view(),
                flags.len() == cpp_compiler_flags@.len(),
                combined == flags + Seq::new(fw.len(), |k: int| "-F\""@ + fw[k] + "\""@),
                escaped == Seq::new(combined.len(), |k: int| escaped_quotes(combined[k])),
                combined.len() == flags.len() + fw.len(),
                flags_joined@ == join_seq(escaped.subrange(0, i as int), " "@),
            decreases flags.len() - i,
        {
            if i > 0 {
                flags_joined.append(" ");
            }
            let e = crate::text::escape_quotes(cpp_compiler_flags[i].as_str());
            flags_joined.append(e.as_str());
            proof {
                assert(combined[i as int] == flags[i as int]);
                assert(escaped.subrange(0, i + 1).subrange(0, i as int) =~= escaped.subrange(
                    0,
                    i as int,
                ));
                assert(escaped.subrange(0, i + 1).last() == escaped[i as int]);
                if i == 0 {
                    assert(join_seq(escaped.subrange(0, 1), " "@) == escaped[0]);
                    assert(flags_joined@ =~= escaped[0]);
                }
            }
            i += 1;
        }
        let ghost n_flags = flags.len();
        let mut i: usize = 0;
        while i < framework_directories.len()
            invariant
                i <= fw.len(),
                flags == cpp_compiler_flags.deep_view(),
                fw == framework_directories.deep_view(),
                fw.len() == framework_directories@.len(),
                n_flags == flags.len(),
                n_flags == cpp_compiler_flags@.len(),
                combined == flags + Seq::new(fw.len(), |k: int| "-F\""@ + fw[k] + "\""@),
                escaped == Seq::new(combined.len(), |k: int| escaped_quotes(combined[k])),
                combined.len() == flags.len() + fw.len(),
                flags_joined@ == join_seq(escaped.subrange(0, n_flags + i), " "@),
            decreases fw.len() - i,
        {
            if cpp_compiler_flags.len() > 0 || i > 0 {
                flags_joined.append(" ");
            }
            let mut f = String::new();
            f.append("-F\"");
            f.append(framework_directories[i].as_str());
            f.append("\"");
            let e = crate::text::escape_quotes(f.as_str());
            flags_joined.append(e.as_str());
            proof {
                let k = n_flags + i;
                assert(combined[k as int] == "-F\""@ + fw[i as int] + "\""@);
                assert(f@ =~= combined[k as int]);
                assert(escaped.subrange(0, k + 1).subrange(0, k as int) =~= escaped.subrange(
                    0,
                    k as int,
                ));
                assert(escaped.subrange(0, k + 1).last() == escaped[k as int]);
                if k == 0 {
                    assert(join_seq(escaped.subrange(0, 1), " "@) == escaped[0]);
                    assert(flags_joined@ =~= escaped[0]);
                }
            }
            i += 1;
        }
        proof {
            assert(escaped.subrange(0, escaped.len() as int) =~= escaped);
            assert(flags_joined@ == compiler_flags_text(flags, fw));
        }

        // The include directories, each quoted with backslashes escaped.
        let ghost quoted = Seq::new(dirs.len(), |k: int| "\""@ + escaped_backslashes(dirs[k]) + "\""@);
        let mut dirs_joined = String::new();
        let mut i: usize = 0;
        while i < include_directories.len()
            invariant
                i <= dirs.len(),
                dirs == include_directories.deep_view(),
                dirs.len() == include_directories@.len(),
                quoted == Seq::new(
                    dirs.len(),
                    |k: int| "\""@ + escaped_backslashes(dirs[k]) + "\""@,
                ),
                dirs_joined@ == join_seq(quoted.subrange(0, i as int), " "@),
            decreases dirs.len() - i,
        {
            if i > 0 {
                dirs_joined.append(" ");
            }
            let e = crate::text::escape_backslashes(include_directories[i].as_str());
            dirs_joined.append("\"");
            dirs_joined.append(e.as_str());
            dirs_joined.append("\"");
            proof {
                assert(quoted.subrange(0, i + 1).subrange(0, i as int) =~= quoted.subrange(
                    0,
                    i as int,
                ));
                assert(quoted.subrange(0, i + 1).last() == quoted[i as int]);
                if i == 0 {
                    assert(join_seq(quoted.subrange(0, 1), " "@) == quoted[0]);
                }
                assert(dirs_joined@ =~= join_seq(quoted.subrange(0, i + 1), " "@));
            }
            i += 1;
        }
        proof {
            assert(quoted.subrange(0, quoted.len() as int) =~= quoted);
            assert(dirs_joined@ == quoted_dirs_text(dirs));
        }

        // The build description.
        let mut cmake = String::new();
        cmake.append("cmake_minimum_required(VERSION 3.5)\nproject(");
        cmake.append(self.lib_name.as_str());
        cmake.append(")\n\nset(CMAKE_CXX_FLAGS \"${CMAKE_CXX_FLAGS} ");
        cmake.append(flags_joined.as_str());
        cmake.append("\")\n\ninclude_directories(\"${CMAKE_CURRENT_SOURCE_DIR}/include\" ");
        cmake.append(dirs_joined.as_str());
        cmake.append(")\n\nfile(GLOB sources \"src/*.cpp\")\nadd_library(");
        cmake.append(self.lib_name.as_str());
        cmake.append(" ");
        if self.is_shared {
            cmake.append("SHARED");
        } else {
            cmake.append("STATIC");
        }
        cmake.append(" ${sources})\n");
        if self.is_shared {
            cmake.append("target_link_libraries(");
            cmake.append(self.lib_name.as_str());
            cmake.append(" ");
            let libs = crate::text::join(&self.cpp_libs, " ");
            cmake.append(libs.as_str());
            cmake.append(")\n");
        }
        cmake.append("\ninstall(TARGETS ");
        cmake.append(self.lib_name.as_str());
        cmake.append(" DESTINATION lib)\ninstall(DIRECTORY include/ DESTINATION include)\n");
        proof {
            assert(cmake@ =~= cmakelists_text(self@, dirs, fw, flags));
        }

        // The export-macro header.
        let name_upper = crate::text::to_upper(self.lib_name.as_str());
        let mut exports = String::new();
        exports.append("#ifndef ");
        exports.append(name_upper.as_str());
        exports.append("_EXPORTS_H\n#define ");
        exports.append(name_upper.as_str());
        exports.append("_EXPORTS_H\n\n#ifdef _WIN32\n    #ifdef ");
        exports.append(name_upper.as_str());
        exports.append("_LIBRARY\n        #define ");
        exports.append(name_upper.as_str());
        exports.append("_EXPORT __declspec(dllexport)\n    #else\n        #define ");
        exports.append(name_upper.as_str());
        exports.append("_EXPORT __declspec(dllimport)\n    #endif\n#else\n    #define ");
        exports.append(name_upper.as_str());
        exports.append("_EXPORT\n#endif\n\n#endif // ");
        exports.append(name_upper.as_str());
        exports.append("_EXPORTS_H\n");
        proof {
            assert(exports@ =~= exports_text(upper_of(self@.lib_name)));
        }

        // The global compatibility header.
        let ghost dirv = include_directives.deep_view();
        let ghost dir_lines = Seq::new(dirv.len(), |k: int| "#include \""@ + dirv[k] + "\""@);
        let mut directives_joined = String::new();
        let mut i: usize = 0;
        while i < include_directives.len()
            invariant
                i <= dirv.len(),
                dirv == include_directives.deep_view(),
                dirv.len() == include_directives@.len(),
                dir_lines == Seq::new(dirv.len(), |k: int| "#include \""@ + dirv[k] + "\""@),
                directives_joined@ == join_seq(dir_lines.subrange(0, i as int), "\n"@),
            decreases dirv.len() - i,
        {
            if i > 0 {
                directives_joined.append("\n");
            }
            directives_joined.append("#include \"");
            directives_joined.append(include_directives[i].as_str());
            directives_joined.append("\"");
            proof {
                assert(dir_lines.subrange(0, i + 1).subrange(0, i as int) =~= dir_lines.subrange(
                    0,
                    i as int,
                ));
                assert(dir_lines.subrange(0, i + 1).last() == dir_lines[i as int]);
                if i == 0 {
                    assert(join_seq(dir_lines.subrange(0, 1), "\n"@) == dir_lines[0]);
                }
                assert(directives_joined@ =~= join_seq(dir_lines.subrange(0, i + 1), "\n"@));
            }
            i += 1;
        }
        proof {
            assert(dir_lines.subrange(0, dir_lines.len() as int) =~= dir_lines);
        }
        let mut global = String::new();
        global.append("#ifndef ");
        global.append(name_upper.as_str());
        global.append("_GLOBAL_H\n#define ");
        global.append(name_upper.as_str());
        global.append("_GLOBAL_H\n\n#include \"");
        global.append(self.lib_name.as_str());
        global.append("_exports.h\"\n\n");
        global.append(directives_joined.as_str());
        global.append("\n\n#endif // ");
        global.append(name_upper.as_str());
        global.append("_GLOBAL_H\n");
        proof {
            assert(global@ =~= global_text(self@, dirv));
        }

        // Assemble the three files.
        let mut cmake_path: Vec<String> = Vec::new();
        cmake_path.push(String::from_str("CMakeLists.txt"));
        let cmake_file = GeneratedFile { path: cmake_path, content: cmake };
        let ghost cmake_v = cmake_file@;
        let mut exports_name = self.lib_name.clone();
        exports_name.append("_exports.h");
        let mut exports_path: Vec<String> = Vec::new();
        exports_path.push(String::from_str("include"));
        exports_path.push(exports_name);
        let exports_file = GeneratedFile { path: exports_path, content: exports };
        let ghost exports_v = exports_file@;
        let mut global_name = self.lib_name.clone();
        global_name.append("_global.h");
        let mut global_path: Vec<String> = Vec::new();
        global_path.push(String::from_str("include"));
        global_path.push(global_name);
        let global_file = GeneratedFile { path: global_path, content: global };
        let ghost global_v = global_file@;
        let mut r: Vec<GeneratedFile> = Vec::new();
        r.push(cmake_file);
        r.push(exports_file);
        r.push(global_file);
        proof {
            assert(cmake_v.path =~= seq!["CMakeLists.txt"@]);
            assert(exports_v.path =~= seq!["include"@, self@.lib_name + "_exports.h"@]);
            assert(global_v.path =~= seq!["include"@, self@.lib_name + "_global.h"@]);
            assert(r.deep_view() =~= seq![cmake_v, exports_v, global_v]);
            assert(r.deep_view() =~= template_files_spec(self@, dirv, dirs, fw, flags));
        }
        r
    }
}

} // verus!
