use cpp_wrapper_gen::cpp_code_generator::{CppCodeGenerator, GeneratedFile};
use cpp_wrapper_gen::errors::ErrorKind;
use cpp_wrapper_gen::model::{
    AllocationPlace, CppMethod, CppMethodArgument, CppType, CppTypeBase, CppTypeIndirection,
    FfiArgument, FfiArgumentMeaning, FfiSignature, GeneratedMethod, HeaderGroup, ReturnConversion,
};

fn plain(name: &str, indirection: CppTypeIndirection, is_const: bool) -> CppType {
    CppType { base: CppTypeBase::Plain { name: name.to_string() }, indirection, is_const }
}

fn int_type() -> CppType {
    plain("int", CppTypeIndirection::Direct, false)
}

fn void_type() -> CppType {
    plain("void", CppTypeIndirection::Direct, false)
}

fn generator(lib: &str) -> CppCodeGenerator {
    CppCodeGenerator::new(lib.to_string(), "/tmp/out".to_string(), true, vec!["Qt5Core".to_string()])
}

fn simple_method(
    name: &str,
    class_name: Option<&str>,
    is_static: bool,
    c_name: &str,
    return_type: CppType,
    ffi_return: CppType,
) -> GeneratedMethod {
    GeneratedMethod {
        cpp_method: CppMethod {
            name: name.to_string(),
            class_name: class_name.map(|c| c.to_string()),
            is_constructor: false,
            is_destructor: false,
            is_static,
            is_operator: false,
            is_const_receiver: false,
            return_type,
            arguments: vec![CppMethodArgument { name: "x".to_string(), argument_type: int_type() }],
            template_arguments: None,
        },
        ffi_signature: FfiSignature {
            arguments: vec![FfiArgument {
                name: "x".to_string(),
                argument_type: int_type(),
                conversion: ReturnConversion::NoChange,
                meaning: FfiArgumentMeaning::Positional { index: 0 },
            }],
            return_type: ffi_return,
            return_conversion: ReturnConversion::NoChange,
            allocation_place: AllocationPlace::NotApplicable,
        },
        c_name: c_name.to_string(),
    }
}

#[test]
fn static_method_declaration_and_body() {
    let g = generator("lib");
    let m = simple_method("bar", Some("Foo"), true, "lib_Foo_bar", int_type(), int_type());
    assert_eq!(g.function_declaration(&m), "LIB_EXPORT int lib_Foo_bar(int x);\n");
    assert_eq!(
        g.function_implementation(&m).unwrap(),
        "int lib_Foo_bar(int x) {\n  return Foo::bar(x);\n}\n\n"
    );
}

#[test]
fn instance_method_dereferences_receiver() {
    let g = generator("lib");
    let mut m = simple_method("bar", Some("Foo"), false, "lib_Foo_bar", int_type(), int_type());
    m.ffi_signature.arguments.insert(
        0,
        FfiArgument {
            name: "self".to_string(),
            argument_type: plain("Foo", CppTypeIndirection::Pointer, false),
            conversion: ReturnConversion::NoChange,
            meaning: FfiArgumentMeaning::This,
        },
    );
    assert_eq!(
        g.function_implementation(&m).unwrap(),
        "int lib_Foo_bar(Foo* self, int x) {\n  return self->bar(x);\n}\n\n"
    );
}

#[test]
fn free_function_with_template_arguments() {
    let g = generator("lib");
    let mut m = simple_method("convert", None, false, "lib_convert", int_type(), int_type());
    m.cpp_method.template_arguments =
        Some(vec![plain("QString", CppTypeIndirection::Direct, false), int_type()]);
    assert_eq!(
        g.function_implementation(&m).unwrap(),
        "int lib_convert(int x) {\n  return convert<QString, int>(x);\n}\n\n"
    );
}

#[test]
fn heap_constructor_single_allocation() {
    let g = generator("lib");
    let m = GeneratedMethod {
        cpp_method: CppMethod {
            name: "Foo".to_string(),
            class_name: Some("Foo".to_string()),
            is_constructor: true,
            is_destructor: false,
            is_static: false,
            is_operator: false,
            is_const_receiver: false,
            return_type: plain("Foo", CppTypeIndirection::Direct, false),
            arguments: vec![CppMethodArgument {
                name: "x".to_string(),
                argument_type: int_type(),
            }],
            template_arguments: None,
        },
        ffi_signature: FfiSignature {
            arguments: vec![FfiArgument {
                name: "x".to_string(),
                argument_type: int_type(),
                conversion: ReturnConversion::NoChange,
                meaning: FfiArgumentMeaning::Positional { index: 0 },
            }],
            return_type: plain("Foo", CppTypeIndirection::Pointer, false),
            return_conversion: ReturnConversion::ValueToPointer,
            allocation_place: AllocationPlace::Heap,
        },
        c_name: "lib_Foo_new".to_string(),
    };
    // The heap construction is the sole expression: no extra wrapping.
    assert_eq!(g.source_body(&m).unwrap(), "return new Foo(x);\n");
}

#[test]
fn heap_value_return_wraps_once() {
    let g = generator("lib");
    let mut m = simple_method(
        "name",
        Some("Foo"),
        true,
        "lib_Foo_name",
        plain("QString", CppTypeIndirection::Direct, false),
        plain("QString", CppTypeIndirection::Pointer, false),
    );
    m.ffi_signature.return_conversion = ReturnConversion::ValueToPointer;
    m.ffi_signature.allocation_place = AllocationPlace::Heap;
    assert_eq!(g.source_body(&m).unwrap(), "return new QString(Foo::name(x));\n");
}

#[test]
fn heap_destructor_is_single_deletion() {
    let g = generator("lib");
    let m = GeneratedMethod {
        cpp_method: CppMethod {
            name: "~Foo".to_string(),
            class_name: Some("Foo".to_string()),
            is_constructor: false,
            is_destructor: true,
            is_static: false,
            is_operator: false,
            is_const_receiver: false,
            return_type: void_type(),
            arguments: vec![],
            template_arguments: None,
        },
        ffi_signature: FfiSignature {
            arguments: vec![FfiArgument {
                name: "self".to_string(),
                argument_type: plain("Foo", CppTypeIndirection::Pointer, false),
                conversion: ReturnConversion::NoChange,
                meaning: FfiArgumentMeaning::This,
            }],
            return_type: void_type(),
            return_conversion: ReturnConversion::NoChange,
            allocation_place: AllocationPlace::Heap,
        },
        c_name: "lib_Foo_delete".to_string(),
    };
    assert_eq!(g.source_body(&m).unwrap(), "delete self;\n");
}

#[test]
fn stack_destructor_is_rejected() {
    let g = generator("lib");
    let mut m = GeneratedMethod {
        cpp_method: CppMethod {
            name: "~Foo".to_string(),
            class_name: Some("Foo".to_string()),
            is_constructor: false,
            is_destructor: true,
            is_static: false,
            is_operator: false,
            is_const_receiver: false,
            return_type: void_type(),
            arguments: vec![],
            template_arguments: None,
        },
        ffi_signature: FfiSignature {
            arguments: vec![],
            return_type: void_type(),
            return_conversion: ReturnConversion::NoChange,
            allocation_place: AllocationPlace::Stack,
        },
        c_name: "lib_Foo_delete".to_string(),
    };
    let e = g.source_body(&m).unwrap_err();
    assert_eq!(e.kind, ErrorKind::InternalConsistency);
    // A heap destructor without a this-argument is inconsistent too.
    m.ffi_signature.allocation_place = AllocationPlace::Heap;
    let e = g.source_body(&m).unwrap_err();
    assert_eq!(e.kind, ErrorKind::InternalConsistency);
}

#[test]
fn void_return_emits_no_return_keyword() {
    let g = generator("lib");
    let m = simple_method("touch", Some("Foo"), true, "lib_Foo_touch", void_type(), void_type());
    assert_eq!(g.source_body(&m).unwrap(), "Foo::touch(x);\n");
}

#[test]
fn stack_allocation_with_nonvoid_return_fails() {
    let g = generator("lib");
    let mut m = simple_method("bar", Some("Foo"), true, "lib_Foo_bar", int_type(), int_type());
    m.ffi_signature.allocation_place = AllocationPlace::Stack;
    m.ffi_signature.arguments.push(FfiArgument {
        name: "output".to_string(),
        argument_type: plain("int", CppTypeIndirection::Pointer, false),
        conversion: ReturnConversion::NoChange,
        meaning: FfiArgumentMeaning::ReturnValue,
    });
    let e = g.source_body(&m).unwrap_err();
    assert_eq!(e.kind, ErrorKind::InternalConsistency);
}

#[test]
fn stack_allocated_value_placement_constructs() {
    let g = generator("lib");
    let mut m = simple_method(
        "name",
        Some("Foo"),
        true,
        "lib_Foo_name",
        plain("QString", CppTypeIndirection::Direct, false),
        void_type(),
    );
    m.ffi_signature.allocation_place = AllocationPlace::Stack;
    m.ffi_signature.arguments.push(FfiArgument {
        name: "output".to_string(),
        argument_type: plain("QString", CppTypeIndirection::Pointer, false),
        conversion: ReturnConversion::NoChange,
        meaning: FfiArgumentMeaning::ReturnValue,
    });
    assert_eq!(g.source_body(&m).unwrap(), "new(output) QString(Foo::name(x));\n");
}

#[test]
fn reference_return_takes_address() {
    let g = generator("lib");
    let mut m = simple_method(
        "instance",
        Some("Foo"),
        true,
        "lib_Foo_instance",
        plain("Foo", CppTypeIndirection::Reference, false),
        plain("Foo", CppTypeIndirection::Pointer, false),
    );
    m.ffi_signature.return_conversion = ReturnConversion::ReferenceToPointer;
    assert_eq!(g.source_body(&m).unwrap(), "return &Foo::instance(x);\n");
}

#[test]
fn flags_return_casts_to_unsigned() {
    let g = generator("lib");
    let mut m = simple_method(
        "flags",
        Some("Foo"),
        true,
        "lib_Foo_flags",
        plain("Qt::Alignment", CppTypeIndirection::Direct, false),
        plain("unsigned int", CppTypeIndirection::Direct, false),
    );
    m.ffi_signature.return_conversion = ReturnConversion::FlagsToUnsignedInt;
    assert_eq!(g.source_body(&m).unwrap(), "return uint(Foo::flags(x));\n");
}

#[test]
fn argument_conversions_are_inverted() {
    let g = generator("lib");
    let mut m = simple_method("sum", None, false, "lib_sum", int_type(), int_type());
    m.cpp_method.arguments = vec![
        CppMethodArgument {
            name: "a".to_string(),
            argument_type: plain("QString", CppTypeIndirection::Reference, true),
        },
        CppMethodArgument {
            name: "b".to_string(),
            argument_type: plain("Qt::Alignment", CppTypeIndirection::Reference, true),
        },
        CppMethodArgument {
            name: "c".to_string(),
            argument_type: plain("Qt::Alignment", CppTypeIndirection::Direct, false),
        },
    ];
    m.ffi_signature.arguments = vec![
        FfiArgument {
            name: "a".to_string(),
            argument_type: plain("QString", CppTypeIndirection::Pointer, true),
            conversion: ReturnConversion::ReferenceToPointer,
            meaning: FfiArgumentMeaning::Positional { index: 0 },
        },
        FfiArgument {
            name: "b".to_string(),
            argument_type: plain("unsigned int", CppTypeIndirection::Direct, false),
            conversion: ReturnConversion::FlagsToUnsignedInt,
            meaning: FfiArgumentMeaning::Positional { index: 1 },
        },
        FfiArgument {
            name: "c".to_string(),
            argument_type: plain("unsigned int", CppTypeIndirection::Direct, false),
            conversion: ReturnConversion::FlagsToUnsignedInt,
            meaning: FfiArgumentMeaning::Positional { index: 2 },
        },
    ];
    // A const-reference flags parameter is rebuilt as a bare temporary;
    // a plain flags parameter keeps its own type text.
    assert_eq!(
        g.arguments_values(&m).unwrap(),
        "*a, Qt::Alignment(b), Qt::Alignment(c)"
    );
}

#[test]
fn missing_positional_argument_fails() {
    let g = generator("lib");
    let mut m = simple_method("bar", Some("Foo"), true, "lib_Foo_bar", int_type(), int_type());
    m.ffi_signature.arguments.clear();
    let e = g.arguments_values(&m).unwrap_err();
    assert_eq!(e.kind, ErrorKind::InternalConsistency);
}

#[test]
fn missing_this_argument_fails() {
    let g = generator("lib");
    // An instance method whose FFI signature lacks the this-receiver.
    let m = simple_method("bar", Some("Foo"), false, "lib_Foo_bar", int_type(), int_type());
    let e = g.source_body(&m).unwrap_err();
    assert_eq!(e.kind, ErrorKind::InternalConsistency);
}

#[test]
fn value_to_pointer_with_stack_allocation_fails() {
    let g = generator("lib");
    let mut m = simple_method("bar", Some("Foo"), true, "lib_Foo_bar", int_type(), void_type());
    m.ffi_signature.return_conversion = ReturnConversion::ValueToPointer;
    m.ffi_signature.allocation_place = AllocationPlace::Stack;
    m.ffi_signature.arguments.push(FfiArgument {
        name: "output".to_string(),
        argument_type: plain("int", CppTypeIndirection::Pointer, false),
        conversion: ReturnConversion::NoChange,
        meaning: FfiArgumentMeaning::ReturnValue,
    });
    let e = g.source_body(&m).unwrap_err();
    assert_eq!(e.kind, ErrorKind::InternalConsistency);
}

#[test]
fn value_to_pointer_not_applicable_fails() {
    let g = generator("lib");
    let mut m = simple_method("bar", Some("Foo"), true, "lib_Foo_bar", int_type(), int_type());
    m.ffi_signature.return_conversion = ReturnConversion::ValueToPointer;
    let e = g.source_body(&m).unwrap_err();
    assert_eq!(e.kind, ErrorKind::InternalConsistency);
}

#[test]
fn function_pointer_return_embeds_name() {
    let g = generator("lib");
    let mut m = simple_method("callback", None, false, "lib_callback", int_type(), int_type());
    m.ffi_signature.return_type = CppType {
        base: CppTypeBase::FunctionPointer {
            return_type: Box::new(int_type()),
            arguments: vec![int_type(), plain("char", CppTypeIndirection::Pointer, false)],
        },
        indirection: CppTypeIndirection::Direct,
        is_const: false,
    };
    assert_eq!(g.function_signature(&m), "int (*lib_callback(int x))(int, char*)");
}

#[test]
fn group_header_and_source_layout() {
    let g = generator("lib");
    let group = HeaderGroup {
        base_name: "foo".to_string(),
        methods: vec![simple_method(
            "bar",
            Some("Foo"),
            true,
            "lib_Foo_bar",
            int_type(),
            int_type(),
        )],
    };
    let (header, source) = g.generate_one(&group).unwrap();
    assert_eq!(header.path, vec!["include".to_string(), "lib_foo.h".to_string()]);
    assert_eq!(source.path, vec!["src".to_string(), "lib_foo.cpp".to_string()]);
    assert_eq!(
        header.content,
        "#ifndef LIB_FOO_H\n#define LIB_FOO_H\n\n#include \"lib_global.h\"\n\n\
         extern \"C\" {\n\nLIB_EXPORT int lib_Foo_bar(int x);\n\
         \n} // extern \"C\"\n\n#endif // LIB_FOO_H\n"
    );
    assert_eq!(
        source.content,
        "#include \"lib_foo.h\"\n\nint lib_Foo_bar(int x) {\n  return Foo::bar(x);\n}\n\n"
    );
}

#[test]
fn declarations_and_definitions_keep_input_order() {
    let g = generator("lib");
    let group = HeaderGroup {
        base_name: "foo".to_string(),
        methods: vec![
            simple_method("first", Some("Foo"), true, "lib_Foo_first", int_type(), int_type()),
            simple_method("second", Some("Foo"), true, "lib_Foo_second", int_type(), int_type()),
        ],
    };
    let (header, source) = g.generate_one(&group).unwrap();
    let first_decl = header.content.find("lib_Foo_first").unwrap();
    let second_decl = header.content.find("lib_Foo_second").unwrap();
    assert!(first_decl < second_decl);
    let first_def = source.content.find("lib_Foo_first").unwrap();
    let second_def = source.content.find("lib_Foo_second").unwrap();
    assert!(first_def < second_def);
}

#[test]
fn umbrella_header_includes_all_groups() {
    let g = generator("qt");
    let file = g.generate_all_headers_file(&vec!["core".to_string(), "gui".to_string()]);
    assert_eq!(file.path, vec!["include".to_string(), "qt.h".to_string()]);
    assert_eq!(
        file.content,
        "#ifndef QT_H\n#define QT_H\n\n#include \"qt_core.h\"\n#include \"qt_gui.h\"\n\
         #endif // QT_H\n"
    );
}

#[test]
fn generation_is_deterministic() {
    let g = generator("lib");
    let make_groups = || {
        vec![HeaderGroup {
            base_name: "foo".to_string(),
            methods: vec![simple_method(
                "bar",
                Some("Foo"),
                true,
                "lib_Foo_bar",
                int_type(),
                int_type(),
            )],
        }]
    };
    let a = g.generate_files(&make_groups()).unwrap();
    let b = g.generate_files(&make_groups()).unwrap();
    assert_eq!(a.len(), b.len());
    for (x, y) in a.iter().zip(b.iter()) {
        assert_eq!(x.path, y.path);
        assert_eq!(x.content, y.content);
    }
}

#[test]
fn generate_files_fails_on_inconsistent_group() {
    let g = generator("lib");
    let mut bad = simple_method("bar", Some("Foo"), true, "lib_Foo_bar", int_type(), int_type());
    bad.ffi_signature.arguments.clear();
    let groups =
        vec![HeaderGroup { base_name: "foo".to_string(), methods: vec![bad] }];
    let e = g.generate_files(&groups).unwrap_err();
    assert_eq!(e.kind, ErrorKind::InternalConsistency);
    assert_eq!(
        e.describe(),
        "C++ code generator failed: no FFI argument matches a positional parameter"
    );
}

fn find_by_name<'a>(files: &'a [GeneratedFile], name: &str) -> &'a GeneratedFile {
    files.iter().find(|f| f.path.last().map(|s| s == name).unwrap_or(false)).unwrap()
}

#[test]
fn template_files_contents() {
    let g = generator("lib");
    let files = g.generate_template_files(
        &vec!["QtCore/QtCore".to_string()],
        &vec!["C:\\Qt\\include".to_string()],
        &vec!["/Library/Frameworks".to_string()],
        &vec!["-std=c++11".to_string()],
    );
    assert_eq!(files.len(), 3);

    let cmake = find_by_name(&files, "CMakeLists.txt");
    assert_eq!(cmake.path, vec!["CMakeLists.txt".to_string()]);
    assert_eq!(
        cmake.content,
        "cmake_minimum_required(VERSION 3.5)\nproject(lib)\n\n\
         set(CMAKE_CXX_FLAGS \"${CMAKE_CXX_FLAGS} -std=c++11 -F\\\"/Library/Frameworks\\\"\")\n\n\
         include_directories(\"${CMAKE_CURRENT_SOURCE_DIR}/include\" \"C:\\\\Qt\\\\include\")\n\n\
         file(GLOB sources \"src/*.cpp\")\nadd_library(lib SHARED ${sources})\n\
         target_link_libraries(lib Qt5Core)\n\n\
         install(TARGETS lib DESTINATION lib)\ninstall(DIRECTORY include/ DESTINATION include)\n"
    );

    let exports = find_by_name(&files, "lib_exports.h");
    assert_eq!(exports.path, vec!["include".to_string(), "lib_exports.h".to_string()]);
    assert_eq!(
        exports.content,
        "#ifndef LIB_EXPORTS_H\n#define LIB_EXPORTS_H\n\n#ifdef _WIN32\n    #ifdef LIB_LIBRARY\n        \
         #define LIB_EXPORT __declspec(dllexport)\n    #else\n        \
         #define LIB_EXPORT __declspec(dllimport)\n    #endif\n#else\n    \
         #define LIB_EXPORT\n#endif\n\n#endif // LIB_EXPORTS_H\n"
    );

    let global = find_by_name(&files, "lib_global.h");
    assert_eq!(
        global.content,
        "#ifndef LIB_GLOBAL_H\n#define LIB_GLOBAL_H\n\n#include \"lib_exports.h\"\n\n\
         #include \"QtCore/QtCore\"\n\n#endif // LIB_GLOBAL_H\n"
    );
}

#[test]
fn static_library_has_no_link_line() {
    let g = CppCodeGenerator::new("lib".to_string(), "/tmp/out".to_string(), false, vec![]);
    let files = g.generate_template_files(&vec![], &vec![], &vec![], &vec![]);
    let cmake = find_by_name(&files, "CMakeLists.txt");
    assert!(cmake.content.contains("add_library(lib STATIC ${sources})"));
    assert!(!cmake.content.contains("target_link_libraries"));
}
