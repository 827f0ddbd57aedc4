//! The annotated model of C++ methods and their derived FFI signatures,
//! together with the rendering of C++ type names.
//!
//! Values of these types are produced once by the upstream header parser and
//! signature deriver; the generator only reads them.  Each executable type has
//! a mathematical view (`...V`) over which all contracts are stated.

use vstd::prelude::*;
use crate::text::join_seq;

verus! {

/// Indirection of a C++ type: plain value, pointer, or reference.
#[derive(Clone, Copy, PartialEq, Eq, Structural, Debug)]
pub enum CppTypeIndirection {
    Direct,
    Pointer,
    Reference,
}

/// Base of a C++ type: a named type or a function-pointer type.
#[derive(Debug)]
pub enum CppTypeBase {
    Plain { name: String },
    FunctionPointer { return_type: Box<CppType>, arguments: Vec<CppType> },
}

/// A C++ type: base, indirection and constness.
#[derive(Debug)]
pub struct CppType {
    pub base: CppTypeBase,
    pub indirection: CppTypeIndirection,
    pub is_const: bool,
}

/// Mathematical view of `CppTypeBase`.
pub enum CppTypeBaseV {
    Plain { name: Seq<char> },
    FunctionPointer { return_type: Box<CppTypeV>, arguments: Seq<CppTypeV> },
}

/// Mathematical view of `CppType`.
pub struct CppTypeV {
    pub base: CppTypeBaseV,
    pub indirection: CppTypeIndirection,
    pub is_const: bool,
}

pub open spec fn cpp_type_view(t: CppType) -> CppTypeV
    decreases t,
{
    CppTypeV {
        base: cpp_type_base_view(t.base),
        indirection: t.indirection,
        is_const: t.is_const,
    }
}

pub open spec fn cpp_type_base_view(b: CppTypeBase) -> CppTypeBaseV
    decreases b,
{
    match b {
        CppTypeBase::Plain { name } => CppTypeBaseV::Plain { name: name@ },
        CppTypeBase::FunctionPointer { return_type, arguments } => CppTypeBaseV::FunctionPointer {
            return_type: Box::new(cpp_type_view(*return_type)),
            arguments: cpp_type_views(arguments@),
        },
    }
}

pub open spec fn cpp_type_views(s: Seq<CppType>) -> Seq<CppTypeV>
    decreases s,
{
    if s.len() == 0 {
        Seq::empty()
    } else {
        seq![cpp_type_view(s[0])] + cpp_type_views(s.subrange(1, s.len() as int))
    }
}

pub proof fn lemma_cpp_type_views_index(s: Seq<CppType>, i: int)
    requires
        0 <= i < s.len(),
    ensures
        cpp_type_views(s).len() == s.len(),
        cpp_type_views(s)[i] == cpp_type_view(s[i]),
    decreases s.len(),
{
    if i > 0 {
        lemma_cpp_type_views_index(s.subrange(1, s.len() as int), i - 1);
    } else {
        lemma_cpp_type_views_len(s);
    }
}

pub proof fn lemma_cpp_type_views_len(s: Seq<CppType>)
    ensures
        cpp_type_views(s).len() == s.len(),
    decreases s.len(),
{
    if s.len() > 0 {
        lemma_cpp_type_views_len(s.subrange(1, s.len() as int));
    }
}

impl View for CppType {
    type V = CppTypeV;

    open spec fn view(&self) -> CppTypeV {
        cpp_type_view(*self)
    }
}

impl DeepView for CppType {
    type V = CppTypeV;

    open spec fn deep_view(&self) -> CppTypeV {
        cpp_type_view(*self)
    }
}

/// The text a const qualifier contributes in front of a type name.
pub open spec fn const_prefix(is_const: bool) -> Seq<char> {
    if is_const {
        "const "@
    } else {
        Seq::empty()
    }
}

/// The declarator suffix of an indirection.
pub open spec fn indirection_suffix(i: CppTypeIndirection) -> Seq<char> {
    match i {
        CppTypeIndirection::Direct => Seq::empty(),
        CppTypeIndirection::Pointer => "*"@,
        CppTypeIndirection::Reference => "&"@,
    }
}

/// The C++ source text of a type, without a declarator name.
pub open spec fn type_code(t: CppTypeV) -> Seq<char>
    decreases t,
{
    match t.base {
        CppTypeBaseV::Plain { name } => const_prefix(t.is_const) + name + indirection_suffix(
            t.indirection,
        ),
        CppTypeBaseV::FunctionPointer { return_type, arguments } => type_code(*return_type)
            + " (*)("@ + join_seq(type_codes(arguments), ", "@) + ")"@,
    }
}

/// The C++ source texts of a list of types, in order.
pub open spec fn type_codes(ts: Seq<CppTypeV>) -> Seq<Seq<char>>
    decreases ts,
{
    if ts.len() == 0 {
        Seq::empty()
    } else {
        seq![type_code(ts[0])] + type_codes(ts.subrange(1, ts.len() as int))
    }
}

pub proof fn lemma_type_codes_index(ts: Seq<CppTypeV>, i: int)
    requires
        0 <= i < ts.len(),
    ensures
        type_codes(ts).len() == ts.len(),
        type_codes(ts)[i] == type_code(ts[i]),
    decreases ts.len(),
{
    if i > 0 {
        lemma_type_codes_index(ts.subrange(1, ts.len() as int), i - 1);
    } else {
        lemma_type_codes_len(ts);
    }
}

pub proof fn lemma_type_codes_len(ts: Seq<CppTypeV>)
    ensures
        type_codes(ts).len() == ts.len(),
    decreases ts.len(),
{
    if ts.len() > 0 {
        lemma_type_codes_len(ts.subrange(1, ts.len() as int));
    }
}

/// The C++ source text of a type with a declarator name embedded: the name
/// follows a plain type, but sits inside the pointer-to-function syntax of a
/// function-pointer type.
pub open spec fn type_code_named(t: CppTypeV, name: Seq<char>) -> Seq<char> {
    match t.base {
        CppTypeBaseV::Plain { name: _ } => type_code(t) + " "@ + name,
        CppTypeBaseV::FunctionPointer { return_type, arguments } => type_code(*return_type)
            + " (*"@ + name + ")("@ + join_seq(type_codes(arguments), ", "@) + ")"@,
    }
}

/// The C++ source text of a type base alone, without indirection or constness.
pub open spec fn base_code(b: CppTypeBaseV) -> Seq<char> {
    type_code(CppTypeV { base: b, indirection: CppTypeIndirection::Direct, is_const: false })
}

/// Whether a type is exactly `void`.
pub open spec fn is_void_type(t: CppTypeV) -> bool {
    match t.base {
        CppTypeBaseV::Plain { name } => name == "void"@ && t.indirection
            == CppTypeIndirection::Direct,
        CppTypeBaseV::FunctionPointer { .. } => false,
    }
}

/// Renders the argument list of a function-pointer type.
pub fn type_list_code(arguments: &Vec<CppType>) -> (r: String)
    ensures
        r@ == join_seq(type_codes(cpp_type_views(arguments@)), ", "@),
    decreases arguments,
{
    let mut codes: Vec<String> = Vec::new();
    let mut i: usize = 0;
    proof {
        lemma_cpp_type_views_len(arguments@);
    }
    while i < arguments.len()
        invariant
            i <= arguments@.len(),
            cpp_type_views(arguments@).len() == arguments@.len(),
            codes.deep_view().len() == i,
            forall|j: int|
                0 <= j < i ==> codes.deep_view()[j] == type_code(cpp_type_views(arguments@)[j]),
        decreases arguments@.len() - i,
    {
        let code = type_to_code(&arguments[i]);
        proof {
            lemma_cpp_type_views_index(arguments@, i as int);
        }
        let ghost prev_raw = codes@;
        let ghost prev = codes.deep_view();
        codes.push(code);
        proof {
            assert(codes@ == prev_raw.push(code));
            assert(codes.deep_view().len() == i + 1);
            assert(codes.deep_view()[i as int] == code@);
            assert forall|j: int|
                0 <= j < i + 1 implies codes.deep_view()[j] == type_code(
                cpp_type_views(arguments@)[j],
            ) by {
                if j < i {
                    assert(codes@[j] == prev_raw[j]);
                    assert(codes.deep_view()[j] == codes@[j].deep_view());
                    assert(prev[j] == prev_raw[j].deep_view());
                    assert(prev[j] == type_code(cpp_type_views(arguments@)[j]));
                } else {
                    assert(codes.deep_view()[j] == code@);
                    assert(code@ == type_code(cpp_type_views(arguments@)[j]));
                }
            }
        }
        i += 1;
    }
    proof {
        lemma_cpp_type_views_len(arguments@);
        if arguments@.len() > 0 {
            lemma_type_codes_index(cpp_type_views(arguments@), 0);
        }
        assert forall|j: int| 0 <= j < arguments@.len() implies codes.deep_view()[j] == type_codes(
            cpp_type_views(arguments@),
        )[j] by {
            lemma_type_codes_index(cpp_type_views(arguments@), j);
        }
        lemma_type_codes_len(cpp_type_views(arguments@));
        assert(codes.deep_view() =~= type_codes(cpp_type_views(arguments@)));
    }
    crate::text::join(&codes, ", ")
}

/// Renders a C++ type without a declarator name.
pub fn type_to_code(t: &CppType) -> (r: String)
    ensures
        r@ == type_code(t@),
    decreases t,
{
    match &t.base {
        CppTypeBase::Plain { name } => {
            let mut r = String::new();
            if t.is_const {
                r.append("const ");
            }
            r.append(name.as_str());
            match t.indirection {
                CppTypeIndirection::Direct => {},
                CppTypeIndirection::Pointer => r.append("*"),
                CppTypeIndirection::Reference => r.append("&"),
            }
            proof {
                assert(r@ =~= type_code(t@));
            }
            r
        },
        CppTypeBase::FunctionPointer { return_type, arguments } => {
            let mut r = type_to_code(return_type);
            r.append(" (*)(");
            let args = type_list_code(arguments);
            r.append(args.as_str());
            r.append(")");
            proof {
                assert(r@ =~= type_code(t@));
            }
            r
        },
    }
}

/// Renders a C++ type with a declarator name embedded.
pub fn type_to_code_named(t: &CppType, name: &str) -> (r: String)
    ensures
        r@ == type_code_named(t@, name@),
{
    match &t.base {
        CppTypeBase::Plain { .. } => {
            let mut r = type_to_code(t);
            r.append(" ");
            r.append(name);
            r
        },
        CppTypeBase::FunctionPointer { return_type, arguments } => {
            let mut r = type_to_code(return_type);
            r.append(" (*");
            r.append(name);
            r.append(")(");
            let args = type_list_code(arguments);
            r.append(args.as_str());
            r.append(")");
            proof {
                assert(r@ =~= type_code_named(t@, name@));
            }
            r
        },
    }
}

/// Renders a type base alone, without indirection or constness.
pub fn base_to_code(b: &CppTypeBase) -> (r: String)
    ensures
        r@ == base_code(cpp_type_base_view(*b)),
{
    match b {
        CppTypeBase::Plain { name } => {
            let r = name.clone();
            proof {
                assert(r@ =~= base_code(cpp_type_base_view(*b)));
            }
            r
        },
        CppTypeBase::FunctionPointer { return_type, arguments } => {
            let mut r = type_to_code(return_type);
            r.append(" (*)(");
            let args = type_list_code(arguments);
            r.append(args.as_str());
            r.append(")");
            proof {
                assert(r@ =~= base_code(cpp_type_base_view(*b)));
            }
            r
        },
    }
}

/// Tests whether a type is exactly `void`.
pub fn is_void(t: &CppType) -> (r: bool)
    ensures
        r == is_void_type(t@),
{
    match &t.base {
        CppTypeBase::Plain { name } => {
            crate::str_eq(name.as_str(), "void") && matches!(
                t.indirection,
                CppTypeIndirection::Direct,
            )
        },
        CppTypeBase::FunctionPointer { .. } => false,
    }
}

/// One declared parameter of a C++ method.
#[derive(Debug)]
pub struct CppMethodArgument {
    pub name: String,
    pub argument_type: CppType,
}

/// Mathematical view of `CppMethodArgument`.
pub struct CppMethodArgumentV {
    pub name: Seq<char>,
    pub argument_type: CppTypeV,
}

impl View for CppMethodArgument {
    type V = CppMethodArgumentV;

    open spec fn view(&self) -> CppMethodArgumentV {
        CppMethodArgumentV { name: self.name@, argument_type: self.argument_type@ }
    }
}

impl DeepView for CppMethodArgument {
    type V = CppMethodArgumentV;

    open spec fn deep_view(&self) -> CppMethodArgumentV {
        self.view()
    }
}

/// An annotated C++ method as the upstream parser describes it.
#[derive(Debug)]
pub struct CppMethod {
    pub name: String,
    /// The owning class, absent for free functions.
    pub class_name: Option<String>,
    pub is_constructor: bool,
    pub is_destructor: bool,
    pub is_static: bool,
    pub is_operator: bool,
    /// Const-qualification of the receiver of an instance method.
    pub is_const_receiver: bool,
    pub return_type: CppType,
    pub arguments: Vec<CppMethodArgument>,
    /// Bound template arguments, rendered in call syntax when present.
    pub template_arguments: Option<Vec<CppType>>,
}

/// Mathematical view of `CppMethod`.
pub struct CppMethodV {
    pub name: Seq<char>,
    pub class_name: Option<Seq<char>>,
    pub is_constructor: bool,
    pub is_destructor: bool,
    pub is_static: bool,
    pub is_operator: bool,
    pub is_const_receiver: bool,
    pub return_type: CppTypeV,
    pub arguments: Seq<CppMethodArgumentV>,
    pub template_arguments: Option<Seq<CppTypeV>>,
}

impl View for CppMethod {
    type V = CppMethodV;

    open spec fn view(&self) -> CppMethodV {
        CppMethodV {
            name: self.name@,
            class_name: match self.class_name {
                Option::Some(n) => Option::Some(n@),
                Option::None => Option::None,
            },
            is_constructor: self.is_constructor,
            is_destructor: self.is_destructor,
            is_static: self.is_static,
            is_operator: self.is_operator,
            is_const_receiver: self.is_const_receiver,
            return_type: self.return_type@,
            arguments: self.arguments.deep_view(),
            template_arguments: match self.template_arguments {
                Option::Some(ts) => Option::Some(cpp_type_views(ts@)),
                Option::None => Option::None,
            },
        }
    }
}

/// How a value's shape changes when it crosses the FFI boundary.
#[derive(Clone, Copy, PartialEq, Eq, Structural, Debug)]
pub enum ReturnConversion {
    NoChange,
    ValueToPointer,
    ReferenceToPointer,
    FlagsToUnsignedInt,
}

/// Where the storage for a constructed return value lives.
#[derive(Clone, Copy, PartialEq, Eq, Structural, Debug)]
pub enum AllocationPlace {
    /// Caller-supplied out-parameter storage.
    Stack,
    /// Callee-owned storage, freed later through a wrapper destructor.
    Heap,
    /// The method does not return an object.
    NotApplicable,
}

/// The role an FFI argument plays.
#[derive(Clone, Copy, PartialEq, Eq, Structural, Debug)]
pub enum FfiArgumentMeaning {
    /// The receiver of an instance method or destructor.
    This,
    /// The original parameter at the given position.
    Positional { index: usize },
    /// The caller-supplied storage for a stack-allocated return value.
    ReturnValue,
}

/// One argument of the C-linkage wrapper function.
#[derive(Debug)]
pub struct FfiArgument {
    pub name: String,
    pub argument_type: CppType,
    pub conversion: ReturnConversion,
    pub meaning: FfiArgumentMeaning,
}

/// Mathematical view of `FfiArgument`.
pub struct FfiArgumentV {
    pub name: Seq<char>,
    pub argument_type: CppTypeV,
    pub conversion: ReturnConversion,
    pub meaning: FfiArgumentMeaning,
}

impl View for FfiArgument {
    type V = FfiArgumentV;

    open spec fn view(&self) -> FfiArgumentV {
        FfiArgumentV {
            name: self.name@,
            argument_type: self.argument_type@,
            conversion: self.conversion,
            meaning: self.meaning,
        }
    }
}

impl DeepView for FfiArgument {
    type V = FfiArgumentV;

    open spec fn deep_view(&self) -> FfiArgumentV {
        self.view()
    }
}

/// The derived C-linkage signature of one method.
#[derive(Debug)]
pub struct FfiSignature {
    pub arguments: Vec<FfiArgument>,
    pub return_type: CppType,
    pub return_conversion: ReturnConversion,
    pub allocation_place: AllocationPlace,
}

/// Mathematical view of `FfiSignature`.
pub struct FfiSignatureV {
    pub arguments: Seq<FfiArgumentV>,
    pub return_type: CppTypeV,
    pub return_conversion: ReturnConversion,
    pub allocation_place: AllocationPlace,
}

impl View for FfiSignature {
    type V = FfiSignatureV;

    open spec fn view(&self) -> FfiSignatureV {
        FfiSignatureV {
            arguments: self.arguments.deep_view(),
            return_type: self.return_type@,
            return_conversion: self.return_conversion,
            allocation_place: self.allocation_place,
        }
    }
}

/// A method paired with its FFI signature and generated symbol name.
#[derive(Debug)]
pub struct GeneratedMethod {
    pub cpp_method: CppMethod,
    pub ffi_signature: FfiSignature,
    pub c_name: String,
}

/// Mathematical view of `GeneratedMethod`.
pub struct GeneratedMethodV {
    pub cpp_method: CppMethodV,
    pub ffi_signature: FfiSignatureV,
    pub c_name: Seq<char>,
}

impl View for GeneratedMethod {
    type V = GeneratedMethodV;

    open spec fn view(&self) -> GeneratedMethodV {
        GeneratedMethodV {
            cpp_method: self.cpp_method@,
            ffi_signature: self.ffi_signature@,
            c_name: self.c_name@,
        }
    }
}

impl DeepView for GeneratedMethod {
    type V = GeneratedMethodV;

    open spec fn deep_view(&self) -> GeneratedMethodV {
        self.view()
    }
}

/// The wrapper methods that originate from one C++ header, emitted as one
/// header/source pair whose file names derive from `base_name`.
#[derive(Debug)]
pub struct HeaderGroup {
    pub base_name: String,
    pub methods: Vec<GeneratedMethod>,
}

/// Mathematical view of `HeaderGroup`.
pub struct HeaderGroupV {
    pub base_name: Seq<char>,
    pub methods: Seq<GeneratedMethodV>,
}

impl View for HeaderGroup {
    type V = HeaderGroupV;

    open spec fn view(&self) -> HeaderGroupV {
        HeaderGroupV { base_name: self.base_name@, methods: self.methods.deep_view() }
    }
}

impl DeepView for HeaderGroup {
    type V = HeaderGroupV;

    open spec fn deep_view(&self) -> HeaderGroupV {
        self.view()
    }
}

/// The first FFI argument with the given meaning, if any.
pub open spec fn find_arg(args: Seq<FfiArgumentV>, m: FfiArgumentMeaning) -> Option<FfiArgumentV>
    decreases args.len(),
{
    if args.len() == 0 {
        Option::None
    } else if args[0].meaning == m {
        Option::Some(args[0])
    } else {
        find_arg(args.subrange(1, args.len() as int), m)
    }
}

/// Finds the first FFI argument with the given meaning.
pub fn find_ffi_arg<'a>(args: &'a Vec<FfiArgument>, m: FfiArgumentMeaning) -> (r: Option<
    &'a FfiArgument,
>)
    ensures
        match r {
            Option::Some(a) => find_arg(args.deep_view(), m) == Option::Some(a@),
            Option::None => find_arg(args.deep_view(), m) is None,
        },
{
    let ghost av = args.deep_view();
    let mut i: usize = 0;
    proof {
        assert(av.subrange(0, av.len() as int) =~= av);
    }
    while i < args.len()
        invariant
            i <= av.len(),
            av.len() == args@.len(),
            av == args.deep_view(),
            find_arg(av, m) == find_arg(av.subrange(i as int, av.len() as int), m),
        decreases av.len() - i,
    {
        if args[i].meaning == m {
            proof {
                assert(av.subrange(i as int, av.len() as int)[0] == av[i as int]);
            }
            return Some(&args[i]);
        }
        proof {
            let tail = av.subrange(i as int, av.len() as int);
            assert(tail[0] == av[i as int]);
            assert(tail.subrange(1, tail.len() as int) =~= av.subrange(
                i + 1,
                av.len() as int,
            ));
        }
        i += 1;
    }
    proof {
        assert(av.subrange(av.len() as int, av.len() as int) =~= Seq::<FfiArgumentV>::empty());
    }
    None
}

} // verus!
