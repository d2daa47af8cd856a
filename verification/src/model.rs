//! The entity records the extractor emits, and the abstract declaration model
//! it consumes: each declaration exposes its kind, identifier, line span,
//! attached doc text and — for implementation blocks — its member
//! declarations, independent of any concrete parser's types.

use vstd::prelude::*;
use crate::context::{TContext, TContextView};

verus! {

/// Classification of an extracted entity. `Method` is a function defined
/// inside an implementation block; no other kinds are produced.
#[derive(Clone, Copy, PartialEq, Eq, Structural, Debug)]
pub enum EntityKind {
    Function,
    Struct,
    Enum,
    Method,
}

/// The mathematical content of one extracted record.
pub ghost struct CodeEntityView {
    pub name: Seq<char>,
    pub signature: Seq<char>,
    pub kind: EntityKind,
    pub doc: Option<Seq<char>>,
    pub name_line: int,
    pub line_from: int,
    pub line_to: int,
    pub context: TContextView,
}

/// One extracted record: an immutable, self-contained value with no
/// back-reference to the syntax tree or the file it came from.
pub struct CodeEntity {
    pub name: String,
    pub signature: String,
    pub kind: EntityKind,
    pub doc: Option<String>,
    pub name_line: usize,
    pub line_from: usize,
    pub line_to: usize,
    pub context: TContext,
}

impl View for CodeEntity {
    type V = CodeEntityView;

    open spec fn view(&self) -> CodeEntityView {
        CodeEntityView {
            name: self.name@,
            signature: self.signature@,
            kind: self.kind,
            doc: self.doc.deep_view(),
            name_line: self.name_line as int,
            line_from: self.line_from as int,
            line_to: self.line_to as int,
            context: self.context@,
        }
    }
}

/// The views of a sequence of entities.
pub open spec fn entity_views(s: Seq<CodeEntity>) -> Seq<CodeEntityView> {
    s.map_values(|e: CodeEntity| e@)
}

/// A standalone function declaration: identifier line and body end line. Any
/// leading attribute lines stand before `name_line` and are not part of the
/// recorded span.
pub struct FnDecl {
    pub name: String,
    pub signature: String,
    pub doc: Option<String>,
    pub name_line: usize,
    pub body_end: usize,
}

pub ghost struct FnDeclView {
    pub name: Seq<char>,
    pub signature: Seq<char>,
    pub doc: Option<Seq<char>>,
    pub name_line: int,
    pub body_end: int,
}

impl View for FnDecl {
    type V = FnDeclView;

    open spec fn view(&self) -> FnDeclView {
        FnDeclView {
            name: self.name@,
            signature: self.signature@,
            doc: self.doc.deep_view(),
            name_line: self.name_line as int,
            body_end: self.body_end as int,
        }
    }
}

impl FnDeclView {
    /// Spans within the file, identifier present, doc never attached empty.
    pub open spec fn wf(self, total_lines: int) -> bool {
        &&& 1 <= self.name_line <= self.body_end <= total_lines
        &&& self.name.len() > 0
        &&& (self.doc matches Some(d) ==> d.len() > 0)
    }
}

/// A struct or enum declaration: the span runs from the first token,
/// attributes included, to the closing delimiter; `text` is the full
/// declaration rendering, which serves as the signature.
pub struct TypeDecl {
    pub name: String,
    pub text: String,
    pub doc: Option<String>,
    pub name_line: usize,
    pub line_from: usize,
    pub line_to: usize,
}

pub ghost struct TypeDeclView {
    pub name: Seq<char>,
    pub text: Seq<char>,
    pub doc: Option<Seq<char>>,
    pub name_line: int,
    pub line_from: int,
    pub line_to: int,
}

impl View for TypeDecl {
    type V = TypeDeclView;

    open spec fn view(&self) -> TypeDeclView {
        TypeDeclView {
            name: self.name@,
            text: self.text@,
            doc: self.doc.deep_view(),
            name_line: self.name_line as int,
            line_from: self.line_from as int,
            line_to: self.line_to as int,
        }
    }
}

impl TypeDeclView {
    pub open spec fn wf(self, total_lines: int) -> bool {
        &&& 1 <= self.line_from <= self.line_to <= total_lines
        &&& self.name.len() > 0
        &&& (self.doc matches Some(d) ==> d.len() > 0)
    }
}

/// A function-shaped member of an implementation block: the span covers the
/// whole method declaration, attributes through closing delimiter.
pub struct MethodDecl {
    pub name: String,
    pub signature: String,
    pub doc: Option<String>,
    pub name_line: usize,
    pub line_from: usize,
    pub line_to: usize,
}

pub ghost struct MethodDeclView {
    pub name: Seq<char>,
    pub signature: Seq<char>,
    pub doc: Option<Seq<char>>,
    pub name_line: int,
    pub line_from: int,
    pub line_to: int,
}

impl View for MethodDecl {
    type V = MethodDeclView;

    open spec fn view(&self) -> MethodDeclView {
        MethodDeclView {
            name: self.name@,
            signature: self.signature@,
            doc: self.doc.deep_view(),
            name_line: self.name_line as int,
            line_from: self.line_from as int,
            line_to: self.line_to as int,
        }
    }
}

impl MethodDeclView {
    pub open spec fn wf(self, total_lines: int) -> bool {
        &&& 1 <= self.line_from <= self.line_to <= total_lines
        &&& self.name.len() > 0
        &&& (self.doc matches Some(d) ==> d.len() > 0)
    }
}

/// One member of an implementation block: a method, or any other associated
/// item (constant, type), which produces no entity.
pub enum ImplMember {
    Method(MethodDecl),
    Other,
}

pub ghost enum ImplMemberView {
    Method(MethodDeclView),
    Other,
}

impl View for ImplMember {
    type V = ImplMemberView;

    open spec fn view(&self) -> ImplMemberView {
        match self {
            ImplMember::Method(m) => ImplMemberView::Method(m@),
            ImplMember::Other => ImplMemberView::Other,
        }
    }
}

impl ImplMemberView {
    pub open spec fn wf(self, total_lines: int) -> bool {
        match self {
            ImplMemberView::Method(m) => m.wf(total_lines),
            ImplMemberView::Other => true,
        }
    }
}

/// An implementation block: the rendered name of the type it implements for,
/// and its member declarations in order.
pub struct ImplDecl {
    pub self_ty: String,
    pub members: Vec<ImplMember>,
}

pub ghost struct ImplDeclView {
    pub self_ty: Seq<char>,
    pub members: Seq<ImplMemberView>,
}

impl View for ImplDecl {
    type V = ImplDeclView;

    open spec fn view(&self) -> ImplDeclView {
        ImplDeclView { self_ty: self.self_ty@, members: self.members@.map_values(|m: ImplMember| m@) }
    }
}

impl ImplDeclView {
    pub open spec fn wf(self, total_lines: int) -> bool {
        &&& self.self_ty.len() > 0
        &&& forall|i: int| 0 <= i < self.members.len() ==> (#[trigger] self.members[i]).wf(total_lines)
    }
}

/// A top-level declaration as the syntax tree provider yields it. Kinds that
/// produce no entity (constants, modules, traits, type aliases, imports and
/// the like) are all `Other`.
pub enum Decl {
    Fn(FnDecl),
    Struct(TypeDecl),
    Enum(TypeDecl),
    Impl(ImplDecl),
    Other,
}

pub ghost enum DeclView {
    Fn(FnDeclView),
    Struct(TypeDeclView),
    Enum(TypeDeclView),
    Impl(ImplDeclView),
    Other,
}

impl View for Decl {
    type V = DeclView;

    open spec fn view(&self) -> DeclView {
        match self {
            Decl::Fn(f) => DeclView::Fn(f@),
            Decl::Struct(t) => DeclView::Struct(t@),
            Decl::Enum(t) => DeclView::Enum(t@),
            Decl::Impl(i) => DeclView::Impl(i@),
            Decl::Other => DeclView::Other,
        }
    }
}

impl DeclView {
    pub open spec fn wf(self, total_lines: int) -> bool {
        match self {
            DeclView::Fn(f) => f.wf(total_lines),
            DeclView::Struct(t) => t.wf(total_lines),
            DeclView::Enum(t) => t.wf(total_lines),
            DeclView::Impl(i) => i.wf(total_lines),
            DeclView::Other => true,
        }
    }
}

} // verus!
