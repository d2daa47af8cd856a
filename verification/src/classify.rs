//! The entity classifier: maps each top-level declaration, and each method of
//! an implementation block, to a normalized entity record with its exact line
//! span, its text slices and its contextual identifiers.

use vstd::prelude::*;
use crate::context::{with_span, TContext, TContextView};
use crate::model::{
    entity_views, CodeEntity, CodeEntityView, Decl, DeclView, EntityKind, FnDecl, FnDeclView,
    ImplDecl, ImplMember, ImplMemberView, MethodDeclView, TypeDecl, TypeDeclView,
};
use crate::text::{after_of, before_of, join_lines, newline_count, snippet_of};
use crate::text::{lemma_slice_line_counts, lemma_slices_reassemble_file};

verus! {

/// The entity a standalone function declaration yields. Its recorded span
/// starts at the identifier line, so any leading attribute lines fall into
/// `before_text`; struct, enum and method spans start at the first attribute
/// instead. This asymmetry is a documented quirk of the extraction, kept
/// consistent with the slices so that every entity reassembles its file.
pub open spec fn fn_entity(f: FnDeclView, c: TContextView, lines: Seq<Seq<char>>) -> CodeEntityView {
    CodeEntityView {
        name: f.name,
        signature: f.signature,
        kind: EntityKind::Function,
        doc: f.doc,
        name_line: f.name_line,
        line_from: f.name_line,
        line_to: f.body_end,
        context: with_span(c, lines, f.name_line, f.body_end),
    }
}

/// The entity a struct or enum declaration yields: the full declaration text
/// serves as the signature, and the span covers the whole declaration.
pub open spec fn type_entity(
    t: TypeDeclView,
    kind: EntityKind,
    c: TContextView,
    lines: Seq<Seq<char>>,
) -> CodeEntityView {
    CodeEntityView {
        name: t.name,
        signature: t.text,
        kind: kind,
        doc: t.doc,
        name_line: t.name_line,
        line_from: t.line_from,
        line_to: t.line_to,
        context: with_span(c, lines, t.line_from, t.line_to),
    }
}

/// The entity a method of an implementation block yields: the span covers the
/// whole method declaration, attributes included; the context already carries
/// the enclosing type.
pub open spec fn method_entity(
    m: MethodDeclView,
    c: TContextView,
    lines: Seq<Seq<char>>,
) -> CodeEntityView {
    CodeEntityView {
        name: m.name,
        signature: m.signature,
        kind: EntityKind::Method,
        doc: m.doc,
        name_line: m.name_line,
        line_from: m.line_from,
        line_to: m.line_to,
        context: with_span(c, lines, m.line_from, m.line_to),
    }
}

/// The context handed to every member of an implementation block.
pub open spec fn impl_context(c: TContextView, self_ty: Seq<char>) -> TContextView {
    TContextView { enclosing_type: Some(self_ty), ..c }
}

/// The entities of an implementation block's members, in order: one `Method`
/// entity per function-shaped member, nothing for the others and nothing for
/// the block itself.
pub open spec fn impl_entities(
    members: Seq<ImplMemberView>,
    c: TContextView,
    lines: Seq<Seq<char>>,
) -> Seq<CodeEntityView>
    decreases members.len(),
{
    if members.len() == 0 {
        Seq::empty()
    } else {
        impl_entities(members.drop_last(), c, lines) + match members.last() {
            ImplMemberView::Method(m) => seq![method_entity(m, c, lines)],
            ImplMemberView::Other => Seq::empty(),
        }
    }
}

/// The callable entities (functions and methods) of one top-level declaration.
pub open spec fn item_functions(d: DeclView, c: TContextView, lines: Seq<Seq<char>>) -> Seq<
    CodeEntityView,
> {
    match d {
        DeclView::Fn(f) => seq![fn_entity(f, c, lines)],
        DeclView::Impl(i) => impl_entities(i.members, impl_context(c, i.self_ty), lines),
        _ => Seq::empty(),
    }
}

/// The non-callable entities (structs and enums) of one top-level declaration.
pub open spec fn item_structs(d: DeclView, c: TContextView, lines: Seq<Seq<char>>) -> Seq<
    CodeEntityView,
> {
    match d {
        DeclView::Struct(t) => seq![type_entity(t, EntityKind::Struct, c, lines)],
        DeclView::Enum(t) => seq![type_entity(t, EntityKind::Enum, c, lines)],
        _ => Seq::empty(),
    }
}

/// The callable entities of a whole file, declaration by declaration.
pub open spec fn file_functions(ds: Seq<DeclView>, c: TContextView, lines: Seq<Seq<char>>) -> Seq<
    CodeEntityView,
>
    decreases ds.len(),
{
    if ds.len() == 0 {
        Seq::empty()
    } else {
        file_functions(ds.drop_last(), c, lines) + item_functions(ds.last(), c, lines)
    }
}

/// The non-callable entities of a whole file, declaration by declaration.
pub open spec fn file_structs(ds: Seq<DeclView>, c: TContextView, lines: Seq<Seq<char>>) -> Seq<
    CodeEntityView,
>
    decreases ds.len(),
{
    if ds.len() == 0 {
        Seq::empty()
    } else {
        file_structs(ds.drop_last(), c, lines) + item_structs(ds.last(), c, lines)
    }
}

/// The views of a sequence of declarations.
pub open spec fn decl_views(s: Seq<Decl>) -> Seq<DeclView> {
    s.map_values(|d: Decl| d@)
}

fn clone_doc(d: &Option<String>) -> (r: Option<String>)
    ensures
        r == *d,
{
    match d {
        Some(s) => Some(s.clone()),
        None => None,
    }
}

/// Emit the entity for a standalone function declaration.
pub fn parse_fn(decl: &FnDecl, context: TContext, lines: &[&str]) -> (e: CodeEntity)
    requires
        decl@.wf(lines@.len() as int),
    ensures
        e@ == fn_entity(decl@, context@, lines.deep_view()),
{
    let mut context = context;
    context.add_snippet(lines, decl.name_line, decl.body_end);
    context.add_rest_lines(lines, decl.name_line, decl.body_end);
    CodeEntity {
        name: decl.name.clone(),
        signature: decl.signature.clone(),
        kind: EntityKind::Function,
        doc: clone_doc(&decl.doc),
        name_line: decl.name_line,
        line_from: decl.name_line,
        line_to: decl.body_end,
        context,
    }
}

/// Emit the entity for a struct declaration.
pub fn parse_struct(decl: &TypeDecl, context: TContext, lines: &[&str]) -> (e: CodeEntity)
    requires
        decl@.wf(lines@.len() as int),
    ensures
        e@ == type_entity(decl@, EntityKind::Struct, context@, lines.deep_view()),
{
    let mut context = context;
    context.add_snippet(lines, decl.line_from, decl.line_to);
    context.add_rest_lines(lines, decl.line_from, decl.line_to);
    CodeEntity {
        name: decl.name.clone(),
        signature: decl.text.clone(),
        kind: EntityKind::Struct,
        doc: clone_doc(&decl.doc),
        name_line: decl.name_line,
        line_from: decl.line_from,
        line_to: decl.line_to,
        context,
    }
}

/// Emit the entity for an enum declaration.
pub fn parse_enum(decl: &TypeDecl, context: TContext, lines: &[&str]) -> (e: CodeEntity)
    requires
        decl@.wf(lines@.len() as int),
    ensures
        e@ == type_entity(decl@, EntityKind::Enum, context@, lines.deep_view()),
{
    let mut context = context;
    context.add_snippet(lines, decl.line_from, decl.line_to);
    context.add_rest_lines(lines, decl.line_from, decl.line_to);
    CodeEntity {
        name: decl.name.clone(),
        signature: decl.text.clone(),
        kind: EntityKind::Enum,
        doc: clone_doc(&decl.doc),
        name_line: decl.name_line,
        line_from: decl.line_from,
        line_to: decl.line_to,
        context,
    }
}

/// Emit one `Method` entity per function-shaped member of an implementation
/// block; the context must already carry the enclosing type.
pub fn parse_impl(decl: &ImplDecl, context: TContext, lines: &[&str]) -> (es: Vec<CodeEntity>)
    requires
        decl@.wf(lines@.len() as int),
    ensures
        entity_views(es@) == impl_entities(decl@.members, context@, lines.deep_view()),
{
    let ghost lv = lines.deep_view();
    let ghost mv = decl@.members;
    let mut es: Vec<CodeEntity> = Vec::new();
    proof {
        assert(mv.take(0) =~= Seq::<ImplMemberView>::empty());
        assert(entity_views(es@) =~= Seq::<CodeEntityView>::empty());
    }
    let mut i: usize = 0;
    while i < decl.members.len()
        invariant
            0 <= i <= decl.members@.len(),
            lv == lines.deep_view(),
            mv == decl@.members,
            decl@.wf(lines@.len() as int),
            lines@.len() == lv.len(),
            entity_views(es@) == impl_entities(mv.take(i as int), context@, lv),
        decreases decl.members@.len() - i,
    {
        match &decl.members[i] {
            ImplMember::Method(m) => {
                proof {
                    assert(mv[i as int] == decl.members@[i as int]@);
                    assert(mv[i as int].wf(lv.len() as int));
                }
                let mut ctx = context.duplicate();
                ctx.add_snippet(lines, m.line_from, m.line_to);
                ctx.add_rest_lines(lines, m.line_from, m.line_to);
                let e = CodeEntity {
                    name: m.name.clone(),
                    signature: m.signature.clone(),
                    kind: EntityKind::Method,
                    doc: clone_doc(&m.doc),
                    name_line: m.name_line,
                    line_from: m.line_from,
                    line_to: m.line_to,
                    context: ctx,
                };
                es.push(e);
            },
            ImplMember::Other => {
            },
        }
        proof {
            assert(mv.take(i as int + 1).drop_last() =~= mv.take(i as int));
            assert(mv.take(i as int + 1).last() == mv[i as int]);
            assert(mv[i as int] == decl.members@[i as int]@);
            assert(entity_views(es@) =~= impl_entities(mv.take(i as int + 1), context@, lv));
        }
        i = i + 1;
    }
    proof {
        assert(mv.take(mv.len() as int) =~= mv);
    }
    es
}

/// Classify one top-level declaration: callable entities (functions, methods)
/// in the first list, non-callable (structs, enums) in the second. An
/// implementation block yields no entity of its own; declarations of any
/// other kind yield nothing.
pub fn parse_item(decl: &Decl, context: TContext, lines: &[&str]) -> (r: (
    Vec<CodeEntity>,
    Vec<CodeEntity>,
))
    requires
        decl@.wf(lines@.len() as int),
    ensures
        entity_views(r.0@) == item_functions(decl@, context@, lines.deep_view()),
        entity_views(r.1@) == item_structs(decl@, context@, lines.deep_view()),
{
    let ghost c0 = context@;
    let mut functions: Vec<CodeEntity> = Vec::new();
    let mut structs: Vec<CodeEntity> = Vec::new();
    proof {
        assert(entity_views(functions@) =~= Seq::<CodeEntityView>::empty());
        assert(entity_views(structs@) =~= Seq::<CodeEntityView>::empty());
    }
    match decl {
        Decl::Impl(item) => {
            let mut ctx = context;
            ctx.enclosing_type = Some(item.self_ty.clone());
            proof {
                assert(ctx@ == impl_context(c0, item.self_ty@));
            }
            let mut es = parse_impl(item, ctx, lines);
            functions.append(&mut es);
            proof {
                assert(entity_views(functions@) =~= item_functions(
                    decl@,
                    c0,
                    lines.deep_view(),
                ));
            }
        },
        Decl::Enum(item) => {
            structs.push(parse_enum(item, context, lines));
            proof {
                assert(entity_views(structs@) =~= item_structs(decl@, c0, lines.deep_view()));
            }
        },
        Decl::Struct(item) => {
            structs.push(parse_struct(item, context, lines));
            proof {
                assert(entity_views(structs@) =~= item_structs(decl@, c0, lines.deep_view()));
            }
        },
        Decl::Fn(item) => {
            functions.push(parse_fn(item, context, lines));
            proof {
                assert(entity_views(functions@) =~= item_functions(decl@, c0, lines.deep_view()));
            }
        },
        Decl::Other => {
        },
    }
    (functions, structs)
}

/// Extract every entity of one parsed file, accumulating callable and
/// non-callable entities in declaration order.
pub fn extract_file(decls: &Vec<Decl>, context: &TContext, lines: &[&str]) -> (r: (
    Vec<CodeEntity>,
    Vec<CodeEntity>,
))
    requires
        forall|i: int|
            0 <= i < decls@.len() ==> (#[trigger] decl_views(decls@)[i]).wf(lines@.len() as int),
    ensures
        entity_views(r.0@) == file_functions(decl_views(decls@), context@, lines.deep_view()),
        entity_views(r.1@) == file_structs(decl_views(decls@), context@, lines.deep_view()),
{
    let ghost dv = decl_views(decls@);
    let ghost lv = lines.deep_view();
    let mut functions: Vec<CodeEntity> = Vec::new();
    let mut structs: Vec<CodeEntity> = Vec::new();
    proof {
        assert(dv.take(0) =~= Seq::<DeclView>::empty());
        assert(entity_views(functions@) =~= Seq::<CodeEntityView>::empty());
        assert(entity_views(structs@) =~= Seq::<CodeEntityView>::empty());
    }
    let mut i: usize = 0;
    while i < decls.len()
        invariant
            0 <= i <= decls@.len(),
            dv == decl_views(decls@),
            lv == lines.deep_view(),
            lines@.len() == lv.len(),
            forall|k: int| 0 <= k < decls@.len() ==> (#[trigger] dv[k]).wf(lv.len() as int),
            entity_views(functions@) == file_functions(dv.take(i as int), context@, lv),
            entity_views(structs@) == file_structs(dv.take(i as int), context@, lv),
        decreases decls@.len() - i,
    {
        proof {
            assert(dv[i as int] == decls@[i as int]@);
        }
        let (mut f, mut s) = parse_item(&decls[i], context.duplicate(), lines);
        functions.append(&mut f);
        structs.append(&mut s);
        proof {
            assert(dv.take(i as int + 1).drop_last() =~= dv.take(i as int));
            assert(dv.take(i as int + 1).last() == dv[i as int]);
            assert(entity_views(functions@) =~= file_functions(dv.take(i as int + 1), context@, lv));
            assert(entity_views(structs@) =~= file_structs(dv.take(i as int + 1), context@, lv));
        }
        i = i + 1;
    }
    proof {
        assert(dv.take(dv.len() as int) =~= dv);
    }
    (functions, structs)
}

/// The entity's recorded span lies within the file and its three text slices
/// are exactly the slices of that span.
pub open spec fn span_exact(e: CodeEntityView, lines: Seq<Seq<char>>) -> bool {
    &&& 1 <= e.line_from <= e.line_to <= lines.len()
    &&& e.context.snippet == snippet_of(lines, e.line_from, e.line_to)
    &&& e.context.before_text == before_of(lines, e.line_from)
    &&& e.context.after_text == after_of(lines, e.line_to)
}

/// The entity keeps the file identity of the base context it was built from.
pub open spec fn keeps_identity(e: CodeEntityView, c: TContextView) -> bool {
    &&& e.context.module == c.module
    &&& e.context.file_path == c.file_path
    &&& e.context.file_name == c.file_name
}

proof fn lemma_impl_entities_shape(
    members: Seq<ImplMemberView>,
    c: TContextView,
    lines: Seq<Seq<char>>,
)
    requires
        forall|i: int| 0 <= i < members.len() ==> (#[trigger] members[i]).wf(lines.len() as int),
    ensures
        forall|j: int|
            0 <= j < impl_entities(members, c, lines).len() ==> {
                let e = #[trigger] impl_entities(members, c, lines)[j];
                &&& e.kind == EntityKind::Method
                &&& e.context.enclosing_type == c.enclosing_type
                &&& keeps_identity(e, c)
                &&& span_exact(e, lines)
            },
    decreases members.len(),
{
    if members.len() > 0 {
        assert(forall|i: int|
            0 <= i < members.drop_last().len() ==> #[trigger] members.drop_last()[i] == members[i]);
        lemma_impl_entities_shape(members.drop_last(), c, lines);
        let head = impl_entities(members.drop_last(), c, lines);
        let es = impl_entities(members, c, lines);
        assert(members[members.len() - 1] == members.last());
        assert forall|j: int| 0 <= j < es.len() implies {
            let e = #[trigger] es[j];
            &&& e.kind == EntityKind::Method
            &&& e.context.enclosing_type == c.enclosing_type
            &&& keeps_identity(e, c)
            &&& span_exact(e, lines)
        } by {
            if j < head.len() {
                assert(es[j] == head[j]);
            } else {
                match members.last() {
                    ImplMemberView::Method(m) => {
                        assert(es[j] == method_entity(m, c, lines));
                    },
                    ImplMemberView::Other => {},
                }
            }
        }
    }
}

proof fn lemma_item_entities_shape(d: DeclView, c: TContextView, lines: Seq<Seq<char>>)
    requires
        d.wf(lines.len() as int),
    ensures
        forall|j: int|
            0 <= j < item_functions(d, c, lines).len() ==> {
                let e = #[trigger] item_functions(d, c, lines)[j];
                &&& (e.kind == EntityKind::Function || e.kind == EntityKind::Method)
                &&& (e.kind == EntityKind::Function ==> e.context.enclosing_type
                    == c.enclosing_type)
                &&& (e.kind == EntityKind::Method ==> (e.context.enclosing_type matches Some(t)
                    && t.len() > 0))
                &&& keeps_identity(e, c)
                &&& span_exact(e, lines)
            },
        forall|j: int|
            0 <= j < item_structs(d, c, lines).len() ==> {
                let e = #[trigger] item_structs(d, c, lines)[j];
                &&& (e.kind == EntityKind::Struct || e.kind == EntityKind::Enum)
                &&& e.context.enclosing_type == c.enclosing_type
                &&& keeps_identity(e, c)
                &&& span_exact(e, lines)
            },
{
    match d {
        DeclView::Impl(i) => {
            lemma_impl_entities_shape(i.members, impl_context(c, i.self_ty), lines);
        },
        _ => {},
    }
}

proof fn lemma_file_entities_shape(ds: Seq<DeclView>, c: TContextView, lines: Seq<Seq<char>>)
    requires
        forall|i: int| 0 <= i < ds.len() ==> (#[trigger] ds[i]).wf(lines.len() as int),
    ensures
        forall|j: int|
            0 <= j < file_functions(ds, c, lines).len() ==> {
                let e = #[trigger] file_functions(ds, c, lines)[j];
                &&& (e.kind == EntityKind::Function || e.kind == EntityKind::Method)
                &&& (e.kind == EntityKind::Function ==> e.context.enclosing_type
                    == c.enclosing_type)
                &&& (e.kind == EntityKind::Method ==> (e.context.enclosing_type matches Some(t)
                    && t.len() > 0))
                &&& keeps_identity(e, c)
                &&& span_exact(e, lines)
            },
        forall|j: int|
            0 <= j < file_structs(ds, c, lines).len() ==> {
                let e = #[trigger] file_structs(ds, c, lines)[j];
                &&& (e.kind == EntityKind::Struct || e.kind == EntityKind::Enum)
                &&& e.context.enclosing_type == c.enclosing_type
                &&& keeps_identity(e, c)
                &&& span_exact(e, lines)
            },
    decreases ds.len(),
{
    if ds.len() > 0 {
        assert(forall|i: int|
            0 <= i < ds.drop_last().len() ==> #[trigger] ds.drop_last()[i] == ds[i]);
        lemma_file_entities_shape(ds.drop_last(), c, lines);
        assert(ds[ds.len() - 1] == ds.last());
        lemma_item_entities_shape(ds.last(), c, lines);
        let hf = file_functions(ds.drop_last(), c, lines);
        let hs = file_structs(ds.drop_last(), c, lines);
        assert(forall|j: int|
            0 <= j < hf.len() ==> #[trigger] file_functions(ds, c, lines)[j] == hf[j]);
        assert(forall|j: int|
            hf.len() <= j < file_functions(ds, c, lines).len()
                ==> #[trigger] file_functions(ds, c, lines)[j] == item_functions(ds.last(), c, lines)[
                j - hf.len()]);
        assert(forall|j: int|
            0 <= j < hs.len() ==> #[trigger] file_structs(ds, c, lines)[j] == hs[j]);
        assert(forall|j: int|
            hs.len() <= j < file_structs(ds, c, lines).len()
                ==> #[trigger] file_structs(ds, c, lines)[j] == item_structs(ds.last(), c, lines)[
                j - hs.len()]);
    }
}

/// Law: a `Method` entity carries an enclosing type, present and non-empty;
/// a `Function`, `Struct` or `Enum` entity carries none; and every entity of
/// a file keeps the module, file path and file name of the file's base
/// context.
pub proof fn lemma_entity_context_fields(ds: Seq<DeclView>, c: TContextView, lines: Seq<Seq<char>>)
    requires
        forall|i: int| 0 <= i < ds.len() ==> (#[trigger] ds[i]).wf(lines.len() as int),
        c.enclosing_type is None,
    ensures
        forall|j: int|
            0 <= j < file_functions(ds, c, lines).len() ==> {
                let e = #[trigger] file_functions(ds, c, lines)[j];
                &&& (e.kind == EntityKind::Method <==> e.context.enclosing_type is Some)
                &&& (e.kind == EntityKind::Method ==> (e.context.enclosing_type matches Some(t)
                    && t.len() > 0))
                &&& keeps_identity(e, c)
            },
        forall|j: int|
            0 <= j < file_structs(ds, c, lines).len() ==> {
                let e = #[trigger] file_structs(ds, c, lines)[j];
                &&& e.context.enclosing_type is None
                &&& keeps_identity(e, c)
            },
{
    lemma_file_entities_shape(ds, c, lines);
}

/// Law: every entity of a file reassembles that file — its `before_text`,
/// `snippet` and `after_text` concatenate to the whole rendered file text.
pub proof fn lemma_entity_reassembles_file(
    ds: Seq<DeclView>,
    c: TContextView,
    lines: Seq<Seq<char>>,
)
    requires
        forall|i: int| 0 <= i < ds.len() ==> (#[trigger] ds[i]).wf(lines.len() as int),
    ensures
        forall|j: int|
            0 <= j < file_functions(ds, c, lines).len() ==> {
                let e = #[trigger] file_functions(ds, c, lines)[j];
                e.context.before_text + e.context.snippet + e.context.after_text == join_lines(
                    lines,
                )
            },
        forall|j: int|
            0 <= j < file_structs(ds, c, lines).len() ==> {
                let e = #[trigger] file_structs(ds, c, lines)[j];
                e.context.before_text + e.context.snippet + e.context.after_text == join_lines(
                    lines,
                )
            },
{
    lemma_file_entities_shape(ds, c, lines);
    assert forall|j: int| 0 <= j < file_functions(ds, c, lines).len() implies {
        let e = #[trigger] file_functions(ds, c, lines)[j];
        e.context.before_text + e.context.snippet + e.context.after_text == join_lines(lines)
    } by {
        let e = file_functions(ds, c, lines)[j];
        lemma_slices_reassemble_file(lines, e.line_from, e.line_to);
    }
    assert forall|j: int| 0 <= j < file_structs(ds, c, lines).len() implies {
        let e = #[trigger] file_structs(ds, c, lines)[j];
        e.context.before_text + e.context.snippet + e.context.after_text == join_lines(lines)
    } by {
        let e = file_structs(ds, c, lines)[j];
        lemma_slices_reassemble_file(lines, e.line_from, e.line_to);
    }
}

/// Law: for a file whose lines hold no embedded newline, every entity's
/// `snippet` holds exactly `line_to - line_from + 1` lines, its `before_text`
/// exactly `line_from - 1`, its `after_text` exactly the rest, and the three
/// line counts add up to the file's total line count.
pub proof fn lemma_entity_line_counts(ds: Seq<DeclView>, c: TContextView, lines: Seq<Seq<char>>)
    requires
        forall|i: int| 0 <= i < ds.len() ==> (#[trigger] ds[i]).wf(lines.len() as int),
        forall|i: int| 0 <= i < lines.len() ==> !(#[trigger] lines[i]).contains('\n'),
    ensures
        forall|j: int|
            0 <= j < file_functions(ds, c, lines).len() ==> {
                let e = #[trigger] file_functions(ds, c, lines)[j];
                &&& newline_count(e.context.snippet) == e.line_to - e.line_from + 1
                &&& newline_count(e.context.before_text) == e.line_from - 1
                &&& newline_count(e.context.after_text) == lines.len() - e.line_to
                &&& newline_count(e.context.before_text) + newline_count(e.context.snippet)
                    + newline_count(e.context.after_text) == lines.len()
            },
        forall|j: int|
            0 <= j < file_structs(ds, c, lines).len() ==> {
                let e = #[trigger] file_structs(ds, c, lines)[j];
                &&& newline_count(e.context.snippet) == e.line_to - e.line_from + 1
                &&& newline_count(e.context.before_text) == e.line_from - 1
                &&& newline_count(e.context.after_text) == lines.len() - e.line_to
                &&& newline_count(e.context.before_text) + newline_count(e.context.snippet)
                    + newline_count(e.context.after_text) == lines.len()
            },
{
    lemma_file_entities_shape(ds, c, lines);
    assert forall|j: int| 0 <= j < file_functions(ds, c, lines).len() implies {
        let e = #[trigger] file_functions(ds, c, lines)[j];
        &&& newline_count(e.context.snippet) == e.line_to - e.line_from + 1
        &&& newline_count(e.context.before_text) == e.line_from - 1
        &&& newline_count(e.context.after_text) == lines.len() - e.line_to
        &&& newline_count(e.context.before_text) + newline_count(e.context.snippet)
            + newline_count(e.context.after_text) == lines.len()
    } by {
        let e = file_functions(ds, c, lines)[j];
        lemma_slice_line_counts(lines, e.line_from, e.line_to);
    }
    assert forall|j: int| 0 <= j < file_structs(ds, c, lines).len() implies {
        let e = #[trigger] file_structs(ds, c, lines)[j];
        &&& newline_count(e.context.snippet) == e.line_to - e.line_from + 1
        &&& newline_count(e.context.before_text) == e.line_from - 1
        &&& newline_count(e.context.after_text) == lines.len() - e.line_to
        &&& newline_count(e.context.before_text) + newline_count(e.context.snippet)
            + newline_count(e.context.after_text) == lines.len()
    } by {
        let e = file_structs(ds, c, lines)[j];
        lemma_slice_line_counts(lines, e.line_from, e.line_to);
    }
}

/// Law: extraction is deterministic — the entity streams are a function of
/// the declarations, the base context and the line sequence alone, so two
/// runs over an unchanged file yield the same entities. The executable
/// functions' contracts pin their results to `file_functions` and
/// `file_structs`, so this extends to them.
pub proof fn lemma_extraction_deterministic(
    ds1: Seq<DeclView>,
    c1: TContextView,
    lines1: Seq<Seq<char>>,
    ds2: Seq<DeclView>,
    c2: TContextView,
    lines2: Seq<Seq<char>>,
)
    requires
        ds1 == ds2,
        c1 == c2,
        lines1 == lines2,
    ensures
        file_functions(ds1, c1, lines1) == file_functions(ds2, c2, lines2),
        file_structs(ds1, c1, lines1) == file_structs(ds2, c2, lines2),
{
}

} // verus!
