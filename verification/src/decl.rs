//! The declaration tree: functions, structs and modules of the library for
//! which a foreign surface is generated, with the mathematical view of each.

use vstd::prelude::*;

verus! {

/// A declaration's own visibility marker.
#[derive(Clone, Copy, Debug, PartialEq, Eq, Structural)]
pub enum Visibility {
    /// Marked public without restriction.
    Public,
    /// Any other marker, or none.
    Private,
}

/// A source type, as far as the boundary mapping reads it.
#[derive(Debug)]
pub enum SourceType {
    /// A path type, known by the identifier of its first segment.
    Named(String),
    /// A reference to another type.
    Reference(Box<SourceType>),
    /// Every other form of type: it has no name to go by.
    Anonymous,
}

/// The view of a [`SourceType`].
pub enum TypeView {
    Named(Seq<char>),
    Reference(Box<TypeView>),
    Anonymous,
}

/// The view of a source type, by recursion on its form.
pub open spec fn type_view(ty: SourceType) -> TypeView
    decreases ty,
{
    match ty {
        SourceType::Named(head) => TypeView::Named(head@),
        SourceType::Reference(inner) => TypeView::Reference(Box::new(type_view(*inner))),
        SourceType::Anonymous => TypeView::Anonymous,
    }
}

impl View for SourceType {
    type V = TypeView;

    open spec fn view(&self) -> TypeView {
        type_view(*self)
    }
}

/// Copies a source type.
pub fn copy_type(ty: &SourceType) -> (out: SourceType)
    ensures
        out@ == ty@,
    decreases ty,
{
    match ty {
        SourceType::Named(head) => SourceType::Named(head.clone()),
        SourceType::Reference(inner) => SourceType::Reference(Box::new(copy_type(inner))),
        SourceType::Anonymous => SourceType::Anonymous,
    }
}

/// A typed parameter of a function.
#[derive(Debug)]
pub struct Param {
    pub name: String,
    pub ty: SourceType,
}

/// The view of a [`Param`].
pub struct ParamView {
    pub name: Seq<char>,
    pub ty: TypeView,
}

impl View for Param {
    type V = ParamView;

    open spec fn view(&self) -> ParamView {
        ParamView { name: self.name@, ty: self.ty@ }
    }
}

/// A free function: its name, its typed parameters in order, and its return
/// type, if it has one.
#[derive(Debug)]
pub struct FunctionDecl {
    pub name: String,
    pub visibility: Visibility,
    pub params: Vec<Param>,
    pub output: Option<SourceType>,
}

/// The view of a [`FunctionDecl`].
pub struct FunctionView {
    pub name: Seq<char>,
    pub visibility: Visibility,
    pub params: Seq<ParamView>,
    pub output: Option<TypeView>,
}

impl View for FunctionDecl {
    type V = FunctionView;

    open spec fn view(&self) -> FunctionView {
        FunctionView {
            name: self.name@,
            visibility: self.visibility,
            params: self.params@.map_values(|p: Param| p@),
            output: match self.output {
                Some(ty) => Some(ty@),
                None => None,
            },
        }
    }
}

/// A field of a struct. A positional field has no name.
#[derive(Debug)]
pub struct FieldDecl {
    pub name: Option<String>,
    pub ty: SourceType,
}

/// The view of a [`FieldDecl`].
pub struct FieldView {
    pub name: Option<Seq<char>>,
    pub ty: TypeView,
}

impl View for FieldDecl {
    type V = FieldView;

    open spec fn view(&self) -> FieldView {
        FieldView {
            name: match self.name {
                Some(name) => Some(name@),
                None => None,
            },
            ty: self.ty@,
        }
    }
}

/// A plain data struct: its name and its fields in order.
#[derive(Debug)]
pub struct StructDecl {
    pub name: String,
    pub visibility: Visibility,
    pub fields: Vec<FieldDecl>,
}

/// The view of a [`StructDecl`].
pub struct StructView {
    pub name: Seq<char>,
    pub visibility: Visibility,
    pub fields: Seq<FieldView>,
}

impl View for StructDecl {
    type V = StructView;

    open spec fn view(&self) -> StructView {
        StructView {
            name: self.name@,
            visibility: self.visibility,
            fields: self.fields@.map_values(|f: FieldDecl| f@),
        }
    }
}

/// A declaration of the library.
#[derive(Debug)]
pub enum Declaration {
    Function(FunctionDecl),
    Struct(StructDecl),
    Module(ModuleDecl),
}

/// A module: its name, its own visibility marker and its body.
#[derive(Debug)]
pub struct ModuleDecl {
    pub name: String,
    pub visibility: Visibility,
    pub body: ModuleBody,
}

/// What a module declaration holds between its braces, or what is known of
/// the source unit that backs it where it has none.
#[derive(Debug)]
pub enum ModuleBody {
    /// The member declarations stand at the module's declaration.
    Inline(Vec<Declaration>),
    /// No body: nothing is known yet of a backing source unit.
    Unprobed,
    /// No body, and no unit under the first naming convention; the second
    /// has not been looked at.
    FlatAbsent,
    /// No body, and no unit under either naming convention.
    Absent,
    /// No body; a backing unit exists and could not be read.
    Unreadable,
    /// No body; a backing unit was read and is no list of declarations.
    Unparsable,
    /// No body; the backing unit held these declarations. `nested` says that
    /// it was found under the second naming convention.
    Loaded { nested: bool, items: Vec<Declaration> },
}

/// The view of a [`Declaration`].
pub enum DeclView {
    Function(FunctionView),
    Struct(StructView),
    Module(ModuleView),
}

/// The view of a [`ModuleDecl`].
pub struct ModuleView {
    pub name: Seq<char>,
    pub visibility: Visibility,
    pub body: BodyView,
}

/// The view of a [`ModuleBody`].
pub enum BodyView {
    Inline(Seq<DeclView>),
    Unprobed,
    FlatAbsent,
    Absent,
    Unreadable,
    Unparsable,
    Loaded { nested: bool, items: Seq<DeclView> },
}

/// The view of a declaration, by recursion on the tree.
pub open spec fn decl_view(decl: Declaration) -> DeclView
    decreases decl,
{
    match decl {
        Declaration::Function(f) => DeclView::Function(f@),
        Declaration::Struct(s) => DeclView::Struct(s@),
        Declaration::Module(m) => DeclView::Module(
            ModuleView { name: m.name@, visibility: m.visibility, body: body_view(m.body) },
        ),
    }
}

/// The view of a module's body.
pub open spec fn body_view(body: ModuleBody) -> BodyView
    decreases body,
{
    match body {
        ModuleBody::Inline(items) => BodyView::Inline(decl_views(items@)),
        ModuleBody::Unprobed => BodyView::Unprobed,
        ModuleBody::FlatAbsent => BodyView::FlatAbsent,
        ModuleBody::Absent => BodyView::Absent,
        ModuleBody::Unreadable => BodyView::Unreadable,
        ModuleBody::Unparsable => BodyView::Unparsable,
        ModuleBody::Loaded { nested, items } => BodyView::Loaded {
            nested,
            items: decl_views(items@),
        },
    }
}

/// The views of a list of declarations, in order.
pub open spec fn decl_views(items: Seq<Declaration>) -> Seq<DeclView>
    decreases items,
{
    Seq::new(
        items.len(),
        |i: int|
            if 0 <= i < items.len() {
                decl_view(items[i])
            } else {
                arbitrary()
            },
    )
}

impl View for ModuleDecl {
    type V = ModuleView;

    open spec fn view(&self) -> ModuleView {
        ModuleView { name: self.name@, visibility: self.visibility, body: body_view(self.body) }
    }
}

impl View for Declaration {
    type V = DeclView;

    open spec fn view(&self) -> DeclView {
        decl_view(*self)
    }
}

} // verus!
