//! What the `codegen` crate's builders hold, as plain values, and the calls into them.
//!
//! A builder of `codegen` is opaque here. Each is given a name for what it holds
//! (`scope_model`, `struct_model`, ...), and each call that the generator makes has a
//! wrapper that says what the call does to it, as the crate's source shows. The text
//! that a scope prints is named `scope_text` of what it holds.
use vstd::prelude::*;

verus! {

#[verifier::external_type_specification]
#[verifier::external_body]
pub struct ExScope(codegen::Scope);

#[verifier::external_type_specification]
#[verifier::external_body]
pub struct ExStruct(codegen::Struct);

#[verifier::external_type_specification]
#[verifier::external_body]
pub struct ExField(codegen::Field);

#[verifier::external_type_specification]
#[verifier::external_body]
pub struct ExEnum(codegen::Enum);

#[verifier::external_type_specification]
#[verifier::external_body]
pub struct ExVariant(codegen::Variant);

#[verifier::external_type_specification]
#[verifier::external_body]
pub struct ExImpl(codegen::Impl);

#[verifier::external_type_specification]
#[verifier::external_body]
pub struct ExFunction(codegen::Function);

/// The fields of a struct or of a variant: none, unnamed ones by their types, or named ones.
pub enum FieldsModel {
    Empty,
    Tuple(Seq<Seq<char>>),
    Named(Seq<FieldModel>),
}

impl FieldsModel {
    /// The fields with one more unnamed field of type `ty`.
    pub open spec fn add_tuple(self, ty: Seq<char>) -> FieldsModel {
        match self {
            FieldsModel::Tuple(t) => FieldsModel::Tuple(t.push(ty)),
            _ => FieldsModel::Tuple(seq![ty]),
        }
    }

    /// The fields with one more named field `f`.
    pub open spec fn add_named(self, f: FieldModel) -> FieldsModel {
        match self {
            FieldsModel::Named(n) => FieldsModel::Named(n.push(f)),
            _ => FieldsModel::Named(seq![f]),
        }
    }
}

/// A named field: its name, its type, its documentation (empty for none), its annotations
/// and its visibility.
pub struct FieldModel {
    pub name: Seq<char>,
    pub ty: Seq<char>,
    pub doc: Seq<char>,
    pub annotations: Seq<Seq<char>>,
    pub vis: Option<Seq<char>>,
}

/// The head of the definition of a type: its name, visibility, documentation and derives.
/// `plain` says that it has none of the generics, bounds or attributes that the generator
/// never sets.
pub struct TypeDefModel {
    pub name: Seq<char>,
    pub vis: Option<Seq<char>>,
    pub doc: Option<Seq<char>>,
    pub derives: Seq<Seq<char>>,
    pub plain: bool,
}

/// A struct definition.
pub struct StructModel {
    pub def: TypeDefModel,
    pub fields: FieldsModel,
}

/// A variant of an enum: its name, documentation (empty for none), annotations and fields.
/// `plain` says that it has no discriminant.
pub struct VariantModel {
    pub name: Seq<char>,
    pub doc: Seq<char>,
    pub annotations: Seq<Seq<char>>,
    pub fields: FieldsModel,
    pub plain: bool,
}

/// An enum definition.
pub struct EnumModel {
    pub def: TypeDefModel,
    pub variants: Seq<VariantModel>,
}

/// A function: its name and the lines of its body. `plain` says that it has nothing else
/// (no arguments, return type, documentation or attributes).
pub struct FunctionModel {
    pub name: Seq<char>,
    pub lines: Seq<Seq<char>>,
    pub plain: bool,
}

/// An `impl` block: the type, the trait if any, and the functions. `plain` says that it has
/// no generics, bounds, associated items or macros.
pub struct ImplModel {
    pub target: Seq<char>,
    pub trait_name: Option<Seq<char>>,
    pub functions: Seq<FunctionModel>,
    pub plain: bool,
}

/// An item of a scope.
pub enum ItemModel {
    Struct(StructModel),
    Enum(EnumModel),
    Impl(ImplModel),
}

/// What a scope holds: its items, in order. `plain` says that it has no documentation and no
/// imports.
pub struct ScopeModel {
    pub items: Seq<ItemModel>,
    pub plain: bool,
}

/// Whether an item has none of the parts that the generator never sets.
pub open spec fn item_plain(i: ItemModel) -> bool {
    match i {
        ItemModel::Struct(s) => s.def.plain,
        ItemModel::Enum(e) => e.def.plain && forall|j: int| 0 <= j < e.variants.len() ==> (#[trigger] e.variants[j]).plain,
        ItemModel::Impl(m) => m.plain && forall|j: int| 0 <= j < m.functions.len() ==> (#[trigger] m.functions[j]).plain,
    }
}

/// Whether every item has none of the parts that the generator never sets.
pub open spec fn items_plain(items: Seq<ItemModel>) -> bool {
    forall|i: int| 0 <= i < items.len() ==> item_plain(#[trigger] items[i])
}

/// What a `codegen::Scope` holds.
pub uninterp spec fn scope_model(s: codegen::Scope) -> ScopeModel;

/// What a `codegen::Struct` holds.
pub uninterp spec fn struct_model(s: codegen::Struct) -> StructModel;

/// What a `codegen::Field` holds.
pub uninterp spec fn field_model(f: codegen::Field) -> FieldModel;

/// What a `codegen::Enum` holds.
pub uninterp spec fn enum_model(e: codegen::Enum) -> EnumModel;

/// What a `codegen::Variant` holds.
pub uninterp spec fn variant_model(v: codegen::Variant) -> VariantModel;

/// What a `codegen::Impl` holds.
pub uninterp spec fn impl_model(i: codegen::Impl) -> ImplModel;

/// What a `codegen::Function` holds.
pub uninterp spec fn function_model(f: codegen::Function) -> FunctionModel;

/// The text that `codegen::Scope::to_string` prints for a scope that holds `items` and
/// nothing else.
pub uninterp spec fn scope_text(items: Seq<ItemModel>) -> Seq<char>;

/// The head of a type definition named `name` that has nothing set yet.
pub open spec fn new_type_def(name: Seq<char>) -> TypeDefModel {
    TypeDefModel { name, vis: None, doc: None, derives: Seq::empty(), plain: true }
}

impl TypeDefModel {
    pub open spec fn with_vis(self, vis: Seq<char>) -> TypeDefModel {
        TypeDefModel { vis: Some(vis), ..self }
    }

    pub open spec fn with_doc(self, doc: Seq<char>) -> TypeDefModel {
        TypeDefModel { doc: Some(doc), ..self }
    }

    pub open spec fn with_derive(self, d: Seq<char>) -> TypeDefModel {
        TypeDefModel { derives: self.derives.push(d), ..self }
    }
}

/// Calls `codegen::Scope::new`: a scope with no documentation, imports or items.
#[verifier::external_body]
pub(crate) fn new_scope() -> (r: codegen::Scope)
    ensures
        scope_model(r) == (ScopeModel { items: Seq::empty(), plain: true }),
{
    codegen::Scope::new()
}

/// Calls `codegen::Scope::push_struct`, which adds the struct as the last item.
#[verifier::external_body]
pub(crate) fn scope_push_struct(scope: &mut codegen::Scope, item: codegen::Struct)
    ensures
        scope_model(*final(scope)) == (ScopeModel {
            items: scope_model(*old(scope)).items.push(ItemModel::Struct(struct_model(item))),
            ..scope_model(*old(scope))
        }),
{
    scope.push_struct(item);
}

/// Calls `codegen::Scope::push_enum`, which adds the enum as the last item.
#[verifier::external_body]
pub(crate) fn scope_push_enum(scope: &mut codegen::Scope, item: codegen::Enum)
    ensures
        scope_model(*final(scope)) == (ScopeModel {
            items: scope_model(*old(scope)).items.push(ItemModel::Enum(enum_model(item))),
            ..scope_model(*old(scope))
        }),
{
    scope.push_enum(item);
}

/// Calls `codegen::Scope::push_impl`, which adds the `impl` block as the last item.
#[verifier::external_body]
pub(crate) fn scope_push_impl(scope: &mut codegen::Scope, item: codegen::Impl)
    ensures
        scope_model(*final(scope)) == (ScopeModel {
            items: scope_model(*old(scope)).items.push(ItemModel::Impl(impl_model(item))),
            ..scope_model(*old(scope))
        }),
{
    scope.push_impl(item);
}

/// Calls `codegen::Scope::to_string`, whose text is named `scope_text` of the items of a scope that
/// holds nothing else.
#[verifier::external_body]
pub(crate) fn scope_to_string(scope: &codegen::Scope) -> (r: String)
    requires
        scope_model(*scope).plain,
        items_plain(scope_model(*scope).items),
    ensures
        r@ == scope_text(scope_model(*scope).items),
{
    scope.to_string()
}

/// Calls `codegen::Struct::new`: a struct named `name` with nothing else set and no fields.
#[verifier::external_body]
pub(crate) fn new_struct(name: &str) -> (r: codegen::Struct)
    ensures
        struct_model(r) == (StructModel { def: new_type_def(name@), fields: FieldsModel::Empty }),
{
    codegen::Struct::new(name)
}

/// Calls `codegen::Struct::doc`, which sets the documentation.
#[verifier::external_body]
pub(crate) fn struct_doc(s: &mut codegen::Struct, doc: &str)
    ensures
        struct_model(*final(s)) == (StructModel { def: struct_model(*old(s)).def.with_doc(doc@), ..struct_model(*old(s)) }),
{
    s.doc(doc);
}

/// Calls `codegen::Struct::vis`, which sets the visibility.
#[verifier::external_body]
pub(crate) fn struct_vis(s: &mut codegen::Struct, vis: &str)
    ensures
        struct_model(*final(s)) == (StructModel { def: struct_model(*old(s)).def.with_vis(vis@), ..struct_model(*old(s)) }),
{
    s.vis(vis);
}

/// Calls `codegen::Struct::derive`, which adds a derive after the others.
#[verifier::external_body]
pub(crate) fn struct_derive(s: &mut codegen::Struct, name: &str)
    ensures
        struct_model(*final(s)) == (StructModel {
            def: struct_model(*old(s)).def.with_derive(name@),
            ..struct_model(*old(s))
        }),
{
    s.derive(name);
}

/// Calls `codegen::Struct::tuple_field`, which adds an unnamed field of type `ty`; it panics on a
/// struct with named fields.
#[verifier::external_body]
pub(crate) fn struct_tuple_field(s: &mut codegen::Struct, ty: &str)
    requires
        !(struct_model(*old(s)).fields is Named),
    ensures
        struct_model(*final(s)) == (StructModel {
            fields: struct_model(*old(s)).fields.add_tuple(ty@),
            ..struct_model(*old(s))
        }),
{
    s.tuple_field(ty);
}

/// Calls `codegen::Struct::push_field`, which adds the named field `f`; it panics on a struct with
/// unnamed fields.
#[verifier::external_body]
pub(crate) fn struct_push_field(s: &mut codegen::Struct, f: codegen::Field)
    requires
        !(struct_model(*old(s)).fields is Tuple),
    ensures
        struct_model(*final(s)) == (StructModel {
            fields: struct_model(*old(s)).fields.add_named(field_model(f)),
            ..struct_model(*old(s))
        }),
{
    s.push_field(f);
}

/// Calls `codegen::Field::new`: a field named `name` of type `ty` with nothing else set.
#[verifier::external_body]
pub(crate) fn new_field(name: &str, ty: &str) -> (r: codegen::Field)
    ensures
        field_model(r) == (FieldModel { name: name@, ty: ty@, doc: Seq::empty(), annotations: Seq::empty(), vis: None }),
{
    codegen::Field::new(name, ty)
}

/// Calls `codegen::Field::doc`, which sets the documentation.
#[verifier::external_body]
pub(crate) fn field_doc(f: &mut codegen::Field, doc: &str)
    ensures
        field_model(*final(f)) == (FieldModel { doc: doc@, ..field_model(*old(f)) }),
{
    f.doc(doc);
}

/// Calls `codegen::Field::vis`, which sets the visibility.
#[verifier::external_body]
pub(crate) fn field_vis(f: &mut codegen::Field, vis: &str)
    ensures
        field_model(*final(f)) == (FieldModel { vis: Some(vis@), ..field_model(*old(f)) }),
{
    f.vis(vis);
}

/// Calls `codegen::Enum::new`: an enum named `name` with nothing else set and no variants.
#[verifier::external_body]
pub(crate) fn new_enum(name: &str) -> (r: codegen::Enum)
    ensures
        enum_model(r) == (EnumModel { def: new_type_def(name@), variants: Seq::empty() }),
{
    codegen::Enum::new(name)
}

/// Calls `codegen::Enum::doc`, which sets the documentation.
#[verifier::external_body]
pub(crate) fn enum_doc(e: &mut codegen::Enum, doc: &str)
    ensures
        enum_model(*final(e)) == (EnumModel { def: enum_model(*old(e)).def.with_doc(doc@), ..enum_model(*old(e)) }),
{
    e.doc(doc);
}

/// Calls `codegen::Enum::vis`, which sets the visibility.
#[verifier::external_body]
pub(crate) fn enum_vis(e: &mut codegen::Enum, vis: &str)
    ensures
        enum_model(*final(e)) == (EnumModel { def: enum_model(*old(e)).def.with_vis(vis@), ..enum_model(*old(e)) }),
{
    e.vis(vis);
}

/// Calls `codegen::Enum::derive`, which adds a derive after the others.
#[verifier::external_body]
pub(crate) fn enum_derive(e: &mut codegen::Enum, name: &str)
    ensures
        enum_model(*final(e)) == (EnumModel { def: enum_model(*old(e)).def.with_derive(name@), ..enum_model(*old(e)) }),
{
    e.derive(name);
}

/// Calls `codegen::Enum::push_variant`, which adds the variant after the others.
#[verifier::external_body]
pub(crate) fn enum_push_variant(e: &mut codegen::Enum, v: codegen::Variant)
    ensures
        enum_model(*final(e)) == (EnumModel {
            variants: enum_model(*old(e)).variants.push(variant_model(v)),
            ..enum_model(*old(e))
        }),
{
    e.push_variant(v);
}

/// Calls `codegen::Variant::new`: a variant named `name` with nothing else set and no fields.
#[verifier::external_body]
pub(crate) fn new_variant(name: &str) -> (r: codegen::Variant)
    ensures
        variant_model(r) == (VariantModel {
            name: name@,
            doc: Seq::empty(),
            annotations: Seq::empty(),
            fields: FieldsModel::Empty,
            plain: true,
        }),
{
    codegen::Variant::new(name)
}

/// Calls `codegen::Variant::annotation`, which adds an annotation after the others.
#[verifier::external_body]
pub(crate) fn variant_annotation(v: &mut codegen::Variant, annotation: &str)
    ensures
        variant_model(*final(v)) == (VariantModel {
            annotations: variant_model(*old(v)).annotations.push(annotation@),
            ..variant_model(*old(v))
        }),
{
    v.annotation(annotation);
}

/// Calls `codegen::Variant::tuple`, which adds an unnamed field of type `ty`; it panics on a variant
/// with named fields.
#[verifier::external_body]
pub(crate) fn variant_tuple(v: &mut codegen::Variant, ty: &str)
    requires
        !(variant_model(*old(v)).fields is Named),
    ensures
        variant_model(*final(v)) == (VariantModel {
            fields: variant_model(*old(v)).fields.add_tuple(ty@),
            ..variant_model(*old(v))
        }),
{
    v.tuple(ty);
}

/// Calls `codegen::Impl::new`: an `impl` block for `target` with no trait and no functions.
#[verifier::external_body]
pub(crate) fn new_impl(target: &str) -> (r: codegen::Impl)
    ensures
        impl_model(r) == (ImplModel { target: target@, trait_name: None, functions: Seq::empty(), plain: true }),
{
    codegen::Impl::new(target)
}

/// Calls `codegen::Impl::impl_trait`, which sets the trait.
#[verifier::external_body]
pub(crate) fn impl_trait(i: &mut codegen::Impl, name: &str)
    ensures
        impl_model(*final(i)) == (ImplModel { trait_name: Some(name@), ..impl_model(*old(i)) }),
{
    i.impl_trait(name);
}

/// Calls `codegen::Impl::push_fn`, which adds the function after the others.
#[verifier::external_body]
pub(crate) fn impl_push_fn(i: &mut codegen::Impl, f: codegen::Function)
    ensures
        impl_model(*final(i)) == (ImplModel {
            functions: impl_model(*old(i)).functions.push(function_model(f)),
            ..impl_model(*old(i))
        }),
{
    i.push_fn(f);
}

/// Calls `codegen::Function::new`: a function named `name` with nothing else set and an empty body.
#[verifier::external_body]
pub(crate) fn new_function(name: &str) -> (r: codegen::Function)
    ensures
        function_model(r) == (FunctionModel { name: name@, lines: Seq::empty(), plain: true }),
{
    codegen::Function::new(name)
}

/// Calls `codegen::Function::line`, which adds a line after the others to the body.
#[verifier::external_body]
pub(crate) fn function_line(f: &mut codegen::Function, line: &str)
    ensures
        function_model(*final(f)) == (FunctionModel { lines: function_model(*old(f)).lines.push(line@), ..function_model(*old(f)) }),
{
    f.line(line);
}

} // verus!
