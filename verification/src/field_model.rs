//! What the code generated from a manifest does with each setting: the
//! field it becomes, whether it is required or has a default, and the checks
//! its value must pass when the user's configuration is read.

use vstd::prelude::*;

use crate::manifest::SchemaType;
use crate::naming::{field_name, snake_to_upper_camel, upper_camel};
use crate::type_path::{field_ident, nest, path_view, schema_path, struct_field_type, TypePath};

verus! {

/// A default value given by the manifest.
#[derive(Debug)]
pub enum DefaultValue {
    Int(i32),
    Text(String),
    Bool(bool),
    Path(String),
}

/// Whether a setting must be given, and what it is when it is not.
#[derive(Debug)]
pub enum FieldDefault {
    /// No default: the setting is required.
    Required,
    /// The type's own default (an empty list or map).
    DefaultTrait,
    /// The default value from the manifest.
    Custom(DefaultValue),
}

/// The check that a setting's value must pass.
#[derive(Debug)]
pub enum FieldCheck {
    Unchecked,
    /// An integer from the first to the second bound, both included.
    IntRange(i32, i32),
    /// A text whose length (in bytes) is within the bounds, both included.
    Length(u32, u32),
    /// A path whose extension is one of these.
    Extension(Vec<String>),
    /// A list with at least this many items, each passing the check.
    Items(u32, Box<FieldCheck>),
    /// A map with at least this many entries, each value passing the check.
    Values(u32, Box<FieldCheck>),
}

/// A field of a generated struct.
#[derive(Debug)]
pub struct FieldModel {
    /// The field's identifier, as written (a raw identifier).
    pub ident: String,
    /// The field's type, as the struct sees it.
    pub type_path: TypePath,
    pub default: FieldDefault,
    pub check: FieldCheck,
}

/// A struct generated for a struct setting, or for all of a manifest's
/// settings.
#[derive(Debug)]
pub struct StructModel {
    /// The struct's name, as written (a raw identifier).
    pub name: String,
    /// One field per setting, in the order the settings were given.
    pub fields: Vec<FieldModel>,
}

/// [`DefaultValue`] with its texts as characters.
pub enum DefaultValueView {
    Int(i32),
    Text(Seq<char>),
    Bool(bool),
    Path(Seq<char>),
}

/// [`FieldDefault`] as a value.
pub enum DefaultView {
    Required,
    DefaultTrait,
    Custom(DefaultValueView),
}

/// [`FieldCheck`] as a value.
pub enum CheckView {
    Unchecked,
    IntRange(i32, i32),
    Length(u32, u32),
    Extension(Seq<Seq<char>>),
    Items(u32, Box<CheckView>),
    Values(u32, Box<CheckView>),
}

pub open spec fn texts(v: Seq<String>) -> Seq<Seq<char>> {
    v.map_values(|s: String| s@)
}

pub open spec fn default_view(d: FieldDefault) -> DefaultView {
    match d {
        FieldDefault::Required => DefaultView::Required,
        FieldDefault::DefaultTrait => DefaultView::DefaultTrait,
        FieldDefault::Custom(v) => DefaultView::Custom(
            match v {
                DefaultValue::Int(i) => DefaultValueView::Int(i),
                DefaultValue::Text(t) => DefaultValueView::Text(t@),
                DefaultValue::Bool(b) => DefaultValueView::Bool(b),
                DefaultValue::Path(p) => DefaultValueView::Path(p@),
            },
        ),
    }
}

pub open spec fn check_view(c: FieldCheck) -> CheckView
    decreases c,
{
    match c {
        FieldCheck::Unchecked => CheckView::Unchecked,
        FieldCheck::IntRange(a, b) => CheckView::IntRange(a, b),
        FieldCheck::Length(a, b) => CheckView::Length(a, b),
        FieldCheck::Extension(v) => CheckView::Extension(texts(v@)),
        FieldCheck::Items(n, inner) => CheckView::Items(n, Box::new(check_view(*inner))),
        FieldCheck::Values(n, inner) => CheckView::Values(n, Box::new(check_view(*inner))),
    }
}

/// The default of a setting of type `t`: the manifest's default value if
/// it gives one, the empty value for a list or a map, and none (the setting
/// is required) otherwise.
pub open spec fn default_of(t: SchemaType) -> DefaultView {
    match t {
        SchemaType::Int(x) => match x.default {
            Some(d) => DefaultView::Custom(DefaultValueView::Int(d)),
            None => DefaultView::Required,
        },
        SchemaType::Text(x) => match x.default {
            Some(d) => DefaultView::Custom(DefaultValueView::Text(d@)),
            None => DefaultView::Required,
        },
        SchemaType::Bool(x) => match x.default {
            Some(d) => DefaultView::Custom(DefaultValueView::Bool(d)),
            None => DefaultView::Required,
        },
        SchemaType::FilePath(x) => match x.default {
            Some(d) => DefaultView::Custom(DefaultValueView::Path(d@)),
            None => DefaultView::Required,
        },
        SchemaType::FolderPath(x) => match x.default {
            Some(d) => DefaultView::Custom(DefaultValueView::Path(d@)),
            None => DefaultView::Required,
        },
        SchemaType::List(_) => DefaultView::DefaultTrait,
        SchemaType::StringMap(_) => DefaultView::DefaultTrait,
        SchemaType::Struct(_) => DefaultView::Required,
    }
}

/// A plain setting (int, text, bool, file path or folder path) is required
/// exactly when the manifest gives it no default, and otherwise defaults to
/// the manifest's value; a list or a map defaults to being empty; a struct
/// is required.
pub proof fn lemma_default_follows_manifest(t: SchemaType)
    ensures
        t matches SchemaType::Int(x) ==> (default_of(t) is Required <==> x.default is None) && (forall|
            v: i32,
        | x.default == Some(v) ==> default_of(t) == DefaultView::Custom(DefaultValueView::Int(v))),
        t matches SchemaType::Text(x) ==> (default_of(t) is Required <==> x.default is None) && (forall|
            v: String,
        | x.default == Some(v) ==> default_of(t) == DefaultView::Custom(DefaultValueView::Text(v@))),
        t matches SchemaType::Bool(x) ==> (default_of(t) is Required <==> x.default is None) && (forall|
            v: bool,
        | x.default == Some(v) ==> default_of(t) == DefaultView::Custom(DefaultValueView::Bool(v))),
        t matches SchemaType::FilePath(x) ==> (default_of(t) is Required <==> x.default is None) && (
        forall|v: String|
            x.default == Some(v) ==> default_of(t) == DefaultView::Custom(DefaultValueView::Path(v@))),
        t matches SchemaType::FolderPath(x) ==> (default_of(t) is Required <==> x.default is None) && (
        forall|v: String|
            x.default == Some(v) ==> default_of(t) == DefaultView::Custom(DefaultValueView::Path(v@))),
        (t is List || t is StringMap) ==> default_of(t) is DefaultTrait,
        t is Struct ==> default_of(t) is Required,
{
}

/// The check on a value of a setting of type `t`: the bounds of an integer
/// or of a text's length, the allowed extensions of a file path (if the
/// manifest lists any), the minimum size of a list or a map with the check
/// on each item or value, and nothing for the other types (a struct's
/// fields are checked by their own fields).
pub open spec fn check_of(t: SchemaType) -> CheckView
    decreases t,
{
    match t {
        SchemaType::Int(x) => CheckView::IntRange(x.min, x.max),
        SchemaType::Text(x) => CheckView::Length(x.min_length, x.max_length),
        SchemaType::Bool(_) => CheckView::Unchecked,
        SchemaType::FilePath(x) => match x.extension {
            Some(exts) => CheckView::Extension(texts(exts@)),
            None => CheckView::Unchecked,
        },
        SchemaType::FolderPath(_) => CheckView::Unchecked,
        SchemaType::List(l) => CheckView::Items(l.min_items, Box::new(check_of(*l.item_type))),
        SchemaType::StringMap(m) => CheckView::Values(m.min_items, Box::new(check_of(*m.value_type))),
        SchemaType::Struct(_) => CheckView::Unchecked,
    }
}

/// The check of a setting follows the manifest: an integer must lie within
/// its bounds, a text's length within its bounds, a file path must have one
/// of the listed extensions when the manifest lists any, and a list or a
/// map must have its minimum number of items, each passing the check of the
/// item type; booleans, folder paths and structs are not checked here.
pub proof fn lemma_check_follows_manifest(t: SchemaType)
    ensures
        t matches SchemaType::Int(x) ==> check_of(t) == CheckView::IntRange(x.min, x.max),
        t matches SchemaType::Text(x) ==> check_of(t) == CheckView::Length(x.min_length, x.max_length),
        t matches SchemaType::FilePath(x) ==> (check_of(t) is Unchecked <==> x.extension is None),
        t matches SchemaType::FilePath(x) ==> forall|exts: Vec<String>|
            x.extension == Some(exts) ==> check_of(t) == CheckView::Extension(texts(exts@)),
        t matches SchemaType::List(l) ==> check_of(t) == CheckView::Items(
            l.min_items,
            Box::new(check_of(*l.item_type)),
        ),
        t matches SchemaType::StringMap(m) ==> check_of(t) == CheckView::Values(
            m.min_items,
            Box::new(check_of(*m.value_type)),
        ),
        (t is Bool || t is FolderPath || t is Struct) ==> check_of(t) is Unchecked,
{
}

/// Whether `t` holds, directly or in the items or values of lists and maps,
/// a list whose items must be unique; no check is generated for that.
pub open spec fn has_unique_list(t: SchemaType) -> bool
    decreases t,
{
    match t {
        SchemaType::List(l) => l.unique || has_unique_list(*l.item_type),
        SchemaType::StringMap(m) => has_unique_list(*m.value_type),
        _ => false,
    }
}

fn copy_text(s: &String) -> (r: String)
    ensures
        r@ == s@,
{
    s.clone()
}

fn copy_texts(v: &Vec<String>) -> (r: Vec<String>)
    ensures
        texts(r@) == texts(v@),
{
    let mut r: Vec<String> = Vec::new();
    let mut i: usize = 0;
    while i < v.len()
        invariant
            i <= v@.len(),
            r@.len() == i,
            forall|j: int| 0 <= j < i ==> #[trigger] r@[j]@ == v@[j]@,
        decreases v@.len() - i,
    {
        r.push(copy_text(&v[i]));
        i = i + 1;
    }
    assert(texts(r@) =~= texts(v@));
    r
}

/// The default of a setting of type `t` (see [`default_of`]).
pub fn field_default(t: &SchemaType) -> (d: FieldDefault)
    ensures
        default_view(d) == default_of(*t),
{
    match t {
        SchemaType::Int(x) => match x.default {
            Some(v) => FieldDefault::Custom(DefaultValue::Int(v)),
            None => FieldDefault::Required,
        },
        SchemaType::Text(x) => match &x.default {
            Some(v) => FieldDefault::Custom(DefaultValue::Text(copy_text(v))),
            None => FieldDefault::Required,
        },
        SchemaType::Bool(x) => match x.default {
            Some(v) => FieldDefault::Custom(DefaultValue::Bool(v)),
            None => FieldDefault::Required,
        },
        SchemaType::FilePath(x) => match &x.default {
            Some(v) => FieldDefault::Custom(DefaultValue::Path(copy_text(v))),
            None => FieldDefault::Required,
        },
        SchemaType::FolderPath(x) => match &x.default {
            Some(v) => FieldDefault::Custom(DefaultValue::Path(copy_text(v))),
            None => FieldDefault::Required,
        },
        SchemaType::List(_) => FieldDefault::DefaultTrait,
        SchemaType::StringMap(_) => FieldDefault::DefaultTrait,
        SchemaType::Struct(_) => FieldDefault::Required,
    }
}

/// The check on a value of a setting of type `t` (see [`check_of`]).
pub fn field_check(t: &SchemaType) -> (c: FieldCheck)
    requires
        !has_unique_list(*t),
    ensures
        check_view(c) == check_of(*t),
    decreases t,
{
    match t {
        SchemaType::Int(x) => FieldCheck::IntRange(x.min, x.max),
        SchemaType::Text(x) => FieldCheck::Length(x.min_length, x.max_length),
        SchemaType::Bool(_) => FieldCheck::Unchecked,
        SchemaType::FilePath(x) => match &x.extension {
            Some(exts) => FieldCheck::Extension(copy_texts(exts)),
            None => FieldCheck::Unchecked,
        },
        SchemaType::FolderPath(_) => FieldCheck::Unchecked,
        SchemaType::List(l) => FieldCheck::Items(l.min_items, Box::new(field_check(&*l.item_type))),
        SchemaType::StringMap(m) => FieldCheck::Values(
            m.min_items,
            Box::new(field_check(&*m.value_type)),
        ),
        SchemaType::Struct(_) => FieldCheck::Unchecked,
    }
}

/// The field generated for the setting `key` of type `t`: its identifier
/// (the key with `-` replaced by `_`), its type as the struct sees it, its
/// default and its check.
pub fn schema_field(t: &SchemaType, key: &str) -> (f: FieldModel)
    requires
        !has_unique_list(*t),
    ensures
        f.ident@ == field_ident(key@),
        path_view(f.type_path) == nest(schema_path(*t, field_ident(key@)), field_ident(key@)),
        default_view(f.default) == default_of(*t),
        check_view(f.check) == check_of(*t),
{
    let mut ident = "r#".to_owned();
    ident.append(field_name(key).as_str());
    FieldModel {
        ident,
        type_path: struct_field_type(t, key),
        default: field_default(t),
        check: field_check(t),
    }
}

/// `f` is the field generated for the setting `key` of type `t`.
pub open spec fn field_matches(f: FieldModel, key: Seq<char>, t: SchemaType) -> bool {
    &&& f.ident@ == field_ident(key)
    &&& path_view(f.type_path) == nest(schema_path(t, field_ident(key)), field_ident(key))
    &&& default_view(f.default) == default_of(t)
    &&& check_view(f.check) == check_of(t)
}

/// The struct generated for a struct setting whose key is `key` (or for all
/// settings, with the key `config`), given its fields as (key, type) pairs:
/// named by the key in UpperCamelCase, with one field per setting in the
/// order given. The struct itself is required and unchecked as a field
/// (see [`default_of`] and [`check_of`]).
pub fn struct_model(key: &str, fields: &Vec<(String, SchemaType)>) -> (s: StructModel)
    requires
        forall|i: int| 0 <= i < fields@.len() ==> !has_unique_list(#[trigger] fields@[i].1),
    ensures
        s.name@ == "r#"@ + upper_camel(key@),
        s.fields@.len() == fields@.len(),
        forall|i: int|
            0 <= i < fields@.len() ==> field_matches(#[trigger] s.fields@[i], fields@[i].0@, fields@[i].1),
{
    let mut name = "r#".to_owned();
    name.append(snake_to_upper_camel(key).as_str());
    let mut out: Vec<FieldModel> = Vec::new();
    let mut i: usize = 0;
    while i < fields.len()
        invariant
            i <= fields@.len(),
            out@.len() == i,
            forall|j: int| 0 <= j < fields@.len() ==> !has_unique_list(#[trigger] fields@[j].1),
            forall|j: int| 0 <= j < i ==> field_matches(#[trigger] out@[j], fields@[j].0@, fields@[j].1),
        decreases fields@.len() - i,
    {
        let entry = &fields[i];
        assert(!has_unique_list(fields@[i as int].1));
        let f = schema_field(&entry.1, entry.0.as_str());
        out.push(f);
        i = i + 1;
    }
    StructModel { name, fields: out }
}

} // verus!
