//! The Rust types that the code generated from a manifest gives to the
//! settings: absolute paths for the standard types, and paths relative to
//! the generated module for the structs it defines, with generic arguments.

use vstd::prelude::*;

use crate::manifest::SchemaType;
use crate::naming::{field_name, hyphens_to_underscores, snake_to_upper_camel, strip_raw, unraw, upper_camel};

verus! {

/// Whether a path starts from the crate root (`::core::...`) or from the
/// module it is written in (`self::...`).
#[derive(Debug, Clone, Copy, PartialEq, Eq, Structural)]
pub enum TypePathKind {
    Absolute,
    Relative,
}

/// A type path: its base path and its generic arguments.
#[derive(Debug)]
pub struct TypePath {
    pub kind: TypePathKind,
    pub base: String,
    pub generics: Vec<TypePath>,
}

/// [`TypePath`] as a value: kind, base path, generic arguments.
pub enum PathView {
    Node(TypePathKind, Seq<char>, Seq<PathView>),
}

/// The value of a type path.
pub open spec fn path_view(p: TypePath) -> PathView
    decreases p,
{
    PathView::Node(p.kind, p.base@, paths_view(p.generics@))
}

/// The values of type paths, in order.
pub open spec fn paths_view(ps: Seq<TypePath>) -> Seq<PathView>
    decreases ps,
{
    if ps.len() == 0 {
        Seq::empty()
    } else {
        paths_view(ps.drop_last()).push(path_view(ps.last()))
    }
}

/// The path moved into `module`: every relative base, at any depth, gets
/// `module::` in front; absolute ones are unchanged.
pub open spec fn nest(p: PathView, module: Seq<char>) -> PathView
    decreases p,
{
    match p {
        PathView::Node(kind, base, generics) => PathView::Node(
            kind,
            match kind {
                TypePathKind::Absolute => base,
                TypePathKind::Relative => module + "::"@ + base,
            },
            nest_all(generics, module),
        ),
    }
}

/// Every path moved into `module`.
pub open spec fn nest_all(ps: Seq<PathView>, module: Seq<char>) -> Seq<PathView>
    decreases ps,
{
    if ps.len() == 0 {
        Seq::empty()
    } else {
        nest_all(ps.drop_last(), module).push(nest(ps.last(), module))
    }
}

/// The text of a path as generated code writes it: a relative path starts
/// with `self::`, and generic arguments follow in angle brackets, separated
/// by `, `.
pub open spec fn render(p: PathView) -> Seq<char>
    decreases p,
{
    match p {
        PathView::Node(kind, base, generics) => (match kind {
            TypePathKind::Absolute => base,
            TypePathKind::Relative => "self::"@ + base,
        }) + if generics.len() == 0 {
            Seq::empty()
        } else {
            "<"@ + render_all(generics) + ">"@
        },
    }
}

/// The texts of paths separated by `, `.
pub open spec fn render_all(ps: Seq<PathView>) -> Seq<char>
    decreases ps,
{
    if ps.len() == 0 {
        Seq::empty()
    } else if ps.len() == 1 {
        render(ps[0])
    } else {
        render_all(ps.drop_last()) + ", "@ + render(ps.last())
    }
}

proof fn lemma_paths_view_push(ps: Seq<TypePath>, p: TypePath)
    ensures
        paths_view(ps.push(p)) == paths_view(ps).push(path_view(p)),
{
    assert(ps.push(p).drop_last() =~= ps);
}

proof fn lemma_paths_view_len(ps: Seq<TypePath>)
    ensures
        paths_view(ps).len() == ps.len(),
        forall|i: int| 0 <= i < ps.len() ==> #[trigger] paths_view(ps)[i] == path_view(ps[i]),
    decreases ps.len(),
{
    if ps.len() > 0 {
        lemma_paths_view_len(ps.drop_last());
        assert forall|i: int| 0 <= i < ps.len() implies #[trigger] paths_view(ps)[i] == path_view(
            ps[i],
        ) by {
            if i < ps.len() - 1 {
                assert(ps.drop_last()[i] == ps[i]);
            }
        }
    }
}

impl TypePath {
    /// A path relative to the module it is written in.
    pub fn relative(base: String) -> (p: Self)
        ensures
            path_view(p) == PathView::Node(TypePathKind::Relative, base@, Seq::empty()),
    {
        let p = TypePath { kind: TypePathKind::Relative, base, generics: Vec::new() };
        assert(paths_view(p.generics@) =~= Seq::<PathView>::empty());
        p
    }

    /// A path from the crate root.
    pub fn absolute(base: String) -> (p: Self)
        ensures
            path_view(p) == PathView::Node(TypePathKind::Absolute, base@, Seq::empty()),
    {
        let p = TypePath { kind: TypePathKind::Absolute, base, generics: Vec::new() };
        assert(paths_view(p.generics@) =~= Seq::<PathView>::empty());
        p
    }

    /// Adds a generic argument after the existing ones.
    pub fn with_generic(self, generic: TypePath) -> (p: Self)
        ensures
            path_view(p) == (match path_view(self) {
                PathView::Node(kind, base, generics) => PathView::Node(
                    kind,
                    base,
                    generics.push(path_view(generic)),
                ),
            }),
    {
        let TypePath { kind, base, generics } = self;
        let ghost before = generics@;
        let mut generics = generics;
        generics.push(generic);
        proof {
            lemma_paths_view_push(before, generic);
        }
        TypePath { kind, base, generics }
    }

    /// Moves this path into `module`, as it is seen from the module that
    /// contains `module`.
    pub fn nest_within(self, module: &str) -> (p: Self)
        ensures
            path_view(p) == nest(path_view(self), module@),
        decreases self,
    {
        let ghost whole = self;
        let TypePath { kind, base, generics } = self;
        let ghost gs = generics@;
        let base = match kind {
            TypePathKind::Absolute => base,
            TypePathKind::Relative => {
                let mut b = module.to_owned();
                b.append("::");
                b.append(base.as_str());
                b
            },
        };
        let mut nested: Vec<TypePath> = Vec::new();
        let mut rest = generics;
        let mut taken: Vec<TypePath> = Vec::new();
        // Take the arguments from the back, then nest them front to back.
        while rest.len() > 0
            invariant
                rest@ + taken@.reverse() == gs,
            decreases rest@.len(),
        {
            let ghost before_rest = rest@;
            let ghost before_taken = taken@;
            let g = rest.pop().unwrap();
            taken.push(g);
            proof {
                assert(before_rest == rest@.push(g));
                assert(taken@.reverse() =~= seq![g] + before_taken.reverse());
                assert(rest@ + taken@.reverse() =~= before_rest + before_taken.reverse());
            }
        }
        assert(taken@.reverse() =~= gs);
        let n = taken.len();
        let mut i: usize = 0;
        proof {
            lemma_paths_view_len(gs);
        }
        while taken.len() > 0
            invariant
                i + taken@.len() == n,
                n == gs.len(),
                forall|j: int| 0 <= j < taken@.len() ==> #[trigger] taken@[j] == gs[n - 1 - j],
                nested@.len() == i,
                forall|j: int| 0 <= j < i ==> #[trigger] path_view(nested@[j]) == nest(path_view(gs[j]), module@),
                whole.generics@ == gs,
                whole == self,
                paths_view(gs).len() == gs.len(),
            decreases taken@.len(),
        {
            let ghost before = taken@;
            let g = taken.pop().unwrap();
            proof {
                assert(g == before[before.len() - 1]);
                assert(g == gs[i as int]);
                assert(decreases_to!(whole => whole.generics));
                assert(decreases_to!(whole.generics => whole.generics@));
                assert(decreases_to!(whole.generics@ => whole.generics@[i as int]));
                assert(decreases_to!(whole => g));
            }
            let ng = g.nest_within(module);
            nested.push(ng);
            i = i + 1;
        }
        let p = TypePath { kind, base, generics: nested };
        proof {
            lemma_paths_view_len(nested@);
            lemma_nest_all_at(paths_view(gs), module@);
            assert(paths_view(nested@) =~= nest_all(paths_view(gs), module@));
        }
        p
    }
}

impl TypePath {
    /// The text of this path in generated code (see [`render`]).
    pub fn to_text(&self) -> (r: String)
        ensures
            r@ == render(path_view(*self)),
        decreases self,
    {
        let mut r = match self.kind {
            TypePathKind::Absolute => self.base.clone(),
            TypePathKind::Relative => {
                let mut s = "self::".to_owned();
                s.append(self.base.as_str());
                s
            },
        };
        let n = self.generics.len();
        let ghost ps = paths_view(self.generics@);
        proof {
            lemma_paths_view_len(self.generics@);
        }
        if n > 0 {
            let mut inner = String::new();
            let mut i: usize = 0;
            assert(ps.take(0) =~= Seq::<PathView>::empty());
            while i < n
                invariant
                    n == self.generics@.len(),
                    ps == paths_view(self.generics@),
                    ps.len() == n,
                    forall|j: int| 0 <= j < n ==> #[trigger] ps[j] == path_view(self.generics@[j]),
                    i <= n,
                    inner@ == render_all(ps.take(i as int)),
                decreases n - i,
            {
                proof {
                    assert(decreases_to!(self => self.generics));
                    assert(decreases_to!(self.generics => self.generics@));
                    assert(decreases_to!(self.generics@ => self.generics@[i as int]));
                }
                let t = self.generics[i].to_text();
                proof {
                    assert(ps.take(i + 1).drop_last() =~= ps.take(i as int));
                    assert(ps.take(i + 1).last() == ps[i as int]);
                    if i == 0 {
                        assert(ps.take(1)[0] == ps[0]);
                    }
                }
                if i > 0 {
                    inner.append(", ");
                }
                inner.append(t.as_str());
                i = i + 1;
            }
            assert(ps.take(n as int) =~= ps);
            r.append("<");
            r.append(inner.as_str());
            r.append(">");
        }
        r
    }
}

proof fn lemma_nest_all_at(ps: Seq<PathView>, module: Seq<char>)
    ensures
        nest_all(ps, module).len() == ps.len(),
        forall|i: int| 0 <= i < ps.len() ==> #[trigger] nest_all(ps, module)[i] == nest(ps[i], module),
    decreases ps.len(),
{
    if ps.len() > 0 {
        lemma_nest_all_at(ps.drop_last(), module);
        assert forall|i: int| 0 <= i < ps.len() implies #[trigger] nest_all(ps, module)[i] == nest(
            ps[i],
            module,
        ) by {
            if i < ps.len() - 1 {
                assert(ps.drop_last()[i] == ps[i]);
            }
        }
    }
}

/// An absolute path without generic arguments.
pub open spec fn plain(base: Seq<char>) -> PathView {
    PathView::Node(TypePathKind::Absolute, base, Seq::empty())
}

/// The type generated for a setting of type `t`, whose key (an identifier)
/// is `parent_key`: the standard type for a plain setting, a `Vec` or a
/// `HashMap` from `String` for a list or a map (their items named by the key
/// with `_item` or `_value` added), and a struct named by the key in
/// UpperCamelCase (as a raw identifier) for a struct.
pub open spec fn schema_path(t: SchemaType, parent_key: Seq<char>) -> PathView
    decreases t,
{
    match t {
        SchemaType::Int(_) => plain("::core::primitive::i32"@),
        SchemaType::Text(_) => plain("::std::string::String"@),
        SchemaType::Bool(_) => plain("::core::primitive::bool"@),
        SchemaType::FilePath(_) => plain("::std::path::PathBuf"@),
        SchemaType::FolderPath(_) => plain("::std::path::PathBuf"@),
        SchemaType::List(l) => PathView::Node(
            TypePathKind::Absolute,
            "::std::vec::Vec"@,
            seq![schema_path(*l.item_type, unraw(parent_key) + "_item"@)],
        ),
        SchemaType::StringMap(m) => PathView::Node(
            TypePathKind::Absolute,
            "::std::collections::HashMap"@,
            seq![plain("::std::string::String"@), schema_path(*m.value_type, unraw(parent_key) + "_value"@)],
        ),
        SchemaType::Struct(_) => PathView::Node(
            TypePathKind::Relative,
            "r#"@ + upper_camel(parent_key),
            Seq::empty(),
        ),
    }
}

/// The type generated for a setting of type `t` whose key is `parent_key`
/// (see [`schema_path`]).
pub fn schema_type_path(t: &SchemaType, parent_key: &str) -> (p: TypePath)
    ensures
        path_view(p) == schema_path(*t, parent_key@),
    decreases t,
{
    match t {
        SchemaType::Int(_) => TypePath::absolute("::core::primitive::i32".to_owned()),
        SchemaType::Text(_) => TypePath::absolute("::std::string::String".to_owned()),
        SchemaType::Bool(_) => TypePath::absolute("::core::primitive::bool".to_owned()),
        SchemaType::FilePath(_) => TypePath::absolute("::std::path::PathBuf".to_owned()),
        SchemaType::FolderPath(_) => TypePath::absolute("::std::path::PathBuf".to_owned()),
        SchemaType::List(l) => {
            let mut key = strip_raw(parent_key).to_owned();
            key.append("_item");
            let inner = schema_type_path(&*l.item_type, key.as_str());
            assert(Seq::<PathView>::empty().push(path_view(inner)) =~= seq![path_view(inner)]);
            TypePath::absolute("::std::vec::Vec".to_owned()).with_generic(inner)
        },
        SchemaType::StringMap(m) => {
            let mut key = strip_raw(parent_key).to_owned();
            key.append("_value");
            let inner = schema_type_path(&*m.value_type, key.as_str());
            let ghost string_path = plain("::std::string::String"@);
            assert(Seq::<PathView>::empty().push(string_path).push(path_view(inner)) =~= seq![
                string_path,
                path_view(inner),
            ]);
            TypePath::absolute("::std::collections::HashMap".to_owned()).with_generic(
                TypePath::absolute("::std::string::String".to_owned()),
            ).with_generic(inner)
        },
        SchemaType::Struct(_) => {
            let mut name = "r#".to_owned();
            name.append(snake_to_upper_camel(parent_key).as_str());
            TypePath::relative(name)
        },
    }
}

/// The identifier of the field (and of the module beside it) generated for
/// the setting `key`: `key` with `-` replaced by `_`, as a raw identifier.
pub open spec fn field_ident(key: Seq<char>) -> Seq<char> {
    "r#"@ + hyphens_to_underscores(key)
}

/// The type of the field generated for the setting `key` of type `t`, as
/// the generated struct sees it: the types generated for the setting live
/// in the module named like the field.
pub fn struct_field_type(t: &SchemaType, key: &str) -> (p: TypePath)
    ensures
        path_view(p) == nest(schema_path(*t, field_ident(key@)), field_ident(key@)),
{
    let mut ident = "r#".to_owned();
    ident.append(field_name(key).as_str());
    let p = schema_type_path(t, ident.as_str());
    p.nest_within(ident.as_str())
}

} // verus!
