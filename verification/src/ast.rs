//! The module syntax, reduced to what export collection reads.
//!
//! A parsed source module is a list of items. Each item keeps only the
//! facts that the collector needs: which export form it is, which names it
//! binds, and the canonical text of each declaration's syntax (used purely
//! for equality comparison). Statements that merely contain other
//! statements are kept as a nested list, so that bare declarations inside
//! them are still reachable; function and class bodies are cut off, since
//! declarations inside them are local, not module exports.

use vstd::prelude::*;

verus! {

/// One variable declarator: the bound name (when the binding pattern is a
/// plain identifier) and the canonical text of the declarator's syntax.
pub struct Declarator {
    pub name: Option<String>,
    pub body: String,
}

/// The name under which an export list entry is exposed: a plain
/// identifier, or a string literal alias.
pub enum ExportName {
    Ident(String),
    Str(String),
}

/// One entry of a named export list (`export { a, b as c }`).
pub enum Specifier {
    /// The local name and, when an alias is present, the exported name.
    Named(ExportName, Option<ExportName>),
    Default(String),
    Namespace(ExportName),
}

/// One module item.
pub enum Item {
    /// `export const a = 1, b = 2;` and the `let` / `var` forms.
    ExportVar(Vec<Declarator>),
    /// `export function f() {}`: the name and the canonical declaration text.
    ExportFn(String, String),
    /// `export class C {}`: the name and the canonical declaration text.
    ExportClass(String, String),
    /// An exported declaration of another kind (interface, type alias, ...).
    ExportOther,
    /// `export { a, b as c };`
    ExportList(Vec<Specifier>),
    /// `export default function ... {}` and other declaration forms.
    ExportDefaultDecl,
    /// `export default <expression>;`
    ExportDefaultExpr,
    /// `export * from "...";`
    ExportAll,
    /// A module-level declaration that exports nothing (an import, ...).
    OtherModuleDecl,
    /// A bare `const` / `let` / `var` statement.
    VarStmt(Vec<Declarator>),
    /// A bare function declaration: name and canonical declaration text.
    FnStmt(String, String),
    /// A bare class declaration: name and canonical declaration text.
    ClassStmt(String, String),
    /// A statement that contains statement bodies (a block, an `if`, a
    /// loop, a `try`, ...): only the contained items are kept.
    Nested(Vec<Item>),
    /// Any other statement.
    OtherStmt,
}

/// A parsed module: its items in source order.
pub struct ModuleAst {
    pub items: Vec<Item>,
}

/// Mathematical image of a `Declarator`.
pub struct DeclaratorV {
    pub name: Option<Seq<char>>,
    pub body: Seq<char>,
}

/// Mathematical image of an `ExportName`.
pub enum ExportNameV {
    Ident(Seq<char>),
    Str(Seq<char>),
}

/// Mathematical image of a `Specifier`.
pub enum SpecifierV {
    Named(ExportNameV, Option<ExportNameV>),
    Default(Seq<char>),
    Namespace(ExportNameV),
}

/// Mathematical image of an `Item`.
pub enum ItemV {
    ExportVar(Seq<DeclaratorV>),
    ExportFn(Seq<char>, Seq<char>),
    ExportClass(Seq<char>, Seq<char>),
    ExportOther,
    ExportList(Seq<SpecifierV>),
    ExportDefaultDecl,
    ExportDefaultExpr,
    ExportAll,
    OtherModuleDecl,
    VarStmt(Seq<DeclaratorV>),
    FnStmt(Seq<char>, Seq<char>),
    ClassStmt(Seq<char>, Seq<char>),
    Nested(Seq<ItemV>),
    OtherStmt,
}

pub open spec fn decl_view(d: Declarator) -> DeclaratorV {
    DeclaratorV {
        name: match d.name {
            Some(n) => Some(n@),
            None => None,
        },
        body: d.body@,
    }
}

pub open spec fn decls_view(s: Seq<Declarator>) -> Seq<DeclaratorV> {
    Seq::new(s.len(), |i: int| decl_view(s[i]))
}

pub open spec fn export_name_view(n: ExportName) -> ExportNameV {
    match n {
        ExportName::Ident(s) => ExportNameV::Ident(s@),
        ExportName::Str(s) => ExportNameV::Str(s@),
    }
}

pub open spec fn specifier_view(sp: Specifier) -> SpecifierV {
    match sp {
        Specifier::Named(orig, exported) => SpecifierV::Named(
            export_name_view(orig),
            match exported {
                Some(e) => Some(export_name_view(e)),
                None => None,
            },
        ),
        Specifier::Default(s) => SpecifierV::Default(s@),
        Specifier::Namespace(n) => SpecifierV::Namespace(export_name_view(n)),
    }
}

pub open spec fn specifiers_view(s: Seq<Specifier>) -> Seq<SpecifierV> {
    Seq::new(s.len(), |i: int| specifier_view(s[i]))
}

pub open spec fn item_view(it: Item) -> ItemV
    decreases it,
{
    match it {
        Item::ExportVar(ds) => ItemV::ExportVar(decls_view(ds@)),
        Item::ExportFn(n, b) => ItemV::ExportFn(n@, b@),
        Item::ExportClass(n, b) => ItemV::ExportClass(n@, b@),
        Item::ExportOther => ItemV::ExportOther,
        Item::ExportList(sps) => ItemV::ExportList(specifiers_view(sps@)),
        Item::ExportDefaultDecl => ItemV::ExportDefaultDecl,
        Item::ExportDefaultExpr => ItemV::ExportDefaultExpr,
        Item::ExportAll => ItemV::ExportAll,
        Item::OtherModuleDecl => ItemV::OtherModuleDecl,
        Item::VarStmt(ds) => ItemV::VarStmt(decls_view(ds@)),
        Item::FnStmt(n, b) => ItemV::FnStmt(n@, b@),
        Item::ClassStmt(n, b) => ItemV::ClassStmt(n@, b@),
        Item::Nested(ch) => ItemV::Nested(items_view_vec(ch)),
        Item::OtherStmt => ItemV::OtherStmt,
    }
}

pub open spec fn items_view_vec(v: Vec<Item>) -> Seq<ItemV>
    decreases v,
{
    items_view(v@)
}

pub open spec fn items_view(s: Seq<Item>) -> Seq<ItemV>
    decreases s,
{
    if s.len() == 0 {
        Seq::empty()
    } else {
        items_view(s.subrange(0, s.len() - 1)).push(item_view(s[s.len() - 1]))
    }
}

/// The image of a whole module: its items, in order.
pub open spec fn module_view(m: ModuleAst) -> Seq<ItemV> {
    items_view(m.items@)
}

/// `items_view` maps the sequence pointwise.
pub proof fn lemma_items_view_index(s: Seq<Item>)
    ensures
        items_view(s).len() == s.len(),
        forall|i: int| 0 <= i < s.len() ==> items_view(s)[i] == item_view(s[i]),
    decreases s.len(),
{
    if s.len() > 0 {
        lemma_items_view_index(s.subrange(0, s.len() - 1));
        assert forall|i: int| 0 <= i < s.len() implies items_view(s)[i] == item_view(s[i]) by {
            if i < s.len() - 1 {
                assert(s.subrange(0, s.len() - 1)[i] == s[i]);
            }
        }
    }
}

} // verus!
