//! The parser adapter: swc_core's TypeScript/TSX parser behind one call.
//!
//! Parsing is the one step the library takes on trust. The parser's tree
//! is reduced, variant by variant, to the library's own [`crate::ast`]
//! types; everything after that reduction is verified. The reduction keeps
//! exactly what collection reads: the export form of each module-level
//! item, the names it binds, the canonical text of each declaration
//! (`format!("{:?}", ..)` of the parser's node, as a deterministic
//! rendering of its syntax), and the items nested in statement bodies.
//! Function and class bodies are dropped: declarations inside them are
//! local, never module exports.

use vstd::prelude::*;

use crate::ast::Declarator;
use crate::ast::ExportName;
use crate::ast::Item;
use crate::ast::ItemV;
use crate::ast::ModuleAst;
use crate::ast::Specifier;
use crate::ast::module_view;

use swc_core::common::BytePos;
use swc_core::ecma::ast::Decl;
use swc_core::ecma::ast::EsVersion;
use swc_core::ecma::ast::ForHead;
use swc_core::ecma::ast::ForStmt;
use swc_core::ecma::ast::IfStmt;
use swc_core::ecma::ast::ModuleDecl;
use swc_core::ecma::ast::ModuleExportName;
use swc_core::ecma::ast::ModuleItem;
use swc_core::ecma::ast::Pat;
use swc_core::ecma::ast::Stmt;
use swc_core::ecma::ast::SwitchStmt;
use swc_core::ecma::ast::TryStmt;
use swc_core::ecma::ast::VarDeclOrExpr;
use swc_core::ecma::ast::VarDeclarator;
use swc_core::ecma::parser::Lexer;
use swc_core::ecma::parser::Parser;
use swc_core::ecma::parser::StringInput;
use swc_core::ecma::parser::Syntax;
use swc_core::ecma::parser::TsSyntax;

verus! {

#[verifier::external_type_specification]
#[verifier::external_body]
pub struct ExSwcModule(swc_core::ecma::ast::Module);

#[verifier::external_type_specification]
#[verifier::external_body]
pub struct ExSwcModuleItem(ModuleItem);

#[verifier::external_type_specification]
#[verifier::external_body]
pub struct ExSwcModuleDecl(ModuleDecl);

#[verifier::external_type_specification]
#[verifier::external_body]
pub struct ExSwcDecl(Decl);

#[verifier::external_type_specification]
#[verifier::external_body]
pub struct ExSwcVarDeclarator(VarDeclarator);

#[verifier::external_type_specification]
#[verifier::external_body]
pub struct ExSwcExportSpecifier(swc_core::ecma::ast::ExportSpecifier);

#[verifier::external_type_specification]
#[verifier::external_body]
pub struct ExSwcModuleExportName(ModuleExportName);

#[verifier::external_type_specification]
#[verifier::external_body]
pub struct ExSwcStmt(Stmt);

#[verifier::external_type_specification]
#[verifier::external_body]
pub struct ExSwcIfStmt(IfStmt);

#[verifier::external_type_specification]
#[verifier::external_body]
pub struct ExSwcForStmt(ForStmt);

#[verifier::external_type_specification]
#[verifier::external_body]
pub struct ExSwcForHead(ForHead);

#[verifier::external_type_specification]
#[verifier::external_body]
pub struct ExSwcTryStmt(TryStmt);

#[verifier::external_type_specification]
#[verifier::external_body]
pub struct ExSwcSwitchStmt(SwitchStmt);

/// What parsing the given source text yields: the items of its module
/// tree, or nothing when the text does not parse. The parser is a pure
/// function of its input, so the result is a name for that value.
pub uninterp spec fn parse_of(code: Seq<char>) -> Option<Seq<ItemV>>;

/// Relies on swc_ecma_parser's `Parser::parse_module` (dialect:
/// TypeScript with TSX, latest language level): deterministic in the
/// source text, and an `Err` exactly on lexically or syntactically
/// invalid input.
#[verifier::external_body]
fn parse_raw(code: &str) -> Result<swc_core::ecma::ast::Module, String> {
    let input = StringInput::new(code, BytePos(0), BytePos(code.len() as u32));
    let lexer = Lexer::new(
        Syntax::Typescript(TsSyntax { tsx: true, ..Default::default() }),
        EsVersion::EsNext,
        input,
        None,
    );
    let mut parser = Parser::new_from(lexer);
    parser.parse_module().map_err(|err| format!("Parse error: {:?}", err))
}

/// Reduces one parsed declarator: the bound identifier, when the pattern
/// is a plain one, and the node's canonical text.
#[verifier::external_body]
fn conv_declarator(d: &VarDeclarator) -> Declarator {
    let name = match &d.name {
        Pat::Ident(b) => Some(b.id.sym.to_string()),
        _ => None,
    };
    Declarator { name, body: format!("{:?}", d) }
}

/// Reduces a slice of parsed declarators one by one.
#[verifier::external_body]
fn conv_declarators(ds: &[VarDeclarator]) -> Vec<Declarator> {
    ds.iter().map(conv_declarator).collect()
}

/// Reduces an exported declaration: variable, function and class
/// declarations carry names and bodies; other kinds carry nothing.
#[verifier::external_body]
fn conv_export_decl(d: &Decl) -> Item {
    match d {
        Decl::Var(v) => Item::ExportVar(conv_declarators(&v.decls)),
        Decl::Fn(f) => Item::ExportFn(f.ident.sym.to_string(), format!("{:?}", f)),
        Decl::Class(c) => Item::ExportClass(c.ident.sym.to_string(), format!("{:?}", c)),
        _ => Item::ExportOther,
    }
}

/// Reduces a bare declaration statement the same way.
#[verifier::external_body]
fn conv_bare_decl(d: &Decl) -> Item {
    match d {
        Decl::Var(v) => Item::VarStmt(conv_declarators(&v.decls)),
        Decl::Fn(f) => Item::FnStmt(f.ident.sym.to_string(), format!("{:?}", f)),
        Decl::Class(c) => Item::ClassStmt(c.ident.sym.to_string(), format!("{:?}", c)),
        _ => Item::OtherStmt,
    }
}

/// Reduces the name under which an export-list entry is exposed.
#[verifier::external_body]
fn conv_export_name(n: &ModuleExportName) -> ExportName {
    match n {
        ModuleExportName::Ident(i) => ExportName::Ident(i.sym.to_string()),
        ModuleExportName::Str(s) => ExportName::Str(s.value.to_atom_lossy().to_string()),
    }
}

/// Reduces one export-list entry, keeping the local/alias distinction.
#[verifier::external_body]
fn conv_specifier(sp: &swc_core::ecma::ast::ExportSpecifier) -> Specifier {
    match sp {
        swc_core::ecma::ast::ExportSpecifier::Named(n) => Specifier::Named(
            conv_export_name(&n.orig),
            n.exported.as_ref().map(conv_export_name),
        ),
        swc_core::ecma::ast::ExportSpecifier::Default(d) => Specifier::Default(
            d.exported.sym.to_string(),
        ),
        swc_core::ecma::ast::ExportSpecifier::Namespace(ns) => Specifier::Namespace(
            conv_export_name(&ns.name),
        ),
    }
}

/// Reduces a module-level declaration to its export form.
#[verifier::external_body]
fn conv_module_decl(d: &ModuleDecl) -> Item {
    match d {
        ModuleDecl::ExportDecl(e) => conv_export_decl(&e.decl),
        ModuleDecl::ExportNamed(n) => Item::ExportList(
            n.specifiers.iter().map(conv_specifier).collect(),
        ),
        ModuleDecl::ExportDefaultDecl(_) => Item::ExportDefaultDecl,
        ModuleDecl::ExportDefaultExpr(_) => Item::ExportDefaultExpr,
        ModuleDecl::ExportAll(_) => Item::ExportAll,
        _ => Item::OtherModuleDecl,
    }
}

/// Reduces a statement: declarations are kept, statement bodies are
/// descended into, everything else (expressions and with them function
/// and class bodies) is dropped.
#[verifier::external_body]
fn conv_stmt(s: &Stmt) -> Item {
    match s {
        Stmt::Decl(d) => conv_bare_decl(d),
        Stmt::Block(b) => Item::Nested(conv_stmts(&b.stmts)),
        Stmt::If(i) => conv_if(i),
        Stmt::Labeled(l) => Item::Nested(vec![conv_stmt(&l.body)]),
        Stmt::With(w) => Item::Nested(vec![conv_stmt(&w.body)]),
        Stmt::While(w) => Item::Nested(vec![conv_stmt(&w.body)]),
        Stmt::DoWhile(w) => Item::Nested(vec![conv_stmt(&w.body)]),
        _ => conv_stmt_more(s),
    }
}

/// Second half of the statement match: loops, `try`, `switch`.
#[verifier::external_body]
fn conv_stmt_more(s: &Stmt) -> Item {
    match s {
        Stmt::For(f) => conv_for(f),
        Stmt::ForIn(f) => Item::Nested(vec![conv_for_head(&f.left), conv_stmt(&f.body)]),
        Stmt::ForOf(f) => Item::Nested(vec![conv_for_head(&f.left), conv_stmt(&f.body)]),
        Stmt::Try(t) => conv_try(t),
        Stmt::Switch(sw) => conv_switch(sw),
        _ => Item::OtherStmt,
    }
}

/// Reduces a slice of parsed statements one by one.
#[verifier::external_body]
fn conv_stmts(ss: &[Stmt]) -> Vec<Item> {
    ss.iter().map(conv_stmt).collect()
}

/// An `if` statement: both branches are statement bodies.
#[verifier::external_body]
fn conv_if(i: &IfStmt) -> Item {
    let mut ch = vec![conv_stmt(&i.cons)];
    if let Some(alt) = &i.alt {
        ch.push(conv_stmt(alt));
    }
    Item::Nested(ch)
}

/// A `for` statement: its init declaration and its body.
#[verifier::external_body]
fn conv_for(f: &ForStmt) -> Item {
    let mut ch: Vec<Item> = Vec::new();
    if let Some(VarDeclOrExpr::VarDecl(v)) = &f.init {
        ch.push(Item::VarStmt(conv_declarators(&v.decls)));
    }
    ch.push(conv_stmt(&f.body));
    Item::Nested(ch)
}

/// A `for`-in / `for`-of head: a declaration when it binds one.
#[verifier::external_body]
fn conv_for_head(h: &ForHead) -> Item {
    match h {
        ForHead::VarDecl(v) => Item::VarStmt(conv_declarators(&v.decls)),
        _ => Item::OtherStmt,
    }
}

/// A `try` statement: block, handler body and finalizer in order.
#[verifier::external_body]
fn conv_try(t: &TryStmt) -> Item {
    let mut ch = conv_stmts(&t.block.stmts);
    if let Some(h) = &t.handler {
        ch.append(&mut conv_stmts(&h.body.stmts));
    }
    if let Some(f) = &t.finalizer {
        ch.append(&mut conv_stmts(&f.stmts));
    }
    Item::Nested(ch)
}

/// A `switch` statement: every case body in order.
#[verifier::external_body]
fn conv_switch(sw: &SwitchStmt) -> Item {
    let items = sw.cases.iter().flat_map(|c| c.cons.iter().map(conv_stmt)).collect();
    Item::Nested(items)
}

/// Reduces a whole parsed module to the library's tree.
#[verifier::external_body]
fn conv_module(m: &swc_core::ecma::ast::Module) -> ModuleAst {
    ModuleAst { items: m.body.iter().map(conv_module_item).collect() }
}

/// Reduces one module item: a module-level declaration or a statement.
#[verifier::external_body]
fn conv_module_item(it: &ModuleItem) -> Item {
    match it {
        ModuleItem::ModuleDecl(d) => conv_module_decl(d),
        ModuleItem::Stmt(s) => conv_stmt(s),
    }
}

/// Relies on swc_core's TypeScript/TSX parser through `parse_raw`: the
/// tree is a pure function of the source text, reduced by the converters
/// above, so a successful parse yields exactly the items that `parse_of`
/// names, and a failed parse an error message.
#[verifier::external_body]
pub(crate) fn parse_tsx(code: &str) -> (r: Result<ModuleAst, String>)
    ensures
        match r {
            Ok(m) => parse_of(code@) == Some(module_view(m)),
            Err(_) => parse_of(code@) is None,
        },
{
    match parse_raw(code) {
        Ok(m) => Ok(conv_module(&m)),
        Err(e) => Err(e),
    }
}

} // verus!
