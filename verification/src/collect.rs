//! Building an export snapshot from a module's items.
//!
//! One left-to-right walk over the items produces two correlated
//! containers: the set of exported names, and a mapping from names to the
//! canonical text of their declarations. A named export list contributes
//! names only; a bare declaration contributes a body only; an exported
//! declaration contributes both. When a name is declared twice, the later
//! declaration's body wins.

use vstd::prelude::*;

use crate::ast::DeclaratorV;
use crate::ast::ExportName;
use crate::ast::ExportNameV;
use crate::ast::Item;
use crate::ast::ItemV;
use crate::ast::ModuleAst;
use crate::ast::Specifier;
use crate::ast::SpecifierV;
use crate::ast::decls_view;
use crate::ast::export_name_view;
use crate::ast::item_view;
use crate::ast::items_view;
use crate::ast::module_view;
use crate::ast::specifier_view;
use crate::ast::specifiers_view;

verus! {

/// Mathematical image of a snapshot: the exported names in first-insertion
/// order, and the declared bodies as a map from name to canonical text.
#[verifier::ext_equal]
pub struct SnapV {
    pub exports: Seq<Seq<char>>,
    pub decls: Map<Seq<char>, Seq<char>>,
}

pub open spec fn empty_snap() -> SnapV {
    SnapV { exports: Seq::empty(), decls: Map::empty() }
}

/// Add an exported name; a name already present keeps its position.
pub open spec fn snap_insert_export(s: SnapV, n: Seq<char>) -> SnapV {
    if s.exports.contains(n) {
        s
    } else {
        SnapV { exports: s.exports.push(n), decls: s.decls }
    }
}

/// Record a declaration body; a later declaration of the same name wins.
pub open spec fn snap_insert_decl(s: SnapV, n: Seq<char>, b: Seq<char>) -> SnapV {
    SnapV { exports: s.exports, decls: s.decls.insert(n, b) }
}

pub open spec fn export_name_text(n: ExportNameV) -> Seq<char> {
    match n {
        ExportNameV::Ident(s) => s,
        ExportNameV::Str(s) => s,
    }
}

/// The name under which one export-list entry is exposed: the alias when
/// one is present, else the local name.
pub open spec fn exported_name_v(sp: SpecifierV) -> Seq<char> {
    match sp {
        SpecifierV::Named(orig, exported) => match exported {
            Some(e) => export_name_text(e),
            None => export_name_text(orig),
        },
        SpecifierV::Default(n) => n,
        SpecifierV::Namespace(n) => export_name_text(n),
    }
}

/// One exported declarator: its name into the exports, its body into the
/// declared bodies; a declarator without a plain name contributes nothing.
pub open spec fn apply_export_decl(d: DeclaratorV, s: SnapV) -> SnapV {
    match d.name {
        Some(n) => snap_insert_decl(snap_insert_export(s, n), n, d.body),
        None => s,
    }
}

/// One bare declarator: its body into the declared bodies only.
pub open spec fn apply_bare_decl(d: DeclaratorV, s: SnapV) -> SnapV {
    match d.name {
        Some(n) => snap_insert_decl(s, n, d.body),
        None => s,
    }
}

pub open spec fn collect_export_vars(ds: Seq<DeclaratorV>, s: SnapV) -> SnapV
    decreases ds.len(),
{
    if ds.len() == 0 {
        s
    } else {
        apply_export_decl(ds[ds.len() - 1], collect_export_vars(ds.subrange(0, ds.len() - 1), s))
    }
}

pub open spec fn collect_bare_vars(ds: Seq<DeclaratorV>, s: SnapV) -> SnapV
    decreases ds.len(),
{
    if ds.len() == 0 {
        s
    } else {
        apply_bare_decl(ds[ds.len() - 1], collect_bare_vars(ds.subrange(0, ds.len() - 1), s))
    }
}

pub open spec fn collect_specifiers(sps: Seq<SpecifierV>, s: SnapV) -> SnapV
    decreases sps.len(),
{
    if sps.len() == 0 {
        s
    } else {
        snap_insert_export(
            collect_specifiers(sps.subrange(0, sps.len() - 1), s),
            exported_name_v(sps[sps.len() - 1]),
        )
    }
}

/// What one item contributes to a snapshot.
pub open spec fn collect_item_v(it: ItemV, s: SnapV) -> SnapV
    decreases it,
{
    match it {
        ItemV::ExportVar(ds) => collect_export_vars(ds, s),
        ItemV::ExportFn(n, b) => snap_insert_decl(snap_insert_export(s, n), n, b),
        ItemV::ExportClass(n, b) => snap_insert_decl(snap_insert_export(s, n), n, b),
        ItemV::ExportOther => s,
        ItemV::ExportList(sps) => collect_specifiers(sps, s),
        ItemV::ExportDefaultDecl => snap_insert_export(s, "default"@),
        ItemV::ExportDefaultExpr => snap_insert_export(s, "default"@),
        ItemV::ExportAll => snap_insert_export(s, "*"@),
        ItemV::OtherModuleDecl => s,
        ItemV::VarStmt(ds) => collect_bare_vars(ds, s),
        ItemV::FnStmt(n, b) => snap_insert_decl(s, n, b),
        ItemV::ClassStmt(n, b) => snap_insert_decl(s, n, b),
        ItemV::Nested(ch) => collect_items_v(ch, s),
        ItemV::OtherStmt => s,
    }
}

/// Left-to-right fold of `collect_item_v` over a sequence of items.
pub open spec fn collect_items_v(items: Seq<ItemV>, s: SnapV) -> SnapV
    decreases items,
{
    if items.len() == 0 {
        s
    } else {
        collect_item_v(
            items[items.len() - 1],
            collect_items_v(items.subrange(0, items.len() - 1), s),
        )
    }
}

/// The snapshot of a whole module.
pub open spec fn snapshot_of_items(items: Seq<ItemV>) -> SnapV {
    collect_items_v(items, empty_snap())
}

/// The declared bodies, read off an association list: a later entry for
/// the same key wins.
pub open spec fn assoc_map(s: Seq<(Seq<char>, Seq<char>)>) -> Map<Seq<char>, Seq<char>>
    decreases s.len(),
{
    if s.len() == 0 {
        Map::empty()
    } else {
        assoc_map(s.subrange(0, s.len() - 1)).insert(s[s.len() - 1].0, s[s.len() - 1].1)
    }
}

/// One source version's snapshot: the exported names in first-insertion
/// order, and the declaration bodies as an association list in insertion
/// order (a later entry for the same name wins).
pub struct Snapshot {
    pub exports: Vec<String>,
    pub decls: Vec<(String, String)>,
}

impl View for Snapshot {
    type V = SnapV;

    open spec fn view(&self) -> SnapV {
        SnapV { exports: self.exports.deep_view(), decls: assoc_map(self.decls.deep_view()) }
    }
}

impl Snapshot {
    pub fn new() -> (s: Snapshot)
        ensures
            s@ == empty_snap(),
    {
        let s = Snapshot { exports: Vec::new(), decls: Vec::new() };
        proof {
            assert(s.exports.deep_view() =~= Seq::<Seq<char>>::empty());
            assert(s.decls.deep_view() =~= Seq::<(Seq<char>, Seq<char>)>::empty());
            assert(s@ =~= empty_snap());
        }
        s
    }

    /// Whether `name` is among the exported names.
    pub fn has_export(&self, name: &str) -> (b: bool)
        ensures
            b == self@.exports.contains(name@),
    {
        let n = name.to_owned();
        let mut i: usize = 0;
        while i < self.exports.len()
            invariant
                i <= self.exports.len(),
                n@ == name@,
                forall|k: int| 0 <= k < i ==> self.exports.deep_view()[k] != name@,
            decreases self.exports.len() - i,
        {
            if self.exports[i] == n {
                assert(self@.exports[i as int] == name@);
                return true;
            }
            i += 1;
        }
        false
    }

    fn insert_export(&mut self, n: String)
        ensures
            final(self)@ == snap_insert_export(old(self)@, n@),
    {
        if !self.has_export(n.as_str()) {
            let ghost pre = self.exports.deep_view();
            self.exports.push(n);
            proof {
                assert(self.exports.deep_view() =~= pre.push(n@));
                assert(self@ =~= snap_insert_export(old(self)@, n@));
            }
        }
    }

    fn insert_decl(&mut self, n: String, b: String)
        ensures
            final(self)@ == snap_insert_decl(old(self)@, n@, b@),
    {
        let ghost pre = self.decls.deep_view();
        self.decls.push((n, b));
        proof {
            let post = self.decls.deep_view();
            assert(post =~= pre.push((n@, b@)));
            assert(post.subrange(0, post.len() - 1) =~= pre);
            assert(self@ =~= snap_insert_decl(old(self)@, n@, b@));
        }
    }

    /// The declared body recorded for `name`, if any: the latest
    /// declaration of that name.
    pub fn get_decl(&self, name: &String) -> (r: Option<&String>)
        ensures
            match r {
                Some(b) => self@.decls.contains_key(name@) && b@ == self@.decls[name@],
                None => !self@.decls.contains_key(name@),
            },
    {
        let mut found: Option<&String> = None;
        let mut i: usize = 0;
        while i < self.decls.len()
            invariant
                i <= self.decls.len(),
                match found {
                    Some(b) => {
                        &&& assoc_map(self.decls.deep_view().subrange(0, i as int)).contains_key(
                            name@,
                        )
                        &&& b@ == assoc_map(self.decls.deep_view().subrange(0, i as int))[name@]
                    },
                    None => !assoc_map(self.decls.deep_view().subrange(0, i as int)).contains_key(
                        name@,
                    ),
                },
            decreases self.decls.len() - i,
        {
            let ghost dv = self.decls.deep_view();
            proof {
                assert(dv.subrange(0, i + 1).subrange(0, i as int) =~= dv.subrange(0, i as int));
                assert(dv.subrange(0, i + 1)[i as int] == dv[i as int]);
            }
            if self.decls[i].0 == *name {
                found = Some(&self.decls[i].1);
            }
            i += 1;
        }
        proof {
            assert(self.decls.deep_view().subrange(0, self.decls.len() as int) =~= self
                .decls
                .deep_view());
        }
        found
    }
}

/// The exported name of one export-list entry, as text.
fn exported_name(sp: &Specifier) -> (n: String)
    ensures
        n@ == exported_name_v(specifier_view(*sp)),
{
    match sp {
        Specifier::Named(orig, exported) => match exported {
            Some(e) => export_name_string(e),
            None => export_name_string(orig),
        },
        Specifier::Default(s) => s.clone(),
        Specifier::Namespace(n) => export_name_string(n),
    }
}

fn export_name_string(n: &ExportName) -> (s: String)
    ensures
        s@ == export_name_text(export_name_view(*n)),
{
    match n {
        ExportName::Ident(s) => s.clone(),
        ExportName::Str(s) => s.clone(),
    }
}

/// What one item contributes to the snapshot under construction.
#[verifier::loop_isolation(false)]
fn collect_item(it: &Item, snap: &mut Snapshot)
    ensures
        final(snap)@ == collect_item_v(item_view(*it), old(snap)@),
    decreases *it,
{
    match it {
        Item::ExportVar(ds) => {
            let ghost dsv = decls_view(ds@);
            let ghost s0 = snap@;
            let mut j: usize = 0;
            while j < ds.len()
                invariant
                    j <= ds.len(),
                    dsv == decls_view(ds@),
                    snap@ == collect_export_vars(dsv.subrange(0, j as int), s0),
                decreases ds.len() - j,
            {
                proof {
                    assert(dsv.subrange(0, j + 1).subrange(0, j as int) =~= dsv.subrange(
                        0,
                        j as int,
                    ));
                }
                match &ds[j].name {
                    Some(n) => {
                        snap.insert_export(n.clone());
                        snap.insert_decl(n.clone(), ds[j].body.clone());
                    },
                    None => {},
                }
                j += 1;
            }
            proof {
                assert(dsv.subrange(0, ds@.len() as int) =~= dsv);
            }
        },
        Item::ExportFn(n, b) => {
            snap.insert_export(n.clone());
            snap.insert_decl(n.clone(), b.clone());
        },
        Item::ExportClass(n, b) => {
            snap.insert_export(n.clone());
            snap.insert_decl(n.clone(), b.clone());
        },
        Item::ExportOther => {},
        Item::ExportList(sps) => {
            let ghost spv = specifiers_view(sps@);
            let ghost s0 = snap@;
            let mut j: usize = 0;
            while j < sps.len()
                invariant
                    j <= sps.len(),
                    spv == specifiers_view(sps@),
                    snap@ == collect_specifiers(spv.subrange(0, j as int), s0),
                decreases sps.len() - j,
            {
                proof {
                    assert(spv.subrange(0, j + 1).subrange(0, j as int) =~= spv.subrange(
                        0,
                        j as int,
                    ));
                }
                let n = exported_name(&sps[j]);
                snap.insert_export(n);
                j += 1;
            }
            proof {
                assert(spv.subrange(0, sps@.len() as int) =~= spv);
            }
        },
        Item::ExportDefaultDecl => {
            snap.insert_export("default".to_owned());
        },
        Item::ExportDefaultExpr => {
            snap.insert_export("default".to_owned());
        },
        Item::ExportAll => {
            snap.insert_export("*".to_owned());
        },
        Item::OtherModuleDecl => {},
        Item::VarStmt(ds) => {
            let ghost dsv = decls_view(ds@);
            let ghost s0 = snap@;
            let mut j: usize = 0;
            while j < ds.len()
                invariant
                    j <= ds.len(),
                    dsv == decls_view(ds@),
                    snap@ == collect_bare_vars(dsv.subrange(0, j as int), s0),
                decreases ds.len() - j,
            {
                proof {
                    assert(dsv.subrange(0, j + 1).subrange(0, j as int) =~= dsv.subrange(
                        0,
                        j as int,
                    ));
                }
                match &ds[j].name {
                    Some(n) => {
                        snap.insert_decl(n.clone(), ds[j].body.clone());
                    },
                    None => {},
                }
                j += 1;
            }
            proof {
                assert(dsv.subrange(0, ds@.len() as int) =~= dsv);
            }
        },
        Item::FnStmt(n, b) => {
            snap.insert_decl(n.clone(), b.clone());
        },
        Item::ClassStmt(n, b) => {
            snap.insert_decl(n.clone(), b.clone());
        },
        Item::Nested(ch) => {
            let ghost chv = crate::ast::items_view_vec(*ch);
            let ghost s0 = snap@;
            let mut j: usize = 0;
            while j < ch.len()
                invariant
                    j <= ch.len(),
                    chv == items_view(ch@),
                    snap@ == collect_items_v(chv.subrange(0, j as int), s0),
                decreases ch.len() - j,
            {
                proof {
                    crate::ast::lemma_items_view_index(ch@);
                    assert(chv.subrange(0, j + 1).subrange(0, j as int) =~= chv.subrange(
                        0,
                        j as int,
                    ));
                    assert(*ch == it->Nested_0);
                    assert(decreases_to!(*it => it->Nested_0));
                    assert(decreases_to!(it->Nested_0 => it->Nested_0@));
                    assert(decreases_to!(it->Nested_0@ => it->Nested_0@[j as int]));
                    assert(decreases_to!(*it => ch@[j as int]));
                }
                collect_item(&ch[j], snap);
                j += 1;
            }
            proof {
                crate::ast::lemma_items_view_index(ch@);
                assert(chv.subrange(0, ch@.len() as int) =~= chv);
            }
        },
        Item::OtherStmt => {},
    }
}

/// One traversal of a parsed module: every export form contributes its
/// exported names, and every top-level-reachable declaration its body.
pub fn collect_exports(m: &ModuleAst) -> (snap: Snapshot)
    ensures
        snap@ == snapshot_of_items(module_view(*m)),
{
    let mut snap = Snapshot::new();
    let ghost mv = module_view(*m);
    let mut i: usize = 0;
    while i < m.items.len()
        invariant
            i <= m.items.len(),
            mv == items_view(m.items@),
            snap@ == collect_items_v(mv.subrange(0, i as int), empty_snap()),
        decreases m.items.len() - i,
    {
        proof {
            crate::ast::lemma_items_view_index(m.items@);
            assert(mv.subrange(0, i + 1).subrange(0, i as int) =~= mv.subrange(0, i as int));
        }
        collect_item(&m.items[i], &mut snap);
        i += 1;
    }
    proof {
        crate::ast::lemma_items_view_index(m.items@);
        assert(mv.subrange(0, m.items@.len() as int) =~= mv);
    }
    snap
}

} // verus!
