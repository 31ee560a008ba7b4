//! Comparing two export snapshots.
//!
//! The diff walks the union of the two snapshots' exported names — the new
//! version's names first, then the old version's names that the new one
//! lacks, each side in its own order — and classifies every name by the
//! presence and equality of its recorded declaration bodies. A name whose
//! body was captured in neither snapshot yields no record, even though the
//! name is exported (a documented limitation of the model, not an error).

use vstd::prelude::*;

use crate::collect::SnapV;
use crate::collect::Snapshot;

verus! {

/// How an exported declaration changed between two versions.
#[derive(Clone, Copy, PartialEq, Eq, Structural, Debug)]
pub enum ChangeType {
    Added,
    Removed,
    Modified,
}

/// One change record: an exported name and how it changed.
#[derive(PartialEq, Eq, Debug)]
pub struct DiffResult {
    pub name: String,
    pub change: ChangeType,
}

/// Mathematical image of a change record.
pub struct RecordV {
    pub name: Seq<char>,
    pub change: ChangeType,
}

impl DeepView for DiffResult {
    type V = RecordV;

    open spec fn deep_view(&self) -> RecordV {
        RecordV { name: self.name@, change: self.change }
    }
}

/// The change table (`a` is the old snapshot, `b` the new one):
/// body absent then present is `Added`; present then absent is `Removed`;
/// present on both sides with different text is `Modified`; otherwise no
/// record.
pub open spec fn change_of(n: Seq<char>, a: SnapV, b: SnapV) -> Option<ChangeType> {
    let was = a.decls.contains_key(n);
    let now = b.decls.contains_key(n);
    if was && now {
        if a.decls[n] != b.decls[n] {
            Some(ChangeType::Modified)
        } else {
            None
        }
    } else if !was && now {
        Some(ChangeType::Added)
    } else if was && !now {
        Some(ChangeType::Removed)
    } else {
        None
    }
}

/// The elements of `a` that `b` lacks, in `a`'s order.
pub open spec fn missing_from(a: Seq<Seq<char>>, b: Seq<Seq<char>>) -> Seq<Seq<char>>
    decreases a.len(),
{
    if a.len() == 0 {
        Seq::empty()
    } else {
        let rest = missing_from(a.subrange(0, a.len() - 1), b);
        if b.contains(a[a.len() - 1]) {
            rest
        } else {
            rest.push(a[a.len() - 1])
        }
    }
}

/// The names the diff walks: the new snapshot's exports first, then the
/// old snapshot's exports that the new one lacks.
pub open spec fn union_names(b_exports: Seq<Seq<char>>, a_exports: Seq<Seq<char>>) -> Seq<
    Seq<char>,
> {
    b_exports + missing_from(a_exports, b_exports)
}

/// The records for the given names, in order: one record for each name
/// whose classification is `Some`.
pub open spec fn diff_records(names: Seq<Seq<char>>, a: SnapV, b: SnapV) -> Seq<RecordV>
    decreases names.len(),
{
    if names.len() == 0 {
        Seq::empty()
    } else {
        let rest = diff_records(names.subrange(0, names.len() - 1), a, b);
        match change_of(names[names.len() - 1], a, b) {
            Some(c) => rest.push(RecordV { name: names[names.len() - 1], change: c }),
            None => rest,
        }
    }
}

/// The full diff of two snapshots: `a` is the old version, `b` the new.
pub open spec fn diff_spec(a: SnapV, b: SnapV) -> Seq<RecordV> {
    diff_records(union_names(b.exports, a.exports), a, b)
}

/// The union of the exported names, new version's first.
fn union_vec(new_snap: &Snapshot, old_snap: &Snapshot) -> (u: Vec<String>)
    ensures
        u.deep_view() == union_names(new_snap@.exports, old_snap@.exports),
{
    let ghost new_dv = new_snap@.exports;
    let ghost old_dv = old_snap@.exports;
    let mut u: Vec<String> = Vec::new();
    proof {
        assert(u.deep_view() =~= Seq::<Seq<char>>::empty());
    }
    let mut i: usize = 0;
    while i < new_snap.exports.len()
        invariant
            i <= new_snap.exports.len(),
            new_dv == new_snap@.exports,
            u.deep_view() =~= new_dv.subrange(0, i as int),
        decreases new_snap.exports.len() - i,
    {
        let ghost pre = u.deep_view();
        u.push(new_snap.exports[i].clone());
        proof {
            assert(u.deep_view() =~= pre.push(new_dv[i as int]));
            assert(u.deep_view() =~= new_dv.subrange(0, i + 1));
        }
        i += 1;
    }
    proof {
        assert(new_dv.subrange(0, new_snap.exports@.len() as int) =~= new_dv);
    }
    let mut j: usize = 0;
    while j < old_snap.exports.len()
        invariant
            j <= old_snap.exports.len(),
            new_dv == new_snap@.exports,
            old_dv == old_snap@.exports,
            u.deep_view() =~= new_dv + missing_from(old_dv.subrange(0, j as int), new_dv),
        decreases old_snap.exports.len() - j,
    {
        proof {
            assert(old_dv.subrange(0, j + 1).subrange(0, j as int) =~= old_dv.subrange(
                0,
                j as int,
            ));
        }
        if !new_snap.has_export(old_snap.exports[j].as_str()) {
            let ghost pre = u.deep_view();
            u.push(old_snap.exports[j].clone());
            proof {
                assert(u.deep_view() =~= pre.push(old_dv[j as int]));
            }
        }
        proof {
            assert(u.deep_view() =~= new_dv + missing_from(old_dv.subrange(0, j + 1), new_dv));
        }
        j += 1;
    }
    proof {
        assert(old_dv.subrange(0, old_snap.exports@.len() as int) =~= old_dv);
    }
    u
}

/// Compare two snapshots: one record for every exported name whose
/// declared body was added, removed, or modified.
pub fn diff(old_snap: &Snapshot, new_snap: &Snapshot) -> (r: Vec<DiffResult>)
    ensures
        r.deep_view() == diff_spec(old_snap@, new_snap@),
{
    let ghost a = old_snap@;
    let ghost b = new_snap@;
    let names = union_vec(new_snap, old_snap);
    let ghost names_dv = names.deep_view();
    let mut r: Vec<DiffResult> = Vec::new();
    proof {
        assert(r.deep_view() =~= Seq::<RecordV>::empty());
    }
    let mut i: usize = 0;
    while i < names.len()
        invariant
            i <= names.len(),
            a == old_snap@,
            b == new_snap@,
            names_dv == names.deep_view(),
            names.len() == names_dv.len(),
            r.deep_view() =~= diff_records(names_dv.subrange(0, i as int), a, b),
        decreases names.len() - i,
    {
        proof {
            assert(names_dv.subrange(0, i + 1).subrange(0, i as int) =~= names_dv.subrange(
                0,
                i as int,
            ));
            assert(names_dv.subrange(0, i + 1)[i as int] == names_dv[i as int]);
        }
        let name = &names[i];
        let old_body = old_snap.get_decl(name);
        let new_body = new_snap.get_decl(name);
        let record: Option<ChangeType> = match (old_body, new_body) {
            (Some(x), Some(y)) => if *x == *y {
                None
            } else {
                Some(ChangeType::Modified)
            },
            (None, Some(_)) => Some(ChangeType::Added),
            (Some(_), None) => Some(ChangeType::Removed),
            (None, None) => None,
        };
        proof {
            assert(match record {
                Some(c) => change_of(names_dv[i as int], a, b) == Some(c),
                None => change_of(names_dv[i as int], a, b) is None,
            });
        }
        match record {
            Some(c) => {
                let ghost pre = r.deep_view();
                r.push(DiffResult { name: name.clone(), change: c });
                proof {
                    assert(r.deep_view() =~= pre.push(
                        RecordV { name: names_dv[i as int], change: c },
                    ));
                }
            },
            None => {},
        }
        i += 1;
    }
    proof {
        assert(names_dv.subrange(0, names@.len() as int) =~= names_dv);
    }
    r
}

/// A pushed element is contained; nothing else changes.
proof fn lemma_push_contains<T>(s: Seq<T>, x: T, y: T)
    ensures
        s.push(x).contains(y) <==> (s.contains(y) || x == y),
{
    if s.push(x).contains(y) {
        let i = choose|i: int| 0 <= i < s.push(x).len() && s.push(x)[i] == y;
        if i < s.len() {
            assert(s[i] == y);
        }
    }
    if s.contains(y) {
        let i = choose|i: int| 0 <= i < s.len() && s[i] == y;
        assert(s.push(x)[i] == y);
    }
    assert(s.push(x)[s.len() as int] == x);
}

/// Membership in a sequence splits into the front and the last element.
proof fn lemma_contains_split<T>(s: Seq<T>, y: T)
    requires
        s.len() > 0,
    ensures
        s.contains(y) <==> (s.subrange(0, s.len() - 1).contains(y) || s[s.len() - 1] == y),
{
    let front = s.subrange(0, s.len() - 1);
    if s.contains(y) {
        let i = choose|i: int| 0 <= i < s.len() && s[i] == y;
        if i < s.len() - 1 {
            assert(front[i] == y);
        }
    }
    if front.contains(y) {
        let i = choose|i: int| 0 <= i < front.len() && front[i] == y;
        assert(s[i] == y);
    }
}

/// Membership in `missing_from`: exactly the elements of `a` that `b`
/// lacks.
proof fn lemma_missing_from_contains(a: Seq<Seq<char>>, b: Seq<Seq<char>>, n: Seq<char>)
    ensures
        missing_from(a, b).contains(n) <==> (a.contains(n) && !b.contains(n)),
    decreases a.len(),
{
    if a.len() == 0 {
    } else {
        let front = a.subrange(0, a.len() - 1);
        let last = a[a.len() - 1];
        lemma_missing_from_contains(front, b, n);
        lemma_contains_split(a, n);
        if !b.contains(last) {
            lemma_push_contains(missing_from(front, b), last, n);
        }
    }
}

/// Membership in the walked union: a name of either side's exports.
pub proof fn lemma_union_names_contains(
    b_exports: Seq<Seq<char>>,
    a_exports: Seq<Seq<char>>,
    n: Seq<char>,
)
    ensures
        union_names(b_exports, a_exports).contains(n) <==> (b_exports.contains(n)
            || a_exports.contains(n)),
{
    lemma_missing_from_contains(a_exports, b_exports, n);
    let m = missing_from(a_exports, b_exports);
    let u = b_exports + m;
    if u.contains(n) {
        let i = choose|i: int| 0 <= i < u.len() && u[i] == n;
        if i < b_exports.len() {
            assert(b_exports[i] == n);
        } else {
            assert(m[i - b_exports.len()] == n);
        }
    }
    if b_exports.contains(n) {
        let i = choose|i: int| 0 <= i < b_exports.len() && b_exports[i] == n;
        assert(u[i] == n);
    }
    if m.contains(n) {
        let i = choose|i: int| 0 <= i < m.len() && m[i] == n;
        assert(u[b_exports.len() + i] == n);
    }
}

/// The records of a diff, characterised: `diff_records` reports exactly
/// the walked names whose classification is `Some`.
pub proof fn lemma_diff_records_contains(names: Seq<Seq<char>>, a: SnapV, b: SnapV, rec: RecordV)
    ensures
        diff_records(names, a, b).contains(rec) <==> (names.contains(rec.name) && change_of(
            rec.name,
            a,
            b,
        ) == Some(rec.change)),
    decreases names.len(),
{
    if names.len() == 0 {
    } else {
        let front = names.subrange(0, names.len() - 1);
        let last = names[names.len() - 1];
        lemma_diff_records_contains(front, a, b, rec);
        lemma_contains_split(names, rec.name);
        let rest = diff_records(front, a, b);
        match change_of(last, a, b) {
            Some(c) => {
                lemma_push_contains(rest, RecordV { name: last, change: c }, rec);
                assert(rec == RecordV { name: rec.name, change: rec.change });
            },
            None => {},
        }
    }
}

/// Law: a snapshot diffed against itself yields no change records.
pub proof fn lemma_diff_self_empty(s: SnapV)
    ensures
        diff_spec(s, s) == Seq::<RecordV>::empty(),
{
    lemma_diff_records_all_none(union_names(s.exports, s.exports), s, s);
}

proof fn lemma_diff_records_all_none(names: Seq<Seq<char>>, a: SnapV, b: SnapV)
    requires
        forall|n: Seq<char>| change_of(n, a, b) is None,
    ensures
        diff_records(names, a, b) == Seq::<RecordV>::empty(),
    decreases names.len(),
{
    if names.len() > 0 {
        lemma_diff_records_all_none(names.subrange(0, names.len() - 1), a, b);
        assert(change_of(names[names.len() - 1], a, b) is None);
    }
}

/// Law: a name reported `Added` when diffing old against new is reported
/// `Removed` when diffing new against old, and vice versa.
pub proof fn lemma_diff_symmetry(a: SnapV, b: SnapV, n: Seq<char>)
    ensures
        diff_spec(a, b).contains(RecordV { name: n, change: ChangeType::Added })
            <==> diff_spec(b, a).contains(RecordV { name: n, change: ChangeType::Removed }),
{
    lemma_diff_records_contains(
        union_names(b.exports, a.exports),
        a,
        b,
        RecordV { name: n, change: ChangeType::Added },
    );
    lemma_diff_records_contains(
        union_names(a.exports, b.exports),
        b,
        a,
        RecordV { name: n, change: ChangeType::Removed },
    );
    lemma_union_names_contains(b.exports, a.exports, n);
    lemma_union_names_contains(a.exports, b.exports, n);
}

/// Law: a name appears in the diff exactly when one of the versions
/// exports it and its recorded bodies differ in presence or content; a
/// name exported by neither version never appears.
pub proof fn lemma_union_completeness(a: SnapV, b: SnapV, n: Seq<char>)
    ensures
        (exists|c: ChangeType| diff_spec(a, b).contains(RecordV { name: n, change: c }))
            <==> ((a.exports.contains(n) || b.exports.contains(n)) && change_of(n, a, b)
            is Some),
{
    lemma_union_names_contains(b.exports, a.exports, n);
    if exists|c: ChangeType| diff_spec(a, b).contains(RecordV { name: n, change: c }) {
        let c = choose|c: ChangeType| diff_spec(a, b).contains(RecordV { name: n, change: c });
        lemma_diff_records_contains(
            union_names(b.exports, a.exports),
            a,
            b,
            RecordV { name: n, change: c },
        );
    }
    if (a.exports.contains(n) || b.exports.contains(n)) && change_of(n, a, b) is Some {
        let c = choose|c: ChangeType| change_of(n, a, b) == Some(c);
        lemma_diff_records_contains(
            union_names(b.exports, a.exports),
            a,
            b,
            RecordV { name: n, change: c },
        );
        assert(diff_spec(a, b).contains(RecordV { name: n, change: c }));
    }
}

} // verus!
