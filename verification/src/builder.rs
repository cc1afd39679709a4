//! Building a dispatch table from a route table and a customizer registry.
//!
//! For each leaf entry reached through a chain of nested entries, the
//! dispatch key is its HTTP method together with the concatenation of the
//! ancestor template prefixes and its own template. The handler reference
//! is registered under that key, tagged with the method customizer the
//! entry names (if any) and with the router customizers of the nested
//! entries it sits under, outermost first.
//!
//! Building validates first: duplicate identifiers within one table abort
//! with a definition error, and a customizer name that the registry does
//! not supply under the required kind aborts with a missing-customizer
//! error. A failed build never yields a partial dispatch table.

use vstd::prelude::*;

use crate::error::{BuildError, BuildErrorModel, DefinitionError, DefinitionErrorModel};
use crate::registry::{lookup, CustomizerKind, CustomizerRegistry};
use crate::table::{
    entry_model, lemma_entries_model_from, table_model, EntryKind, EntryKindModel, EntryModel,
    Method, RouteTable,
};
use vstd::string::StringExecFns;

verus! {

/// The views of a sequence of strings.
pub open spec fn names_view(v: Seq<String>) -> Seq<Seq<char>> {
    Seq::new(v.len(), |i: int| v[i]@)
}

/// Mathematical model of a [`DispatchEntry`].
pub struct DispatchEntryModel {
    pub method: Method,
    pub path: Seq<char>,
    pub handler: Seq<char>,
    pub customize: Option<Seq<char>>,
    pub router_customizers: Seq<Seq<char>>,
}

/// One row of a built dispatch table: the dispatch key (method and concrete
/// path template), the handler reference registered under it, the method
/// customizer wrapping the handler (if any), and the router customizers
/// wrapping the nested routers it is mounted under, outermost first.
#[derive(Debug, Clone, PartialEq, Eq)]
pub struct DispatchEntry {
    pub method: Method,
    pub path: String,
    pub handler: String,
    pub customize: Option<String>,
    pub router_customizers: Vec<String>,
}

impl View for DispatchEntry {
    type V = DispatchEntryModel;

    open spec fn view(&self) -> DispatchEntryModel {
        DispatchEntryModel {
            method: self.method,
            path: self.path@,
            handler: self.handler@,
            customize: crate::table::opt_name(self.customize),
            router_customizers: names_view(self.router_customizers@),
        }
    }
}

/// The built mapping from dispatch keys to handler references, in
/// registration order, ready to be mounted by the external HTTP layer.
#[derive(Debug, PartialEq, Eq)]
pub struct DispatchTable {
    pub entries: Vec<DispatchEntry>,
}

impl View for DispatchTable {
    type V = Seq<DispatchEntryModel>;

    open spec fn view(&self) -> Seq<DispatchEntryModel> {
        Seq::new(self.entries@.len(), |i: int| self.entries@[i]@)
    }
}

/// Whether one of the first `upto` entries of `t` is named `name`.
pub open spec fn name_in(t: Seq<EntryModel>, upto: int, name: Seq<char>) -> bool {
    exists|j: int| 0 <= j < upto && t[j].name == name
}

/// The name of the first entry of `t` at or after position `i` whose name
/// already appears earlier in `t`, if any.
pub open spec fn dup_in_table_from(t: Seq<EntryModel>, i: int) -> Option<Seq<char>>
    decreases t.len() - i,
{
    if i < 0 || i >= t.len() {
        None
    } else if name_in(t, i, t[i].name) {
        Some(t[i].name)
    } else {
        dup_in_table_from(t, i + 1)
    }
}

/// The first duplicated identifier found anywhere in the tree under the
/// entries of `t` from position `i` on: in the child tables of nested
/// entries, in declaration order.
pub open spec fn dup_in_children_from(t: Seq<EntryModel>, i: int) -> Option<Seq<char>>
    decreases t, t.len() - i,
{
    if i < 0 || i >= t.len() {
        None
    } else {
        let rest = dup_in_children_from(t, i + 1);
        match t[i].kind {
            EntryKindModel::Method { .. } => rest,
            EntryKindModel::Nest { table, .. } => match spec_validate(table) {
                Some(n) => Some(n),
                None => rest,
            },
        }
    }
}

/// The first duplicated identifier in the whole tree: duplicates in a table
/// are reported before any found in its child tables.
pub open spec fn spec_validate(t: Seq<EntryModel>) -> Option<Seq<char>>
    decreases t, t.len() + 1,
{
    match dup_in_table_from(t, 0) {
        Some(n) => Some(n),
        None => dup_in_children_from(t, 0),
    }
}

/// The dispatch rows emitted for the entries of `t` from position `i` on,
/// mounted under the accumulated `prefix` and the router customizers
/// `wrappers`, or the first customizer name that `reg` does not supply
/// under the required kind.
pub open spec fn emit_from(
    t: Seq<EntryModel>,
    i: int,
    reg: Seq<(Seq<char>, CustomizerKind)>,
    prefix: Seq<char>,
    wrappers: Seq<Seq<char>>,
) -> Result<Seq<DispatchEntryModel>, Seq<char>>
    decreases t, t.len() - i,
{
    if i < 0 || i >= t.len() {
        Ok(Seq::empty())
    } else {
        match t[i].kind {
            EntryKindModel::Method { method, template, handler, customize } => {
                let ok = match customize {
                    Some(c) => lookup(reg, c) == Some(CustomizerKind::MethodRouter),
                    None => true,
                };
                if !ok {
                    Err(customize->Some_0)
                } else {
                    let row = DispatchEntryModel {
                        method,
                        path: prefix + template.source,
                        handler,
                        customize,
                        router_customizers: wrappers,
                    };
                    match emit_from(t, i + 1, reg, prefix, wrappers) {
                        Err(n) => Err(n),
                        Ok(rest) => Ok(seq![row] + rest),
                    }
                }
            },
            EntryKindModel::Nest { template, table, customize } => {
                let ok = match customize {
                    Some(c) => lookup(reg, c) == Some(CustomizerKind::Router),
                    None => true,
                };
                if !ok {
                    Err(customize->Some_0)
                } else {
                    let wrappers2 = match customize {
                        Some(c) => wrappers.push(c),
                        None => wrappers,
                    };
                    match emit_from(table, 0, reg, prefix + template.source, wrappers2) {
                        Err(n) => Err(n),
                        Ok(sub) => match emit_from(t, i + 1, reg, prefix, wrappers) {
                            Err(n) => Err(n),
                            Ok(rest) => Ok(sub + rest),
                        },
                    }
                }
            },
        }
    }
}

/// What building a table against a registry yields: the dispatch rows in
/// registration order, or the error that aborted the build. Duplicate
/// identifiers abort before any customizer is resolved.
pub open spec fn spec_build(
    t: Seq<EntryModel>,
    reg: Seq<(Seq<char>, CustomizerKind)>,
) -> Result<Seq<DispatchEntryModel>, BuildErrorModel> {
    match spec_validate(t) {
        Some(n) => Err(BuildErrorModel::Definition(DefinitionErrorModel::DuplicateIdentifier(n))),
        None => match emit_from(t, 0, reg, Seq::empty(), Seq::empty()) {
            Err(n) => Err(BuildErrorModel::MissingCustomizer(n)),
            Ok(rows) => Ok(rows),
        },
    }
}

/// Determinism law: building identical route definitions against an
/// identical customizer registry yields identical results — the same
/// dispatch rows in the same order, or the same error. A dispatch table is
/// a pure function of the definitions and the registry, so two builds of
/// equal inputs route every fixed request identically.
pub proof fn lemma_build_deterministic(
    t1: Seq<EntryModel>,
    r1: Seq<(Seq<char>, CustomizerKind)>,
    t2: Seq<EntryModel>,
    r2: Seq<(Seq<char>, CustomizerKind)>,
)
    requires
        t1 == t2,
        r1 == r2,
    ensures
        spec_build(t1, r1) == spec_build(t2, r2),
{
}

/// The name of the first entry of `t` whose identifier already appeared in
/// an earlier entry of the same table, if any.
fn first_duplicate(t: &RouteTable) -> (r: Option<String>)
    ensures
        match r {
            Some(n) => dup_in_table_from(t@, 0) == Some(n@),
            None => dup_in_table_from(t@, 0) is None,
        },
{
    proof {
        lemma_entries_model_from(t.entries@, 0);
    }
    let mut i: usize = 0;
    while i < t.entries.len()
        invariant
            i <= t.entries@.len(),
            t@ == table_model(*t),
            t@.len() == t.entries@.len(),
            forall|k: int| 0 <= k < t.entries@.len() ==> t@[k] == entry_model(t.entries@[k]),
            dup_in_table_from(t@, 0) == dup_in_table_from(t@, i as int),
        decreases t.entries@.len() - i,
    {
        let mut j: usize = 0;
        while j < i
            invariant
                j <= i < t.entries@.len(),
                t@.len() == t.entries@.len(),
                dup_in_table_from(t@, 0) == dup_in_table_from(t@, i as int),
                forall|k: int| 0 <= k < t.entries@.len() ==> t@[k] == entry_model(t.entries@[k]),
                forall|k: int| 0 <= k < j ==> t@[k].name != t@[i as int].name,
            decreases i - j,
        {
            if t.entries[j].name == t.entries[i].name {
                proof {
                    assert(t@[j as int].name == t@[i as int].name);
                    assert(name_in(t@, i as int, t@[i as int].name));
                }
                return Some(t.entries[i].name.clone());
            }
            j += 1;
        }
        proof {
            assert(!name_in(t@, i as int, t@[i as int].name));
        }
        i += 1;
    }
    None
}

/// The first duplicated identifier in the tree under `t`, if any: first in
/// `t` itself, then in the child tables of its nested entries, in order.
fn validate_table(t: &RouteTable) -> (r: Option<String>)
    ensures
        match r {
            Some(n) => spec_validate(t@) == Some(n@),
            None => spec_validate(t@) is None,
        },
    decreases *t,
{
    if let Some(n) = first_duplicate(t) {
        return Some(n);
    }
    proof {
        lemma_entries_model_from(t.entries@, 0);
    }
    let mut i: usize = 0;
    while i < t.entries.len()
        invariant
            i <= t.entries@.len(),
            t@ == table_model(*t),
            t@.len() == t.entries@.len(),
            forall|k: int| 0 <= k < t.entries@.len() ==> t@[k] == entry_model(t.entries@[k]),
            dup_in_table_from(t@, 0) is None,
            dup_in_children_from(t@, 0) == dup_in_children_from(t@, i as int),
        decreases t.entries@.len() - i,
    {
        match &t.entries[i].kind {
            EntryKind::Method { .. } => {},
            EntryKind::Nest { table: child, .. } => {
                proof {
                    assert(t@[i as int].kind == entry_model(t.entries@[i as int]).kind);
                    assert(decreases_to!(*t => *child));
                }
                if let Some(n) = validate_table(child) {
                    return Some(n);
                }
            },
        }
        i += 1;
    }
    None
}

/// Emits the dispatch rows for the entries of `t`, mounted under `prefix`
/// and `wrappers`, resolving customizer names against `reg`; stops at the
/// first name that `reg` does not supply under the required kind.
fn emit_entries(
    t: &RouteTable,
    reg: &CustomizerRegistry,
    prefix: &String,
    wrappers: &Vec<String>,
) -> (r: Result<Vec<DispatchEntry>, String>)
    ensures
        match r {
            Ok(rows) => emit_from(t@, 0, reg@, prefix@, names_view(wrappers@)) == Ok::<
                _,
                Seq<char>,
            >(Seq::new(rows@.len(), |i: int| rows@[i]@)),
            Err(n) => emit_from(t@, 0, reg@, prefix@, names_view(wrappers@)) == Err::<
                Seq<DispatchEntryModel>,
                _,
            >(n@),
        },
    decreases *t,
{
    let ghost tv = t@;
    let ghost regv = reg@;
    let ghost prefixv = prefix@;
    let ghost wrapsv = names_view(wrappers@);
    proof {
        lemma_entries_model_from(t.entries@, 0);
    }
    let mut rows: Vec<DispatchEntry> = Vec::new();
    let mut i: usize = 0;
    proof {
        let r0 = emit_from(tv, 0, regv, prefixv, wrapsv);
        if r0 is Ok {
            assert(Seq::new(rows@.len(), |k: int| rows@[k]@) + r0->Ok_0 =~= r0->Ok_0);
        }
    }
    while i < t.entries.len()
        invariant
            i <= t.entries@.len(),
            tv == t@,
            regv == reg@,
            prefixv == prefix@,
            wrapsv == names_view(wrappers@),
            tv.len() == t.entries@.len(),
            forall|k: int| 0 <= k < t.entries@.len() ==> tv[k] == entry_model(t.entries@[k]),
            emit_from(tv, i as int, regv, prefixv, wrapsv) is Ok ==> emit_from(
                tv,
                0,
                regv,
                prefixv,
                wrapsv,
            ) == Ok::<_, Seq<char>>(
                Seq::new(rows@.len(), |k: int| rows@[k]@) + emit_from(
                    tv,
                    i as int,
                    regv,
                    prefixv,
                    wrapsv,
                )->Ok_0,
            ),
            emit_from(tv, i as int, regv, prefixv, wrapsv) is Err ==> emit_from(
                tv,
                0,
                regv,
                prefixv,
                wrapsv,
            ) == emit_from(tv, i as int, regv, prefixv, wrapsv),
        decreases t.entries@.len() - i,
    {
        let ghost before = Seq::new(rows@.len(), |k: int| rows@[k]@);
        match &t.entries[i].kind {
            EntryKind::Method { method, route, handler, customize } => {
                if let Some(c) = customize {
                    match reg.get(c) {
                        Some(CustomizerKind::MethodRouter) => {},
                        _ => {
                            return Err(c.clone());
                        },
                    }
                }
                let mut path = prefix.clone();
                path.append(route.route.as_str());
                let row = DispatchEntry {
                    method: *method,
                    path,
                    handler: handler.clone(),
                    customize: clone_opt_name(customize),
                    router_customizers: clone_names(wrappers),
                };
                rows.push(row);
                proof {
                    let stepped = emit_from(tv, i as int + 1, regv, prefixv, wrapsv);
                    if stepped is Ok {
                        let rowv = row@;
                        assert(Seq::new(rows@.len(), |k: int| rows@[k]@) =~= before + seq![rowv]);
                        assert(before + (seq![rowv] + stepped->Ok_0) =~= (before + seq![rowv])
                            + stepped->Ok_0);
                    }
                }
            },
            EntryKind::Nest { route, table: child, customize } => {
                let mut sub_prefix = prefix.clone();
                sub_prefix.append(route.route.as_str());
                let mut sub_wrappers = clone_names(wrappers);
                if let Some(c) = customize {
                    match reg.get(c) {
                        Some(CustomizerKind::Router) => {},
                        _ => {
                            return Err(c.clone());
                        },
                    }
                    sub_wrappers.push(c.clone());
                    proof {
                        assert(names_view(sub_wrappers@) =~= wrapsv.push(c@));
                    }
                } else {
                    proof {
                        assert(names_view(sub_wrappers@) =~= wrapsv);
                    }
                }
                proof {
                    assert(decreases_to!(*t => *child));
                }
                match emit_entries(child, reg, &sub_prefix, &sub_wrappers) {
                    Err(n) => {
                        return Err(n);
                    },
                    Ok(mut sub) => {
                        let ghost subv = Seq::new(sub@.len(), |k: int| sub@[k]@);
                        rows.append(&mut sub);
                        proof {
                            let stepped = emit_from(tv, i as int + 1, regv, prefixv, wrapsv);
                            if stepped is Ok {
                                assert(Seq::new(rows@.len(), |k: int| rows@[k]@) =~= before + subv);
                                assert(before + (subv + stepped->Ok_0) =~= (before + subv)
                                    + stepped->Ok_0);
                            }
                        }
                    },
                }
            },
        }
        i += 1;
    }
    proof {
        assert(emit_from(tv, i as int, regv, prefixv, wrapsv) == Ok::<_, Seq<char>>(
            Seq::<DispatchEntryModel>::empty(),
        ));
        assert(Seq::new(rows@.len(), |k: int| rows@[k]@) + Seq::<DispatchEntryModel>::empty()
            =~= Seq::new(rows@.len(), |k: int| rows@[k]@));
    }
    Ok(rows)
}

/// Clones an optional customizer name.
fn clone_opt_name(o: &Option<String>) -> (r: Option<String>)
    ensures
        crate::table::opt_name(r) == crate::table::opt_name(*o),
{
    match o {
        Some(n) => Some(n.clone()),
        None => None,
    }
}

/// Clones a list of names.
pub(crate) fn clone_names(v: &Vec<String>) -> (r: Vec<String>)
    ensures
        names_view(r@) == names_view(v@),
{
    let mut out: Vec<String> = Vec::new();
    let mut i: usize = 0;
    while i < v.len()
        invariant
            i <= v@.len(),
            out@.len() == i,
            forall|k: int| 0 <= k < i ==> out@[k]@ == v@[k]@,
        decreases v@.len() - i,
    {
        out.push(v[i].clone());
        i += 1;
    }
    proof {
        assert(names_view(out@) =~= names_view(v@));
    }
    out
}

/// Builds the dispatch table of `table` against `registry`.
///
/// Validation comes first: a duplicated identifier within any one table of
/// the tree aborts with a definition error. Then the entries are walked in
/// declaration order; every customizer name must be supplied by the
/// registry under the required kind, else the build aborts with a
/// missing-customizer error naming it. On success the rows are exactly the
/// leaf routes of the tree, each keyed by its method and the concatenation
/// of its ancestors' template prefixes with its own template.
pub fn build(table: &RouteTable, registry: &CustomizerRegistry) -> (r: Result<
    DispatchTable,
    BuildError,
>)
    ensures
        match r {
            Ok(dt) => spec_build(table@, registry@) == Ok::<_, BuildErrorModel>(dt@),
            Err(e) => spec_build(table@, registry@) == Err::<Seq<DispatchEntryModel>, _>(e@),
        },
{
    if let Some(n) = validate_table(table) {
        return Err(BuildError::Definition(DefinitionError::DuplicateIdentifier(n)));
    }
    let prefix = String::new();
    let wrappers: Vec<String> = Vec::new();
    proof {
        assert(names_view(wrappers@) =~= Seq::<Seq<char>>::empty());
    }
    match emit_entries(table, registry, &prefix, &wrappers) {
        Ok(rows) => {
            let dt = DispatchTable { entries: rows };
            proof {
                assert(dt@ =~= Seq::new(dt.entries@.len(), |i: int| dt.entries@[i]@));
            }
            Ok(dt)
        },
        Err(n) => Err(BuildError::MissingCustomizer(n)),
    }
}

} // verus!
