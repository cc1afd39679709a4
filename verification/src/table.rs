//! The route-table data model: entries, kinds, and tables.
//!
//! A table is an ordered collection of named entries; an entry is either a
//! leaf (an HTTP method, a template, and a handler reference) or a nested
//! reference (a template prefix and a child table). Tables own their child
//! tables outright, so the whole structure is a tree. Handler references
//! and customizer names are opaque strings here: the core never inspects
//! what they denote, it only forwards them.

use vstd::prelude::*;

use crate::template::{Route, TemplateModel};

verus! {

/// The HTTP methods an entry can register, plus `Any` for a catch-all.
#[derive(Debug, Clone, Copy, PartialEq, Eq, Structural)]
pub enum Method {
    Get,
    Post,
    Delete,
    Put,
    Head,
    Options,
    Trace,
    Patch,
    Any,
}

/// The name an optional customizer reference denotes.
pub open spec fn opt_name(o: Option<String>) -> Option<Seq<char>> {
    match o {
        Some(n) => Some(n@),
        None => None,
    }
}

/// Mathematical model of an [`EntryKind`].
pub enum EntryKindModel {
    Method {
        method: Method,
        template: TemplateModel,
        handler: Seq<char>,
        customize: Option<Seq<char>>,
    },
    Nest { template: TemplateModel, table: Seq<EntryModel>, customize: Option<Seq<char>> },
}

/// Mathematical model of a [`RouteEntry`].
pub struct EntryModel {
    pub name: Seq<char>,
    pub kind: EntryKindModel,
}

/// What a route entry declares: a method route with a handler reference, or
/// a nested child table mounted under a template prefix. Either kind may
/// name a customizer to wrap what it registers.
#[derive(Debug, PartialEq, Eq)]
pub enum EntryKind {
    Method { method: Method, route: Route, handler: String, customize: Option<String> },
    Nest { route: Route, table: RouteTable, customize: Option<String> },
}

/// One declared unit of a route table: a unique identifier plus its kind.
#[derive(Debug, PartialEq, Eq)]
pub struct RouteEntry {
    pub name: String,
    pub kind: EntryKind,
}

/// An ordered collection of route entries, possibly containing nested child
/// tables. Identifiers are meant to be unique per table; building checks
/// that and rejects duplicates.
#[derive(Debug, PartialEq, Eq)]
pub struct RouteTable {
    pub entries: Vec<RouteEntry>,
}

/// The model of an entry: its name and, recursively, its kind.
pub open spec fn entry_model(e: RouteEntry) -> EntryModel
    decreases e, 0int,
{
    EntryModel {
        name: e.name@,
        kind: match e.kind {
            EntryKind::Method { method, route, handler, customize } => EntryKindModel::Method {
                method,
                template: route@,
                handler: handler@,
                customize: opt_name(customize),
            },
            EntryKind::Nest { route, table, customize } => EntryKindModel::Nest {
                template: route@,
                table: table_model(table),
                customize: opt_name(customize),
            },
        },
    }
}

/// The models of the entries of `es` from position `i` on, in order.
pub open spec fn entries_model_from(es: Seq<RouteEntry>, i: int) -> Seq<EntryModel>
    decreases es, es.len() - i,
{
    if i < 0 || i >= es.len() {
        Seq::empty()
    } else {
        seq![entry_model(es[i])] + entries_model_from(es, i + 1)
    }
}

/// The model of a table: the models of its entries, in declaration order.
pub open spec fn table_model(t: RouteTable) -> Seq<EntryModel>
    decreases t, 0int,
{
    entries_model_from(t.entries@, 0)
}

/// The table model lists one entry model per entry, in order.
pub proof fn lemma_entries_model_from(es: Seq<RouteEntry>, i: int)
    requires
        0 <= i <= es.len(),
    ensures
        entries_model_from(es, i).len() == es.len() - i,
        forall|k: int|
            i <= k < es.len() ==> entries_model_from(es, i)[k - i] == entry_model(es[k]),
    decreases es.len() - i,
{
    if i < es.len() {
        lemma_entries_model_from(es, i + 1);
    }
}

impl View for RouteEntry {
    type V = EntryModel;

    open spec fn view(&self) -> EntryModel {
        entry_model(*self)
    }
}

impl View for RouteTable {
    type V = Seq<EntryModel>;

    open spec fn view(&self) -> Seq<EntryModel> {
        table_model(*self)
    }
}

/// First entry named `name` in `t` at or after position `i`, if any.
pub open spec fn find_entry_from(t: Seq<EntryModel>, name: Seq<char>, i: int) -> Option<EntryModel>
    decreases t.len() - i,
{
    if i < 0 || i >= t.len() {
        None
    } else if t[i].name == name {
        Some(t[i])
    } else {
        find_entry_from(t, name, i + 1)
    }
}

/// First entry named `name` in `t`, if any.
pub open spec fn find_entry(t: Seq<EntryModel>, name: Seq<char>) -> Option<EntryModel> {
    find_entry_from(t, name, 0)
}

impl RouteEntry {
    /// Declares a leaf entry: `method` on `route`, handled by the handler
    /// reference `handler`, optionally wrapped by the named customizer.
    pub fn method(
        name: String,
        method: Method,
        route: Route,
        handler: String,
        customize: Option<String>,
    ) -> (r: RouteEntry)
        ensures
            r@ == (EntryModel {
                name: name@,
                kind: EntryKindModel::Method {
                    method,
                    template: route@,
                    handler: handler@,
                    customize: opt_name(customize),
                },
            }),
    {
        RouteEntry { name, kind: EntryKind::Method { method, route, handler, customize } }
    }

    /// Declares a nested entry: the child `table` mounted under the
    /// template prefix `route`, optionally wrapped by the named customizer.
    pub fn nest(name: String, route: Route, table: RouteTable, customize: Option<String>) -> (r:
        RouteEntry)
        ensures
            r@ == (EntryModel {
                name: name@,
                kind: EntryKindModel::Nest {
                    template: route@,
                    table: table@,
                    customize: opt_name(customize),
                },
            }),
    {
        RouteEntry { name, kind: EntryKind::Nest { route, table, customize } }
    }
}

impl RouteTable {
    /// Collects entries, in declaration order, into a table.
    pub fn new(entries: Vec<RouteEntry>) -> (r: RouteTable)
        ensures
            r@ == entries_model_from(entries@, 0),
            r@.len() == entries@.len(),
            forall|k: int| 0 <= k < entries@.len() ==> r@[k] == entry_model(entries@[k]),
    {
        proof {
            lemma_entries_model_from(entries@, 0);
        }
        RouteTable { entries }
    }

    /// Looks an entry up by its identifier; returns the first entry with
    /// that name, or `None` if the table declares none.
    pub fn get(&self, name: &String) -> (r: Option<&RouteEntry>)
        ensures
            match r {
                Some(e) => find_entry(self@, name@) == Some(e@),
                None => find_entry(self@, name@) is None,
            },
    {
        proof {
            lemma_entries_model_from(self.entries@, 0);
        }
        let mut i: usize = 0;
        while i < self.entries.len()
            invariant
                i <= self.entries@.len(),
                self@ == table_model(*self),
                self@.len() == self.entries@.len(),
                forall|k: int|
                    0 <= k < self.entries@.len() ==> self@[k] == entry_model(self.entries@[k]),
                find_entry(self@, name@) == find_entry_from(self@, name@, i as int),
            decreases self.entries@.len() - i,
        {
            if self.entries[i].name == *name {
                return Some(&self.entries[i]);
            }
            i += 1;
        }
        None
    }
}

} // verus!
