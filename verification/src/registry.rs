//! The customizer registry: a name-keyed collection of user-supplied
//! wrapper callables, resolved once at build time.
//!
//! The callables themselves wrap values of the embedding HTTP layer, which
//! the core never inspects. The core therefore records, for each name, only
//! which kind of customizer the application supplies under it; the
//! application keeps the callables and applies them when it mounts the
//! built dispatch table.

use vstd::prelude::*;

verus! {

/// The kind of a registered customizer: one that wraps a whole nested
/// router before it is mounted, or one that wraps a single method route.
#[derive(Debug, Clone, Copy, PartialEq, Eq, Structural)]
pub enum CustomizerKind {
    Router,
    MethodRouter,
}

/// A name-keyed registry of customizers, populated by the embedding
/// application before `build` runs and read-only afterwards. Names are
/// meant to be unique; lookup takes the earliest registration of a name.
pub struct CustomizerRegistry {
    pub entries: Vec<(String, CustomizerKind)>,
}

impl View for CustomizerRegistry {
    type V = Seq<(Seq<char>, CustomizerKind)>;

    open spec fn view(&self) -> Seq<(Seq<char>, CustomizerKind)> {
        Seq::new(self.entries@.len(), |i: int| (self.entries@[i].0@, self.entries@[i].1))
    }
}

/// The kind registered under `name` at or after position `i`: the earliest
/// match, or `None` if the registry does not supply the name.
pub open spec fn lookup_from(
    reg: Seq<(Seq<char>, CustomizerKind)>,
    name: Seq<char>,
    i: int,
) -> Option<CustomizerKind>
    decreases reg.len() - i,
{
    if i < 0 || i >= reg.len() {
        None
    } else if reg[i].0 == name {
        Some(reg[i].1)
    } else {
        lookup_from(reg, name, i + 1)
    }
}

/// The kind registered under `name`, or `None` if the registry does not
/// supply the name.
pub open spec fn lookup(reg: Seq<(Seq<char>, CustomizerKind)>, name: Seq<char>) -> Option<
    CustomizerKind,
> {
    lookup_from(reg, name, 0)
}

impl CustomizerRegistry {
    /// An empty registry.
    pub fn new() -> (r: CustomizerRegistry)
        ensures
            r@ == Seq::<(Seq<char>, CustomizerKind)>::empty(),
    {
        let r = CustomizerRegistry { entries: Vec::new() };
        proof {
            assert(r@ =~= Seq::<(Seq<char>, CustomizerKind)>::empty());
        }
        r
    }

    /// Registers a customizer of the given kind under `name`.
    pub fn register(&mut self, name: String, kind: CustomizerKind)
        ensures
            final(self)@ == old(self)@.push((name@, kind)),
    {
        let ghost pair = (name@, kind);
        self.entries.push((name, kind));
        proof {
            assert(self@ =~= old(self)@.push(pair));
        }
    }

    /// Looks a name up, returning the kind registered under it, if any.
    pub fn get(&self, name: &String) -> (r: Option<CustomizerKind>)
        ensures
            r == lookup(self@, name@),
    {
        let mut i: usize = 0;
        while i < self.entries.len()
            invariant
                i <= self.entries@.len(),
                self@.len() == self.entries@.len(),
                lookup(self@, name@) == lookup_from(self@, name@, i as int),
            decreases self.entries@.len() - i,
        {
            if self.entries[i].0 == *name {
                return Some(self.entries[i].1);
            }
            i += 1;
        }
        None
    }
}

} // verus!
