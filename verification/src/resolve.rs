//! Reverse resolution: reconstructing a concrete path from a chain of
//! route entries and an ordered list of parameter values.
//!
//! The chain runs from the root of the table tree to a leaf. Each entry's
//! template is walked in order: literal segments are emitted verbatim, and
//! each parameter segment consumes the next value from the front of the
//! parameter queue — values bind to parameter slots positionally, in
//! declaration order across the whole chain, never by name. Running out of
//! values fails with a parameters mismatch; so do values left over after a
//! chain that ends in a method entry. A chain ending in a nested entry
//! yields only the prefix, and leftover values are the business of
//! whichever leaf eventually terminates the chain.
//!
//! Resolution is a pure function of the chain and the values: it touches
//! no shared state and may be invoked concurrently without coordination.

use vstd::prelude::*;

use crate::builder::{clone_names, names_view};
use crate::error::RouteResolverError;
use crate::table::{
    entries_model_from, entry_model, lemma_entries_model_from, EntryKind, EntryKindModel,
    EntryModel, RouteEntry,
};
use crate::template::{Segment, TemplateModel};
use vstd::string::StringExecFns;

verus! {

/// The template an entry mounts or registers, whichever kind it is.
pub open spec fn entry_template(e: EntryModel) -> TemplateModel {
    match e.kind {
        EntryKindModel::Method { template, .. } => template,
        EntryKindModel::Nest { template, .. } => template,
    }
}

/// Whether an entry is a leaf (method) entry.
pub open spec fn entry_is_method(e: EntryModel) -> bool {
    e.kind is Method
}

/// Resolves the segments of one template from position `j` on, against the
/// parameter values of `params` from position `k` on: the emitted text and
/// the position of the first unconsumed value, or `None` when a parameter
/// segment finds the queue exhausted.
pub open spec fn resolve_segments_from(
    segs: Seq<Segment>,
    j: int,
    params: Seq<Seq<char>>,
    k: int,
) -> Option<(Seq<char>, int)>
    decreases segs.len() - j,
{
    if j < 0 || j >= segs.len() {
        Some((Seq::empty(), k))
    } else {
        match segs[j] {
            Segment::Literal(t) => match resolve_segments_from(segs, j + 1, params, k) {
                None => None,
                Some((s, k2)) => Some((t + s, k2)),
            },
            Segment::Parameter(_) => {
                if k < 0 || k >= params.len() {
                    None
                } else {
                    match resolve_segments_from(segs, j + 1, params, k + 1) {
                        None => None,
                        Some((s, k2)) => Some((params[k] + s, k2)),
                    }
                }
            },
        }
    }
}

/// Resolves the templates of the chain entries from position `ci` on,
/// consuming parameter values from position `k` on: the concatenated text
/// and the position of the first unconsumed value, or `None` when the
/// values run out.
pub open spec fn resolve_chain_from(
    chain: Seq<EntryModel>,
    ci: int,
    params: Seq<Seq<char>>,
    k: int,
) -> Option<(Seq<char>, int)>
    decreases chain.len() - ci,
{
    if ci < 0 || ci >= chain.len() {
        Some((Seq::empty(), k))
    } else {
        match resolve_segments_from(entry_template(chain[ci]).segments, 0, params, k) {
            None => None,
            Some((s1, k1)) => match resolve_chain_from(chain, ci + 1, params, k1) {
                None => None,
                Some((s2, k2)) => Some((s1 + s2, k2)),
            },
        }
    }
}

/// What resolving a chain against a list of parameter values yields: the
/// concatenated path, or a parameters mismatch — when the values run out
/// at some parameter slot, or when values are left over after a chain
/// whose last entry is a method entry.
pub open spec fn spec_route_resolver(chain: Seq<EntryModel>, params: Seq<Seq<char>>) -> Result<
    Seq<char>,
    RouteResolverError,
> {
    match resolve_chain_from(chain, 0, params, 0) {
        None => Err(RouteResolverError::ParametersMismatch),
        Some((s, k)) => {
            if chain.len() > 0 && entry_is_method(chain.last()) && k < params.len() {
                Err(RouteResolverError::ParametersMismatch)
            } else {
                Ok(s)
            }
        },
    }
}

/// The state of a partly resolved chain: the text still to be emitted for
/// the current entry's remaining segments and for the remaining entries,
/// with the final position of the parameter queue.
pub open spec fn resolve_rest(
    chain: Seq<EntryModel>,
    ci: int,
    segs: Seq<Segment>,
    j: int,
    params: Seq<Seq<char>>,
    k: int,
) -> Option<(Seq<char>, int)> {
    match resolve_segments_from(segs, j, params, k) {
        None => None,
        Some((s1, k1)) => match resolve_chain_from(chain, ci + 1, params, k1) {
            None => None,
            Some((s2, k2)) => Some((s1 + s2, k2)),
        },
    }
}

/// Resolves a chain of route entries against parameter values, emitting
/// literal segments verbatim and consuming one value from the front of the
/// queue for each parameter segment, across all entries in chain order.
pub fn resolve_route(chain: &Vec<RouteEntry>, params: &Vec<String>) -> (r: Result<
    String,
    RouteResolverError,
>)
    ensures
        match r {
            Ok(s) => spec_route_resolver(entries_model_from(chain@, 0), names_view(params@))
                == Ok::<_, RouteResolverError>(s@),
            Err(e) => spec_route_resolver(entries_model_from(chain@, 0), names_view(params@))
                == Err::<Seq<char>, _>(e),
        },
{
    let ghost chainv = entries_model_from(chain@, 0);
    let ghost pv = names_view(params@);
    proof {
        lemma_entries_model_from(chain@, 0);
    }
    let mut out = String::new();
    let mut k: usize = 0;
    let mut ci: usize = 0;
    proof {
        let full = resolve_chain_from(chainv, 0, pv, 0);
        if full is Some {
            assert(out@ + full->Some_0.0 =~= full->Some_0.0);
        }
    }
    while ci < chain.len()
        invariant
            ci <= chain@.len(),
            k <= params@.len(),
            chainv == entries_model_from(chain@, 0),
            pv == names_view(params@),
            chainv.len() == chain@.len(),
            forall|x: int| 0 <= x < chain@.len() ==> chainv[x] == entry_model(chain@[x]),
            resolve_chain_from(chainv, ci as int, pv, k as int) is Some ==> resolve_chain_from(
                chainv,
                0,
                pv,
                0,
            ) == Some(
                (
                    out@ + resolve_chain_from(chainv, ci as int, pv, k as int)->Some_0.0,
                    resolve_chain_from(chainv, ci as int, pv, k as int)->Some_0.1,
                ),
            ),
            resolve_chain_from(chainv, ci as int, pv, k as int) is None ==> resolve_chain_from(
                chainv,
                0,
                pv,
                0,
            ) is None,
        decreases chain@.len() - ci,
    {
        let components = match &chain[ci].kind {
            EntryKind::Method { route, .. } => &route.components,
            EntryKind::Nest { route, .. } => &route.components,
        };
        let ghost segs = entry_template(chainv[ci as int]).segments;
        assert(segs == crate::template::segments_of(components@));
        let mut j: usize = 0;
        while j < components.len()
            invariant
                ci < chain@.len(),
                j <= components@.len(),
                k <= params@.len(),
                chainv == entries_model_from(chain@, 0),
                pv == names_view(params@),
                chainv.len() == chain@.len(),
                segs == crate::template::segments_of(components@),
                segs.len() == components@.len(),
                forall|x: int| 0 <= x < components@.len() ==> segs[x] == components@[x]@,
                resolve_rest(chainv, ci as int, segs, j as int, pv, k as int) is Some
                    ==> resolve_chain_from(chainv, 0, pv, 0) == Some(
                    (
                        out@ + resolve_rest(chainv, ci as int, segs, j as int, pv, k as int)
                            ->Some_0.0,
                        resolve_rest(chainv, ci as int, segs, j as int, pv, k as int)->Some_0.1,
                    ),
                ),
                resolve_rest(chainv, ci as int, segs, j as int, pv, k as int) is None
                    ==> resolve_chain_from(chainv, 0, pv, 0) is None,
            decreases components@.len() - j,
        {
            match &components[j] {
                crate::template::RouteComponent::Path(text) => {
                    let ghost out0 = out@;
                    out.append(text.as_str());
                    proof {
                        let rest = resolve_rest(chainv, ci as int, segs, j as int + 1, pv, k as int);
                        if rest is Some {
                            assert(out@ + rest->Some_0.0 =~= out0 + (text@ + rest->Some_0.0));
                        }
                    }
                },
                crate::template::RouteComponent::Parameter(_) => {
                    if k >= params.len() {
                        return Err(RouteResolverError::ParametersMismatch);
                    }
                    let value = &params[k];
                    assert(value@ == pv[k as int]);
                    let ghost out0 = out@;
                    out.append(value.as_str());
                    k += 1;
                    proof {
                        let rest = resolve_rest(chainv, ci as int, segs, j as int + 1, pv, k as int);
                        if rest is Some {
                            assert(out@ + rest->Some_0.0 =~= out0 + (value@ + rest->Some_0.0));
                        }
                    }
                },
            }
            j += 1;
        }
        proof {
            assert(resolve_segments_from(segs, j as int, pv, k as int) == Some(
                (Seq::<char>::empty(), k as int),
            ));
            let rest = resolve_chain_from(chainv, ci as int + 1, pv, k as int);
            if rest is Some {
                assert(Seq::<char>::empty() + rest->Some_0.0 =~= rest->Some_0.0);
            }
        }
        ci += 1;
    }
    proof {
        assert(resolve_chain_from(chainv, ci as int, pv, k as int) == Some(
            (Seq::<char>::empty(), k as int),
        ));
        assert(out@ + Seq::<char>::empty() =~= out@);
    }
    if chain.len() > 0 {
        let is_method = match &chain[chain.len() - 1].kind {
            EntryKind::Method { .. } => true,
            EntryKind::Nest { .. } => false,
        };
        if is_method && k < params.len() {
            return Err(RouteResolverError::ParametersMismatch);
        }
    }
    Ok(out)
}

/// A source of parameter values for reverse resolution. The values are
/// consumed positionally, so all a source supplies is the ordered list of
/// their string renderings.
pub trait RouteParameters {
    /// The values this source supplies, in order.
    spec fn param_view(&self) -> Seq<Seq<char>>;

    /// Produces the values, in order.
    fn parameters(&self) -> (r: Vec<String>)
        ensures
            names_view(r@) == self.param_view(),
    ;
}

impl RouteParameters for () {
    open spec fn param_view(&self) -> Seq<Seq<char>> {
        Seq::empty()
    }

    fn parameters(&self) -> (r: Vec<String>) {
        let r: Vec<String> = Vec::new();
        proof {
            assert(names_view(r@) =~= Seq::<Seq<char>>::empty());
        }
        r
    }
}

impl RouteParameters for Vec<String> {
    open spec fn param_view(&self) -> Seq<Seq<char>> {
        names_view(self@)
    }

    fn parameters(&self) -> (r: Vec<String>) {
        clone_names(self)
    }
}

/// Resolves the given chain of route entries with the given parameters:
/// the concatenated path on success, or a parameters mismatch when the
/// values are too few for the chain's parameter slots, or too many for a
/// chain ending in a method entry.
pub fn route_resolver<P: RouteParameters>(chain: &Vec<RouteEntry>, params: P) -> (r: Result<
    String,
    RouteResolverError,
>)
    ensures
        match r {
            Ok(s) => spec_route_resolver(entries_model_from(chain@, 0), params.param_view())
                == Ok::<_, RouteResolverError>(s@),
            Err(e) => spec_route_resolver(entries_model_from(chain@, 0), params.param_view())
                == Err::<Seq<char>, _>(e),
        },
{
    let values = params.parameters();
    resolve_route(chain, &values)
}

} // verus!
