use vstd::prelude::*;

use crate::model::{
    ConfigDocument, CtxView, DetailsView, DocView, ctx_exists, find_idx, from_parse,
    lemma_find_idx, lemma_find_idx_exists, parsed_details_rest, parsed_entry_rest,
};

verus! {

/// Why a mutation was refused: the document is left untouched in every one of
/// these cases.
#[derive(Clone, Copy, PartialEq, Eq, Structural, Debug)]
pub enum RejectReason {
    /// No entry of the context list carries the requested name.
    UnknownContext,
    /// No context is selected, so there is nothing to set a namespace on.
    NoCurrentContext,
    /// The selected context resolves to no usable entry: either no entry
    /// carries its name, or the first such entry has no details to mutate.
    MalformedContext,
}

/// The outcome of one mutation: the document was already in the requested
/// state, was mutated in place, or was refused and left untouched.
#[derive(Clone, Copy, PartialEq, Eq, Structural, Debug)]
pub enum Outcome {
    NoOp,
    Applied,
    Rejected(RejectReason),
}

/// The document and outcome that switching the selected context to `n` must
/// produce: no change when `n` is already selected, a refusal when no entry
/// carries `n`, and otherwise only the selection changes.
pub open spec fn switch_context_result(v: DocView, n: Seq<char>) -> (DocView, Outcome) {
    if v.current_context == Some(n) {
        (v, Outcome::NoOp)
    } else if find_idx(v.contexts, n) == -1 {
        (v, Outcome::Rejected(RejectReason::UnknownContext))
    } else {
        (
            DocView { current_context: Some(n), contexts: v.contexts, rest: v.rest },
            Outcome::Applied,
        )
    }
}

/// The document and outcome that setting the selected context's namespace to
/// `ns` must produce: a refusal when no context is selected or the selected
/// one resolves to no details, no change when the namespace is already `ns`,
/// and otherwise exactly the first entry carrying the selected name changes,
/// and only in its namespace.
pub open spec fn set_namespace_result(v: DocView, ns: Seq<char>) -> (DocView, Outcome) {
    match v.current_context {
        None => (v, Outcome::Rejected(RejectReason::NoCurrentContext)),
        Some(cur) => {
            let i = find_idx(v.contexts, cur);
            if i == -1 {
                (v, Outcome::Rejected(RejectReason::MalformedContext))
            } else {
                match v.contexts[i].context {
                    None => (v, Outcome::Rejected(RejectReason::MalformedContext)),
                    Some(d) => {
                        if d.namespace == Some(ns) {
                            (v, Outcome::NoOp)
                        } else {
                            (
                                DocView {
                                    current_context: v.current_context,
                                    contexts: v.contexts.update(
                                        i,
                                        CtxView {
                                            name: v.contexts[i].name,
                                            context: Some(
                                                DetailsView { namespace: Some(ns), rest: d.rest },
                                            ),
                                            rest: v.contexts[i].rest,
                                        },
                                    ),
                                    rest: v.rest,
                                },
                                Outcome::Applied,
                            )
                        }
                    },
                }
            }
        },
    }
}

/// Switches the selected context to `target`.
pub fn switch_context(doc: &mut ConfigDocument, target: &String) -> (r: Outcome)
    ensures
        final(doc)@ == switch_context_result(old(doc)@, target@).0,
        r == switch_context_result(old(doc)@, target@).1,
{
    let already = match &doc.current_context {
        Some(cur) => *cur == *target,
        None => false,
    };
    if already {
        return Outcome::NoOp;
    }
    if !doc.context_exists(target) {
        proof {
            lemma_find_idx_exists(doc@.contexts, target@);
        }
        return Outcome::Rejected(RejectReason::UnknownContext);
    }
    proof {
        lemma_find_idx_exists(doc@.contexts, target@);
    }
    doc.current_context = Some(target.clone());
    Outcome::Applied
}

/// Sets the namespace of the selected context to `namespace`.
pub fn set_namespace(doc: &mut ConfigDocument, namespace: &String) -> (r: Outcome)
    ensures
        final(doc)@ == set_namespace_result(old(doc)@, namespace@).0,
        r == set_namespace_result(old(doc)@, namespace@).1,
{
    let current = match &doc.current_context {
        Some(cur) => cur.clone(),
        None => {
            return Outcome::Rejected(RejectReason::NoCurrentContext);
        },
    };
    let i = match doc.find_context_index(&current) {
        Some(i) => i,
        None => {
            return Outcome::Rejected(RejectReason::MalformedContext);
        },
    };
    proof {
        lemma_find_idx(doc@.contexts, current@);
    }
    let already = match &doc.contexts[i].context {
        None => {
            return Outcome::Rejected(RejectReason::MalformedContext);
        },
        Some(d) => {
            match &d.namespace {
                Some(ns) => *ns == *namespace,
                None => false,
            }
        },
    };
    if already {
        return Outcome::NoOp;
    }
    let entry = &mut doc.contexts[i];
    match &mut entry.context {
        Some(d) => {
            d.namespace = Some(namespace.clone());
        },
        None => {},
    }
    proof {
        assert(doc@.contexts =~= set_namespace_result(old(doc)@, namespace@).0.contexts);
    }
    Outcome::Applied
}

/// Two sequences of entries whose names agree pointwise resolve every name to
/// the same first index.
proof fn lemma_find_idx_same_names(s1: Seq<CtxView>, s2: Seq<CtxView>, name: Seq<char>)
    requires
        s1.len() == s2.len(),
        forall|j: int| 0 <= j < s1.len() ==> s1[j].name == s2[j].name,
    ensures
        find_idx(s1, name) == find_idx(s2, name),
    decreases s1.len(),
{
    if s1.len() != 0 {
        assert(forall|j: int|
            0 <= j < s1.drop_first().len() ==> s1.drop_first()[j].name == s2.drop_first()[
                j
            ].name);
        lemma_find_idx_same_names(s1.drop_first(), s2.drop_first(), name);
    }
}

/// Switching to a context that the document has is idempotent: a second
/// switch to the same name changes nothing and reports that there was
/// nothing to do.
pub proof fn lemma_switch_context_idempotent(v: DocView, n: Seq<char>)
    requires
        ctx_exists(v.contexts, n),
    ensures
        switch_context_result(switch_context_result(v, n).0, n).0 == switch_context_result(
            v,
            n,
        ).0,
        switch_context_result(switch_context_result(v, n).0, n).1 == Outcome::NoOp,
{
    lemma_find_idx_exists(v.contexts, n);
}

/// Setting a namespace is idempotent: a second application to the document
/// the first one produced changes nothing, reports that there was nothing to
/// do when the first application did its work, and repeats the refusal when
/// the first application was refused.
pub proof fn lemma_set_namespace_idempotent(v: DocView, ns: Seq<char>)
    ensures
        set_namespace_result(set_namespace_result(v, ns).0, ns).0 == set_namespace_result(
            v,
            ns,
        ).0,
        !(set_namespace_result(v, ns).1 is Rejected) ==> set_namespace_result(
            set_namespace_result(v, ns).0,
            ns,
        ).1 == Outcome::NoOp,
        set_namespace_result(v, ns).1 is Rejected ==> set_namespace_result(
            set_namespace_result(v, ns).0,
            ns,
        ).1 == set_namespace_result(v, ns).1,
{
    if set_namespace_result(v, ns).1 == Outcome::Applied {
        let cur = v.current_context->0;
        let i = find_idx(v.contexts, cur);
        let v1 = set_namespace_result(v, ns).0;
        lemma_find_idx(v.contexts, cur);
        lemma_find_idx_same_names(v.contexts, v1.contexts, cur);
    }
}

/// With no context selected, setting a namespace is always refused for that
/// reason, and the document comes through unchanged.
pub proof fn lemma_set_namespace_no_current(v: DocView, ns: Seq<char>)
    requires
        v.current_context is None,
    ensures
        set_namespace_result(v, ns) == (v, Outcome::Rejected(RejectReason::NoCurrentContext)),
{
}

/// Switching to a name that no entry of the document carries, and that is not
/// already selected, is refused as unknown, and the document comes through
/// unchanged.
pub proof fn lemma_switch_unknown_context(v: DocView, n: Seq<char>)
    requires
        !ctx_exists(v.contexts, n),
        v.current_context != Some(n),
    ensures
        switch_context_result(v, n) == (v, Outcome::Rejected(RejectReason::UnknownContext)),
{
    lemma_find_idx_exists(v.contexts, n);
}

/// Switching the selected context touches no opaque remainder, so a document
/// whose remainders came out of a parse still has only such remainders
/// afterwards, and `dump`'s re-parse clause keeps applying to it.
pub proof fn lemma_switch_context_preserves_parse(v: DocView, n: Seq<char>)
    requires
        from_parse(v),
    ensures
        from_parse(switch_context_result(v, n).0),
{
}

/// Setting a namespace touches no opaque remainder either: the one entry it
/// rewrites keeps its own remainder and its details' remainder, so the
/// parsed-remainder property survives, and `dump`'s re-parse clause keeps
/// applying to the mutated document.
pub proof fn lemma_set_namespace_preserves_parse(v: DocView, ns: Seq<char>)
    requires
        from_parse(v),
    ensures
        from_parse(set_namespace_result(v, ns).0),
{
    let v1 = set_namespace_result(v, ns).0;
    if v1 != v {
        let cur = v.current_context->0;
        let i = find_idx(v.contexts, cur);
        lemma_find_idx(v.contexts, cur);
        assert forall|j: int| 0 <= j < v1.contexts.len() implies parsed_entry_rest(
            #[trigger] v1.contexts[j].rest,
        ) by {
            assert(v1.contexts[j].rest == v.contexts[j].rest);
        }
        assert forall|j: int| 0 <= j < v1.contexts.len() implies match (#[trigger] v1.contexts[j]).context {
            Some(d) => parsed_details_rest(d.rest),
            None => true,
        } by {
            if j != i {
                assert(v1.contexts[j] == v.contexts[j]);
            } else {
                assert(v1.contexts[i].context->0.rest == v.contexts[i].context->0.rest);
            }
        }
    }
}

} // verus!
