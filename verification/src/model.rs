use vstd::prelude::*;

verus! {

// The parts of the on-disk configuration that this engine never interprets
// (cluster references, user credentials, extensions, unrecognized keys) are
// carried through load -> mutate -> save as opaque values of kube's own
// configuration types, so that nothing is lost on a rewrite.

#[verifier::external_type_specification]
#[verifier::external_body]
pub struct ExKubeconfig(kube::config::Kubeconfig);

#[verifier::external_type_specification]
#[verifier::external_body]
pub struct ExNamedContext(kube::config::NamedContext);

#[verifier::external_type_specification]
#[verifier::external_body]
pub struct ExContext(kube::config::Context);

/// The details of one context that the engine can read and write: its default
/// namespace. Everything else the entry carried stays opaque in `rest`.
pub struct ContextDetails {
    /// The default namespace for commands issued under this context; `None`
    /// means the cluster's default namespace.
    pub namespace: Option<String>,
    /// The rest of the entry's details (cluster reference, user reference,
    /// extensions, unknown keys), preserved verbatim. Its own namespace field
    /// is superseded by `namespace` when the document is written back.
    pub rest: kube::config::Context,
}

/// One entry of the document's context list: a name and, when the entry is
/// well formed, its details.
pub struct ContextEntry {
    /// The lookup key. Names are not guaranteed unique; the first entry with a
    /// given name is authoritative.
    pub name: String,
    /// `None` when the entry carries no details object at all (a malformed
    /// entry, tolerated on read).
    pub context: Option<ContextDetails>,
    /// Unrecognized keys of the entry itself, preserved verbatim. Its own
    /// name and details fields are superseded when the document is written.
    pub rest: kube::config::NamedContext,
}

/// The in-memory form of the configuration document.
pub struct ConfigDocument {
    /// The name of the selected context; `None` means no context is selected.
    pub current_context: Option<String>,
    /// The context list, in document order; order is preserved on write.
    pub contexts: Vec<ContextEntry>,
    /// Every top-level part of the document the engine does not interpret
    /// (clusters, users, preferences, extensions, unknown keys), preserved
    /// verbatim. Its own context list and current-context are superseded when
    /// the document is written back.
    pub rest: kube::config::Kubeconfig,
}

/// Mathematical value of `ContextDetails`.
pub ghost struct DetailsView {
    pub namespace: Option<Seq<char>>,
    pub rest: kube::config::Context,
}

/// Mathematical value of `ContextEntry`.
pub ghost struct CtxView {
    pub name: Seq<char>,
    pub context: Option<DetailsView>,
    pub rest: kube::config::NamedContext,
}

/// Mathematical value of `ConfigDocument`.
pub ghost struct DocView {
    pub current_context: Option<Seq<char>>,
    pub contexts: Seq<CtxView>,
    pub rest: kube::config::Kubeconfig,
}

impl View for ContextDetails {
    type V = DetailsView;

    open spec fn view(&self) -> DetailsView {
        DetailsView {
            namespace: match self.namespace {
                Some(s) => Some(s@),
                None => None,
            },
            rest: self.rest,
        }
    }
}

impl View for ContextEntry {
    type V = CtxView;

    open spec fn view(&self) -> CtxView {
        CtxView {
            name: self.name@,
            context: match self.context {
                Some(d) => Some(d@),
                None => None,
            },
            rest: self.rest,
        }
    }
}

impl View for ConfigDocument {
    type V = DocView;

    open spec fn view(&self) -> DocView {
        DocView {
            current_context: match self.current_context {
                Some(s) => Some(s@),
                None => None,
            },
            contexts: self.contexts@.map_values(|c: ContextEntry| c@),
            rest: self.rest,
        }
    }
}

/// The index of the first entry named `name`, or `-1` when there is none.
pub open spec fn find_idx(s: Seq<CtxView>, name: Seq<char>) -> int
    decreases s.len(),
{
    if s.len() == 0 {
        -1
    } else if s[0].name == name {
        0
    } else {
        let r = find_idx(s.drop_first(), name);
        if r == -1 {
            -1
        } else {
            r + 1
        }
    }
}

/// Whether some entry of `s` is named `name`.
pub open spec fn ctx_exists(s: Seq<CtxView>, name: Seq<char>) -> bool {
    exists|i: int| 0 <= i < s.len() && s[i].name == name
}

/// `find_idx` points at the first entry with the given name, and is `-1`
/// exactly when no entry has it.
pub proof fn lemma_find_idx(s: Seq<CtxView>, name: Seq<char>)
    ensures
        find_idx(s, name) == -1 ==> forall|j: int| 0 <= j < s.len() ==> s[j].name != name,
        find_idx(s, name) != -1 ==> {
            &&& 0 <= find_idx(s, name) < s.len()
            &&& s[find_idx(s, name)].name == name
            &&& forall|j: int| 0 <= j < find_idx(s, name) ==> s[j].name != name
        },
    decreases s.len(),
{
    if s.len() != 0 && s[0].name != name {
        lemma_find_idx(s.drop_first(), name);
        let r = find_idx(s.drop_first(), name);
        assert(forall|j: int| 1 <= j < s.len() ==> s[j] == s.drop_first()[j - 1]);
    }
}

/// `find_idx` and `ctx_exists` agree: an entry with the name exists exactly
/// when `find_idx` points somewhere.
pub proof fn lemma_find_idx_exists(s: Seq<CtxView>, name: Seq<char>)
    ensures
        ctx_exists(s, name) <==> find_idx(s, name) != -1,
{
    lemma_find_idx(s, name);
    if ctx_exists(s, name) && find_idx(s, name) == -1 {
        let i = choose|i: int| 0 <= i < s.len() && s[i].name == name;
        assert(s[i].name != name);
    }
}

impl ConfigDocument {
    /// The index of the first entry of the context list named `name`.
    pub(crate) fn find_context_index(&self, name: &String) -> (r: Option<usize>)
        ensures
            match r {
                Some(i) => i == find_idx(self@.contexts, name@),
                None => find_idx(self@.contexts, name@) == -1,
            },
    {
        proof {
            lemma_find_idx(self@.contexts, name@);
        }
        let n = self.contexts.len();
        let mut i: usize = 0;
        while i < n
            invariant
                i <= n,
                n == self@.contexts.len(),
                forall|j: int| 0 <= j < i ==> self@.contexts[j].name != name@,
            decreases n - i,
        {
            if self.contexts[i].name == *name {
                proof {
                    let s = self@.contexts;
                    assert(s[i as int].name == name@);
                    lemma_find_idx(s, name@);
                    assert(find_idx(s, name@) != -1);
                    assert(!(find_idx(s, name@) < i)) by {
                        if find_idx(s, name@) < i {
                            assert(s[find_idx(s, name@)].name != name@);
                        }
                    };
                    assert(!(find_idx(s, name@) > i)) by {
                        if find_idx(s, name@) > i {
                            assert(s[i as int].name != name@);
                        }
                    };
                }
                return Some(i);
            }
            i += 1;
        }
        None
    }

    /// The first entry of the context list named `name`, if any: the entry
    /// every operation treats as authoritative for that name.
    pub fn find_context(&self, name: &String) -> (r: Option<&ContextEntry>)
        ensures
            match r {
                Some(c) => find_idx(self@.contexts, name@) != -1
                    && c@ == self@.contexts[find_idx(self@.contexts, name@)],
                None => find_idx(self@.contexts, name@) == -1,
            },
    {
        match self.find_context_index(name) {
            Some(i) => {
                proof {
                    lemma_find_idx(self@.contexts, name@);
                }
                Some(&self.contexts[i])
            },
            None => None,
        }
    }

    /// Whether any entry of the context list is named `name`.
    pub fn context_exists(&self, name: &String) -> (r: bool)
        ensures
            r == ctx_exists(self@.contexts, name@),
    {
        proof {
            lemma_find_idx_exists(self@.contexts, name@);
        }
        self.find_context_index(name).is_some()
    }

    /// The details of the selected context, resolved through
    /// `current_context` and then the first matching entry.
    pub fn current_context_details(&self) -> (r: Option<&ContextDetails>)
        ensures
            match r {
                Some(d) => current_details(self@) == Some(d@),
                None => current_details(self@) is None,
            },
    {
        match &self.current_context {
            None => None,
            Some(cur) => {
                match self.find_context_index(cur) {
                    None => None,
                    Some(i) => {
                        proof {
                            lemma_find_idx(self@.contexts, cur@);
                        }
                        match &self.contexts[i].context {
                            None => None,
                            Some(d) => Some(d),
                        }
                    },
                }
            },
        }
    }
}

/// The details the selected context resolves to: `None` when no context is
/// selected, when no entry carries the selected name, or when the first such
/// entry has no details.
pub open spec fn current_details(v: DocView) -> Option<DetailsView> {
    match v.current_context {
        None => None,
        Some(cur) => {
            let i = find_idx(v.contexts, cur);
            if i == -1 {
                None
            } else {
                v.contexts[i].context
            }
        },
    }
}

/// The interpreted content of one context entry: its name, and its namespace
/// when it carries details (`None` for an entry without details, `Some(ns)`
/// for one with details whose namespace is `ns`).
pub ghost struct CtxShape {
    pub name: Seq<char>,
    pub namespace: Option<Option<Seq<char>>>,
}

/// The interpreted content of a document: everything the engine reads or
/// writes, with the opaque remainders left out. Two documents of equal shape
/// are treated alike by every operation of this library.
pub ghost struct DocShape {
    pub current_context: Option<Seq<char>>,
    pub contexts: Seq<CtxShape>,
}

/// The interpreted content of one entry.
pub open spec fn ctx_shape(c: CtxView) -> CtxShape {
    CtxShape {
        name: c.name,
        namespace: match c.context {
            None => None,
            Some(d) => Some(d.namespace),
        },
    }
}

/// The interpreted content of a document, in document order.
pub open spec fn shape_of(v: DocView) -> DocShape {
    DocShape {
        current_context: v.current_context,
        contexts: v.contexts.map_values(|c: CtxView| ctx_shape(c)),
    }
}

// A document's opaque remainders may in principle be built by hand with
// unknown-key maps whose flattened keys collide with the fields the model
// interprets; serializing such a value emits a duplicate or stray key that
// changes what a re-parse sees. A remainder that itself came out of a parse
// can never be in that state, because parsing routes every modeled key into
// its typed field and refuses duplicates. The three predicates below name
// that provenance; only the parse wrappers establish them, and the mutation
// engine preserves them because it never touches a remainder.

/// Holds of a top-level remainder that came out of a parse of a document:
/// neither its flattened unknown-key map nor any value nested in it carries
/// a key that its own type models as a field.
pub uninterp spec fn parsed_doc_rest(k: kube::config::Kubeconfig) -> bool;

/// Holds of a context-entry remainder that came out of a parse; as with
/// `parsed_doc_rest`, no flattened unknown key in it shadows a modeled field.
pub uninterp spec fn parsed_entry_rest(e: kube::config::NamedContext) -> bool;

/// Holds of a context-details remainder that came out of a parse; as with
/// `parsed_doc_rest`, no flattened unknown key in it shadows a modeled field.
pub uninterp spec fn parsed_details_rest(c: kube::config::Context) -> bool;

/// Whether every opaque remainder the document carries came out of a parse.
/// Serializing such a document emits each modeled key once, from the model's
/// fields, so what a re-parse of the text sees is pinned down.
pub open spec fn from_parse(v: DocView) -> bool {
    &&& parsed_doc_rest(v.rest)
    &&& forall|i: int| 0 <= i < v.contexts.len() ==> parsed_entry_rest(
        #[trigger] v.contexts[i].rest,
    )
    &&& forall|i: int|
        0 <= i < v.contexts.len() ==> match #[trigger] v.contexts[i].context {
            Some(d) => parsed_details_rest(d.rest),
            None => true,
        }
}

} // verus!
