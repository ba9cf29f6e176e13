use vstd::prelude::*;

use crate::model::{
    from_parse, parsed_details_rest, parsed_doc_rest, parsed_entry_rest, shape_of, ConfigDocument,
    ContextDetails, ContextEntry, DocView,
};

verus! {

/// The serialization format a configuration document was read in, and so the
/// format it must be written back in.
#[derive(Clone, Copy, PartialEq, Eq, Structural, Debug)]
pub enum Format {
    Json,
    Yaml,
}

/// The document content did not parse in the format it was detected as.
#[derive(Debug)]
pub struct DecodeError {
    /// The underlying parser's diagnostic.
    pub message: String,
}

/// The document could not be serialized. This indicates an invariant
/// violation inside the serializer, not bad input.
#[derive(Debug)]
pub struct EncodeError {
    /// The underlying serializer's diagnostic.
    pub message: String,
}

/// A document together with the format it was read in.
pub struct LoadedDocument {
    pub doc: ConfigDocument,
    pub format: Format,
}

/// The characters that format detection skips over.
pub open spec fn spec_is_ws(c: char) -> bool {
    c == ' ' || c == '\n' || c == '\t' || c == '\r'
}

/// The format a text is detected as: JSON when its first non-whitespace
/// character opens an object, the line-oriented format otherwise.
pub open spec fn spec_detect_format(s: Seq<char>) -> Format
    decreases s.len(),
{
    if s.len() == 0 {
        Format::Yaml
    } else if spec_is_ws(s[0]) {
        spec_detect_format(s.drop_first())
    } else if s[0] == '{' {
        Format::Json
    } else {
        Format::Yaml
    }
}

/// Detects the format of a document text by its first non-whitespace
/// character. This is a heuristic, not a declared content type: a text that
/// opens an object is always treated as JSON, everything else as the
/// line-oriented format.
pub fn detect_format(text: &str) -> (r: Format)
    ensures
        r == spec_detect_format(text@),
{
    let n = text.unicode_len();
    let mut i: usize = 0;
    proof {
        assert(text@.skip(0) =~= text@);
    }
    while i < n
        invariant
            i <= n,
            n == text@.len(),
            spec_detect_format(text@) == spec_detect_format(text@.skip(i as int)),
        decreases n - i,
    {
        let c = text.get_char(i);
        proof {
            assert(text@.skip(i as int)[0] == text@[i as int]);
        }
        if c == ' ' || c == '\n' || c == '\t' || c == '\r' {
            proof {
                assert(text@.skip(i as int).drop_first() =~= text@.skip(i as int + 1));
            }
            i += 1;
        } else {
            if c == '{' {
                return Format::Json;
            } else {
                return Format::Yaml;
            }
        }
    }
    proof {
        assert(text@.skip(n as int).len() == 0);
    }
    Format::Yaml
}

/// The document a text parses to as JSON, or `None` when it does not parse.
/// The result depends on the text alone.
pub uninterp spec fn json_config(text: Seq<char>) -> Option<DocView>;

/// The document a text parses to in the line-oriented format, or `None` when
/// it does not parse. The result depends on the text alone.
pub uninterp spec fn yaml_config(text: Seq<char>) -> Option<DocView>;

/// Relies on serde_json::from_str with kube's Kubeconfig type: whether the
/// text parses as a JSON configuration document, and what it parses to,
/// depend on the text alone. The parts of the parse the engine interprets
/// move into the model's plain fields; everything else is kept verbatim in
/// the model's `rest` fields. Those remainders satisfy the parsed-remainder
/// predicates: the derived Deserialize refuses a duplicate of a known field
/// and routes every modeled key into its typed field, so no flattened
/// unknown-key map that comes out of a parse shadows a modeled field.
#[verifier::external_body]
fn parse_json_config(text: &str) -> (r: Result<ConfigDocument, String>)
    ensures
        r is Ok <==> json_config(text@) is Some,
        r matches Ok(d) ==> json_config(text@) == Some(d@),
        r matches Ok(d) ==> parsed_doc_rest(d@.rest),
        r matches Ok(d) ==> forall|i: int|
            0 <= i < d@.contexts.len() ==> parsed_entry_rest(#[trigger] d@.contexts[i].rest),
        r matches Ok(d) ==> forall|i: int|
            0 <= i < d@.contexts.len() ==> match #[trigger] d@.contexts[i].context {
                Some(det) => parsed_details_rest(det.rest),
                None => true,
            },
{
    match serde_json::from_str::<kube::config::Kubeconfig>(text) {
        Ok(k) => {
            let contexts = k.contexts.iter().map(|nc| ContextEntry {
                name: nc.name.clone(),
                context: nc.context.clone().map(|c| ContextDetails {
                    namespace: c.namespace.clone(),
                    rest: c,
                }),
                rest: nc.clone(),
            }).collect();
            Ok(ConfigDocument { current_context: k.current_context.clone(), contexts, rest: k })
        },
        Err(e) => Err(e.to_string()),
    }
}

/// Relies on serde_yaml::from_str with kube's Kubeconfig type: whether the
/// text parses as a configuration document in the line-oriented format, and
/// what it parses to, depend on the text alone. Conversion to the model, and
/// the grounds for the parsed-remainder clauses, are as in
/// `parse_json_config`.
#[verifier::external_body]
fn parse_yaml_config(text: &str) -> (r: Result<ConfigDocument, String>)
    ensures
        r is Ok <==> yaml_config(text@) is Some,
        r matches Ok(d) ==> yaml_config(text@) == Some(d@),
        r matches Ok(d) ==> parsed_doc_rest(d@.rest),
        r matches Ok(d) ==> forall|i: int|
            0 <= i < d@.contexts.len() ==> parsed_entry_rest(#[trigger] d@.contexts[i].rest),
        r matches Ok(d) ==> forall|i: int|
            0 <= i < d@.contexts.len() ==> match #[trigger] d@.contexts[i].context {
                Some(det) => parsed_details_rest(det.rest),
                None => true,
            },
{
    match serde_yaml::from_str::<kube::config::Kubeconfig>(text) {
        Ok(k) => {
            let contexts = k.contexts.iter().map(|nc| ContextEntry {
                name: nc.name.clone(),
                context: nc.context.clone().map(|c| ContextDetails {
                    namespace: c.namespace.clone(),
                    rest: c,
                }),
                rest: nc.clone(),
            }).collect();
            Ok(ConfigDocument { current_context: k.current_context.clone(), contexts, rest: k })
        },
        Err(e) => Err(e.to_string()),
    }
}

/// Relies on serde_json::to_string with kube's Kubeconfig type, whose derived
/// Serialize never errors and whose maps are string-keyed, so serialization
/// cannot fail, and the emitted text opens the top-level object with `{` as
/// its first character. The re-parse clause holds only of documents whose
/// opaque remainders came out of a parse: for those, every modeled key is
/// emitted once, from the model's fields, and what the derived Serialize
/// writes the derived Deserialize reads back, so the text re-parses to a
/// document of equal interpreted content. (A hand-built remainder whose
/// flattened unknown keys shadow a modeled field would emit a duplicate or
/// stray key, which the parser refuses or reads differently.) The serialized
/// bytes of the opaque remainders are not claimed to be a function of the
/// document: some of them hold hash maps whose serialized key order can
/// differ between two equal-looking values. The model's plain fields
/// supersede what the carried `rest` values hold for the same keys.
#[verifier::external_body]
fn dump_json_config(doc: &ConfigDocument) -> (r: Result<String, String>)
    ensures
        r is Ok,
        r matches Ok(s) ==> spec_detect_format(s@) == Format::Json,
        r matches Ok(s) ==> (from_parse(doc@) ==> (json_config(s@) matches Some(v)
            && shape_of(v) == shape_of(doc@))),
{
    let k = kube::config::Kubeconfig {
        current_context: doc.current_context.clone(),
        contexts: doc.contexts.iter().map(|e| kube::config::NamedContext {
            name: e.name.clone(),
            context: e.context.as_ref().map(|d| kube::config::Context {
                namespace: d.namespace.clone(),
                ..d.rest.clone()
            }),
            ..e.rest.clone()
        }).collect(),
        ..doc.rest.clone()
    };
    serde_json::to_string(&k).map_err(|e| e.to_string())
}

/// Relies on serde_yaml::to_string with kube's Kubeconfig type, which fails
/// only when a Serialize impl decides to, and Kubeconfig's derived one never
/// does, so serialization cannot fail; the emitter writes the top-level
/// mapping in block style and quotes ambiguous scalars, so the text opens
/// with a field name, never with `{` or whitespace. The re-parse clause is
/// conditioned on the document's opaque remainders having come out of a
/// parse, on the same grounds as in `dump_json_config`; the bytes of those
/// remainders are likewise not claimed to be a function of the document.
#[verifier::external_body]
fn dump_yaml_config(doc: &ConfigDocument) -> (r: Result<String, String>)
    ensures
        r is Ok,
        r matches Ok(s) ==> spec_detect_format(s@) == Format::Yaml,
        r matches Ok(s) ==> (from_parse(doc@) ==> (yaml_config(s@) matches Some(v)
            && shape_of(v) == shape_of(doc@))),
{
    let k = kube::config::Kubeconfig {
        current_context: doc.current_context.clone(),
        contexts: doc.contexts.iter().map(|e| kube::config::NamedContext {
            name: e.name.clone(),
            context: e.context.as_ref().map(|d| kube::config::Context {
                namespace: d.namespace.clone(),
                ..d.rest.clone()
            }),
            ..e.rest.clone()
        }).collect(),
        ..doc.rest.clone()
    };
    serde_yaml::to_string(&k).map_err(|e| e.to_string())
}

/// Parses a document text in the format it is detected as. Succeeds exactly
/// when that parser accepts the text, and then returns its parse together
/// with the detected format, so that the document can later be written back
/// in the format it came in. Every opaque remainder of a loaded document
/// came out of the parse, which is what `dump`'s re-parse clause asks of a
/// document it is handed.
pub fn load(text: &str) -> (r: Result<LoadedDocument, DecodeError>)
    ensures
        spec_detect_format(text@) == Format::Json ==> match json_config(text@) {
            Some(v) => r matches Ok(l) && l.doc@ == v && l.format == Format::Json,
            None => r is Err,
        },
        spec_detect_format(text@) == Format::Yaml ==> match yaml_config(text@) {
            Some(v) => r matches Ok(l) && l.doc@ == v && l.format == Format::Yaml,
            None => r is Err,
        },
        r matches Ok(l) ==> from_parse(l.doc@),
{
    let format = detect_format(text);
    let parsed = match format {
        Format::Json => parse_json_config(text),
        Format::Yaml => parse_yaml_config(text),
    };
    match parsed {
        Ok(doc) => Ok(LoadedDocument { doc, format }),
        Err(message) => Err(DecodeError { message }),
    }
}

/// Serializes a document in the given format: the one it was loaded in, so
/// that a rewrite never reformats a hand-maintained file. Serialization
/// always succeeds, and the text is detected as the format it was written
/// in. For a document whose opaque remainders came out of a parse — every
/// loaded document, mutated or not, is one — decoding the text again yields
/// a document whose interpreted content — selected context, entry names,
/// namespaces, in order — equals this one's: encoding then decoding loses
/// nothing the engine interprets.
pub fn dump(doc: &ConfigDocument, format: Format) -> (r: Result<String, EncodeError>)
    ensures
        r is Ok,
        r matches Ok(s) ==> spec_detect_format(s@) == format,
        format == Format::Json ==> (r matches Ok(s) ==> (from_parse(doc@) ==> (json_config(s@)
            matches Some(v) && shape_of(v) == shape_of(doc@)))),
        format == Format::Yaml ==> (r matches Ok(s) ==> (from_parse(doc@) ==> (yaml_config(s@)
            matches Some(v) && shape_of(v) == shape_of(doc@)))),
{
    let dumped = match format {
        Format::Json => dump_json_config(doc),
        Format::Yaml => dump_yaml_config(doc),
    };
    match dumped {
        Ok(s) => Ok(s),
        Err(message) => Err(EncodeError { message }),
    }
}

} // verus!
