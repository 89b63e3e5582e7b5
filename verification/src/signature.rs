//! Conversion of an engine function signature into protocol signature
//! help: the rendered signature or, in concise mode, just the parameter
//! list with any self parameter dropped.

use vstd::prelude::*;
use vstd::string::StringExecFns;

use crate::completion::{to_documentation, Documentation};
use crate::protocol::{self, ParameterInformation, SignatureInformation};

verus! {

/// A callable's signature as the engine renders it.
#[derive(Debug)]
pub struct FunctionSignature {
    /// The whole signature, rendered by the engine for display.
    pub rendered: String,
    /// The parameters' source text, the self parameter included.
    pub parameters: Vec<String>,
    pub has_self_param: bool,
    pub doc: Option<Documentation>,
}

/// The character sequences of a list of strings.
pub open spec fn string_views(ss: Seq<String>) -> Seq<Seq<char>> {
    ss.map_values(|s: String| s@)
}

/// `ps` joined with a comma and a space between neighbours.
pub open spec fn joined(ps: Seq<Seq<char>>) -> Seq<char>
    decreases ps.len(),
{
    if ps.len() == 0 {
        Seq::<char>::empty()
    } else if ps.len() == 1 {
        ps[0]
    } else {
        joined(ps.drop_last()) + ", "@ + ps.last()
    }
}

/// Join strings with `", "` between neighbours.
pub fn join_comma(ss: &Vec<String>) -> (r: String)
    ensures
        r@ == joined(string_views(ss@)),
{
    let ghost vs = string_views(ss@);
    let mut out = String::new();
    let mut i: usize = 0;
    while i < ss.len()
        invariant
            i <= ss@.len(),
            vs == string_views(ss@),
            out@ == joined(vs.take(i as int)),
        decreases ss@.len() - i,
    {
        proof {
            assert(vs.take(i + 1).drop_last() =~= vs.take(i as int));
            assert(vs.take(i + 1).last() == vs[i as int]);
            assert(vs[i as int] == ss@[i as int]@);
        }
        if i > 0 {
            out.append(", ");
        }
        out.append(ss[i].as_str());
        i = i + 1;
    }
    proof {
        assert(vs.take(vs.len() as int) =~= vs);
    }
    out
}

/// The parameters shown to the client: all of them, or in concise mode
/// all but the self parameter.
pub open spec fn shown_params(sig: FunctionSignature, concise: bool) -> Seq<String> {
    if concise && sig.has_self_param {
        sig.parameters@.skip(1)
    } else {
        sig.parameters@
    }
}

/// Convert a signature to protocol signature help. In concise mode the
/// label is just the parameter list, the self parameter dropped and the
/// documentation withheld; otherwise the label is the rendered signature
/// with the documentation attached.
pub fn to_signature_information(sig: &FunctionSignature, concise: bool) -> (r:
    SignatureInformation)
    requires
        sig.has_self_param ==> sig.parameters@.len() > 0,
    ensures
        r.label@ == if concise {
            joined(string_views(shown_params(*sig, true)))
        } else {
            sig.rendered@
        },
        concise ==> r.documentation is None,
        !concise ==> match sig.doc {
            Some(ref d) => match r.documentation {
                Some(protocol::Documentation::MarkupContent(ref mc)) => {
                    &&& mc.kind == protocol::MarkupKind::Markdown
                    &&& mc.value == d.0
                },
                None => false,
            },
            None => r.documentation is None,
        },
        r.parameters is Some,
        r.parameters->Some_0@.len() == shown_params(*sig, concise).len(),
        forall|i: int|
            0 <= i < shown_params(*sig, concise).len() ==> (#[trigger] r.parameters->Some_0@[i])
                .label@ == shown_params(*sig, concise)[i]@,
{
    let mut params: Vec<String> = Vec::new();
    let start: usize = if concise && sig.has_self_param {
        1
    } else {
        0
    };
    let mut i = start;
    while i < sig.parameters.len()
        invariant
            start <= i <= sig.parameters@.len(),
            params@.len() == i - start,
            forall|k: int|
                0 <= k < params@.len() ==> (#[trigger] params@[k])@ == sig.parameters@[
                start + k]@,
        decreases sig.parameters@.len() - i,
    {
        params.push(sig.parameters[i].clone());
        i = i + 1;
    }
    proof {
        assert(forall|k: int|
            0 <= k < shown_params(*sig, concise).len() ==> #[trigger] shown_params(*sig,
                concise)[k] == sig.parameters@[start + k]);
    }
    let label = if concise {
        let joined_label = join_comma(&params);
        proof {
            assert(string_views(params@) =~= string_views(shown_params(*sig, true)));
        }
        joined_label
    } else {
        sig.rendered.clone()
    };
    let documentation = if concise {
        None
    } else {
        match &sig.doc {
            Some(d) => Some(to_documentation(d)),
            None => None,
        }
    };
    let mut parameters: Vec<ParameterInformation> = Vec::new();
    let mut j: usize = 0;
    while j < params.len()
        invariant
            j <= params@.len(),
            parameters@.len() == j,
            forall|k: int|
                0 <= k < j ==> (#[trigger] parameters@[k]).label@ == params@[k]@,
        decreases params@.len() - j,
    {
        parameters.push(ParameterInformation { label: params[j].clone() });
        j = j + 1;
    }
    SignatureInformation { label, documentation, parameters: Some(parameters) }
}

} // verus!
