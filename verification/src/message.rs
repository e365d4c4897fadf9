//! Message structs: their names and their fields.

use vstd::prelude::*;
use vstd::string::*;
use heck::ToUpperCamelCase;
use crate::model::{
    Declaration, DeclarationView, ExpandError, FnArg, MessageField, ParamType, Pattern, Signature,
};

verus! {

/// The upper camel case form of a string, as `heck` computes it.
pub uninterp spec fn upper_camel_case(s: Seq<char>) -> Seq<char>;

/// Calls `heck::ToUpperCamelCase::to_upper_camel_case` on a string slice. The
/// conversion reads nothing but its argument, so its result is the named
/// function of it; nothing else is claimed of it.
#[verifier::external_body]
fn upper_camel(s: &str) -> (r: String)
    ensures
        r@ == upper_camel_case(s@),
{
    s.to_upper_camel_case()
}

/// The name of the message struct of a method of a handler.
pub open spec fn message_name(handler: Seq<char>, method: Seq<char>) -> Seq<char> {
    handler + upper_camel_case(method) + "Msg"@
}

/// A parameter type refers to the execution context when it is a reference
/// whose referent is written `Context`.
pub open spec fn is_context_ref(ty: ParamType) -> bool {
    match ty.referent {
        Some(r) => r@ == "Context"@,
        None => false,
    }
}

/// The message field that a parameter yields: a typed parameter bound to an
/// identifier yields a field of its name and type, unless it refers to the
/// execution context.
pub open spec fn field_of(arg: FnArg) -> Option<MessageField> {
    match arg {
        FnArg::Typed { pat: Pattern::Ident(id), ty } => if is_context_ref(ty) {
            None
        } else {
            Some(MessageField { name: id, ty: ty.text })
        },
        _ => None,
    }
}

/// A typed parameter bound to a pattern that is no identifier.
pub open spec fn bad_pattern(arg: FnArg) -> bool {
    match arg {
        FnArg::Typed { pat: Pattern::Other(_), ty } => true,
        _ => false,
    }
}

/// Some parameter of the list is bound to a pattern that is no identifier.
pub open spec fn has_bad_pattern(inputs: Seq<FnArg>) -> bool {
    exists|i: int| 0 <= i < inputs.len() && bad_pattern(#[trigger] inputs[i])
}

/// The message fields of a parameter list: what each parameter yields, in
/// parameter order.
pub open spec fn message_fields_of(inputs: Seq<FnArg>) -> Seq<MessageField> {
    inputs.filter_map(|a: FnArg| field_of(a))
}

/// The message struct named from a handler and a camel-cased method name.
pub open spec fn message_struct_of(
    handler: Seq<char>,
    camel: Seq<char>,
    inputs: Seq<FnArg>,
) -> DeclarationView {
    DeclarationView::MessageStruct {
        name: handler + camel + "Msg"@,
        fields: message_fields_of(inputs),
    }
}

/// Whether a parameter type refers to the execution context.
pub fn refers_to_context(ty: &ParamType) -> (r: bool)
    ensures
        r == is_context_ref(*ty),
{
    match &ty.referent {
        Some(r) => {
            let context = String::from_str("Context");
            *r == context
        },
        None => false,
    }
}

/// Derives the fields of a method's message struct: the parameters in order,
/// without the receiver and without references to the execution context. Fails
/// when a typed parameter is bound to a pattern that is no identifier.
pub fn message_fields(signature: &Signature) -> (r: Result<Vec<MessageField>, ExpandError>)
    ensures
        match r {
            Ok(fields) => !has_bad_pattern(signature.inputs@) && fields@ == message_fields_of(
                signature.inputs@,
            ),
            Err(e) => has_bad_pattern(signature.inputs@) && e == ExpandError::ExpectedIdentifier,
        },
{
    let ghost f = |a: FnArg| field_of(a);
    let mut fields: Vec<MessageField> = Vec::new();
    let mut i: usize = 0;
    while i < signature.inputs.len()
        invariant
            i <= signature.inputs.len(),
            f == |a: FnArg| field_of(a),
            fields@ == signature.inputs@.take(i as int).filter_map(f),
            forall|j: int| 0 <= j < i ==> !bad_pattern(#[trigger] signature.inputs@[j]),
        decreases signature.inputs.len() - i,
    {
        proof {
            signature.inputs@.lemma_filter_map_take_succ(f, i as int);
        }
        match &signature.inputs[i] {
            FnArg::Typed { pat, ty } => {
                match pat {
                    Pattern::Ident(ident) => {
                        if !refers_to_context(ty) {
                            fields.push(MessageField { name: ident.clone(), ty: ty.text.clone() });
                        }
                    },
                    Pattern::Other(_) => {
                        assert(bad_pattern(signature.inputs@[i as int]));
                        return Err(ExpandError::ExpectedIdentifier);
                    },
                }
            },
            FnArg::Receiver(_) => {},
        }
        i = i + 1;
    }
    proof {
        assert(signature.inputs@.take(i as int) =~= signature.inputs@);
    }
    Ok(fields)
}

/// The name of a message struct from the handler's name and the method's name
/// in upper camel case: the two followed by `Msg`.
pub fn message_struct_name(handler: &str, camel: &str) -> (r: String)
    ensures
        r@ == handler@ + camel@ + "Msg"@,
{
    String::from_str(handler).concat(camel).concat("Msg")
}

/// The message struct of a method, given the method's name in upper camel
/// case.
pub fn message_struct(handler: &str, camel: &str, signature: &Signature) -> (r: Result<
    Declaration,
    ExpandError,
>)
    ensures
        match r {
            Ok(d) => !has_bad_pattern(signature.inputs@) && d@ == message_struct_of(
                handler@,
                camel@,
                signature.inputs@,
            ),
            Err(e) => has_bad_pattern(signature.inputs@) && e == ExpandError::ExpectedIdentifier,
        },
{
    match message_fields(signature) {
        Ok(fields) => Ok(
            Declaration::MessageStruct { name: message_struct_name(handler, camel), fields },
        ),
        Err(e) => Err(e),
    }
}

/// The message struct of a published method of a handler: named by the
/// handler's name, the method's name in upper camel case and `Msg`.
pub fn method_message(handler: &str, signature: &Signature) -> (r: Result<
    Declaration,
    ExpandError,
>)
    ensures
        match r {
            Ok(d) => !has_bad_pattern(signature.inputs@) && d@ == (DeclarationView::MessageStruct {
                name: message_name(handler@, signature.name@),
                fields: message_fields_of(signature.inputs@),
            }),
            Err(e) => has_bad_pattern(signature.inputs@) && e == ExpandError::ExpectedIdentifier,
        },
{
    let camel = upper_camel(signature.name.as_str());
    message_struct(handler, camel.as_str(), signature)
}

} // verus!
