//! The source text of the synthesized declarations.

use vstd::prelude::*;
use vstd::string::*;
use crate::expand::signature_views;
use crate::model::{
    Declaration, DeclarationView, Item, MessageField, Signature, SignatureView,
};

verus! {

/// The text of one field of a message struct.
pub open spec fn field_text(field: MessageField) -> Seq<char> {
    field.name@ + ": "@ + field.ty@ + ", "@
}

/// The text of the fields of a message struct, in field order.
pub open spec fn fields_text(fields: Seq<MessageField>) -> Seq<char>
    decreases fields.len(),
{
    if fields.len() == 0 {
        Seq::empty()
    } else {
        fields_text(fields.drop_last()) + field_text(fields.last())
    }
}

/// The text of a client stub: the method's signature with a body that is left
/// open.
pub open spec fn stub_text(signature: SignatureView) -> Seq<char> {
    signature.text + " { todo!() } "@
}

/// The text of the stubs of a client, in stub order.
pub open spec fn stubs_text(stubs: Seq<SignatureView>) -> Seq<char>
    decreases stubs.len(),
{
    if stubs.len() == 0 {
        Seq::empty()
    } else {
        stubs_text(stubs.drop_last()) + stub_text(stubs.last())
    }
}

/// The source text of a synthesized declaration.
pub open spec fn declaration_text(decl: DeclarationView) -> Seq<char> {
    match decl {
        DeclarationView::HandlerImpl { handler } => "impl ::interchain_core::handler::Handler for "@
            + handler + " { type Init = (); }"@,
        DeclarationView::ClientStruct { name } => "pub struct "@ + name
            + "(::interchain_message_api::Address);"@,
        DeclarationView::AccountClientImpl {
            client,
        } => "impl ::interchain_core::handler::AccountClient for "@ + client
            + " { fn address(&self) -> &::interchain_message_api::Address { &self.0 } }"@,
        DeclarationView::ClientFactoryStruct { name } => "pub struct "@ + name + ";"@,
        DeclarationView::ResourceImpl {
            factory,
        } => "unsafe impl ::interchain_core::resource::Resource for "@ + factory
            + " { unsafe fn new(initializer: &mut ::interchain_core::resource::Initializer) -> Result<Self, ::interchain_core::resource::InitializationError> { todo!() } }"@,
        DeclarationView::AccountClientFactoryImpl {
            factory,
            client,
        } => "impl ::interchain_core::handler::AccountClientFactory for "@ + factory
            + " { type Client = "@ + client
            + "; fn new_client(address: &::interchain_message_api::Address) -> Self::Client { "@
            + client + "(address.clone()) } }"@,
        DeclarationView::AccountApiImpl {
            handler,
            factory,
        } => "impl ::interchain_core::handler::AccountAPI for "@ + handler
            + " { type ClientFactory = "@ + factory + "; }"@,
        DeclarationView::AccountHandlerImpl {
            handler,
        } => "impl ::interchain_core::handler::AccountHandler for "@ + handler + " {}"@,
        DeclarationView::MessageStruct { name, fields } => "#[derive(StructCodec)] pub struct "@
            + name + " { "@ + fields_text(fields) + "}"@,
        DeclarationView::ClientImpl { client, stubs } => "impl "@ + client + " { "@ + stubs_text(
            stubs,
        ) + "}"@,
        DeclarationView::ResourcesImpl {
            name,
        } => "unsafe impl ::interchain_core::resource::Resources for "@ + name + " {}"@,
    }
}

/// The source text of a top-level declaration that was synthesized; empty for
/// any other.
pub open spec fn generated_text(item: Item) -> Seq<char> {
    match item {
        Item::Generated(decl) => declaration_text(decl@),
        _ => Seq::empty(),
    }
}

/// Renders the fields of a message struct.
pub fn render_fields(fields: &Vec<MessageField>) -> (r: String)
    ensures
        r@ == fields_text(fields@),
{
    let mut out = String::new();
    let mut i: usize = 0;
    assert(fields@.take(0) =~= Seq::empty());
    while i < fields.len()
        invariant
            i <= fields.len(),
            out@ == fields_text(fields@.take(i as int)),
        decreases fields.len() - i,
    {
        let field = &fields[i];
        proof {
            assert(fields@.take(i + 1).drop_last() =~= fields@.take(i as int));
            assert(fields@.take(i + 1).last() == *field);
        }
        out = out.concat(field.name.as_str()).concat(": ").concat(field.ty.as_str()).concat(", ");
        assert(out@ =~= fields_text(fields@.take(i as int)) + field_text(*field));
        i = i + 1;
    }
    proof {
        assert(fields@.take(i as int) =~= fields@);
    }
    out
}

/// Renders the stubs of a client.
pub fn render_stubs(stubs: &Vec<Signature>) -> (r: String)
    ensures
        r@ == stubs_text(signature_views(stubs@)),
{
    let ghost views = signature_views(stubs@);
    let mut out = String::new();
    let mut i: usize = 0;
    assert(views.take(0) =~= Seq::empty());
    while i < stubs.len()
        invariant
            i <= stubs.len(),
            views == signature_views(stubs@),
            out@ == stubs_text(views.take(i as int)),
        decreases stubs.len() - i,
    {
        let stub = &stubs[i];
        proof {
            assert(views.take(i + 1).drop_last() =~= views.take(i as int));
            assert(views.take(i + 1).last() == stub@);
        }
        out = out.concat(stub.text.as_str()).concat(" { todo!() } ");
        assert(out@ =~= stubs_text(views.take(i as int)) + stub_text(stub@));
        i = i + 1;
    }
    proof {
        assert(views.take(i as int) =~= views);
    }
    out
}

/// Renders a synthesized declaration as source text.
pub fn render(decl: &Declaration) -> (r: String)
    ensures
        r@ == declaration_text(decl@),
{
    match decl {
        Declaration::HandlerImpl { handler } => String::from_str(
            "impl ::interchain_core::handler::Handler for ",
        ).concat(handler.as_str()).concat(" { type Init = (); }"),
        Declaration::ClientStruct { name } => String::from_str("pub struct ").concat(
            name.as_str(),
        ).concat("(::interchain_message_api::Address);"),
        Declaration::AccountClientImpl { client } => String::from_str(
            "impl ::interchain_core::handler::AccountClient for ",
        ).concat(client.as_str()).concat(
            " { fn address(&self) -> &::interchain_message_api::Address { &self.0 } }",
        ),
        Declaration::ClientFactoryStruct { name } => String::from_str("pub struct ").concat(
            name.as_str(),
        ).concat(";"),
        Declaration::ResourceImpl { factory } => String::from_str(
            "unsafe impl ::interchain_core::resource::Resource for ",
        ).concat(factory.as_str()).concat(
            " { unsafe fn new(initializer: &mut ::interchain_core::resource::Initializer) -> Result<Self, ::interchain_core::resource::InitializationError> { todo!() } }",
        ),
        Declaration::AccountClientFactoryImpl { factory, client } => String::from_str(
            "impl ::interchain_core::handler::AccountClientFactory for ",
        ).concat(factory.as_str()).concat(" { type Client = ").concat(client.as_str()).concat(
            "; fn new_client(address: &::interchain_message_api::Address) -> Self::Client { ",
        ).concat(client.as_str()).concat("(address.clone()) } }"),
        Declaration::AccountApiImpl { handler, factory } => String::from_str(
            "impl ::interchain_core::handler::AccountAPI for ",
        ).concat(handler.as_str()).concat(" { type ClientFactory = ").concat(
            factory.as_str(),
        ).concat("; }"),
        Declaration::AccountHandlerImpl { handler } => String::from_str(
            "impl ::interchain_core::handler::AccountHandler for ",
        ).concat(handler.as_str()).concat(" {}"),
        Declaration::MessageStruct { name, fields } => {
            let body = render_fields(fields);
            String::from_str("#[derive(StructCodec)] pub struct ").concat(name.as_str()).concat(
                " { ",
            ).concat(body.as_str()).concat("}")
        },
        Declaration::ClientImpl { client, stubs } => {
            let body = render_stubs(stubs);
            String::from_str("impl ").concat(client.as_str()).concat(" { ").concat(
                body.as_str(),
            ).concat("}")
        },
        Declaration::ResourcesImpl { name } => String::from_str(
            "unsafe impl ::interchain_core::resource::Resources for ",
        ).concat(name.as_str()).concat(" {}"),
    }
}

} // verus!
