//! The syntax model that the expansion works on, and its mathematical views.

use vstd::prelude::*;

verus! {

/// The `publish` tag with its optional fields.
#[derive(Debug, PartialEq, Eq)]
pub struct Publish {
    pub package: Option<String>,
    pub name: Option<String>,
}

/// The `on_create` tag with its optional field.
#[derive(Debug, PartialEq, Eq)]
pub struct OnCreate {
    pub message_name: Option<String>,
}

/// A recognised tag on an implementation block or a method.
#[derive(Debug, PartialEq, Eq)]
pub enum AttributeTag {
    Publish(Publish),
    OnCreate(OnCreate),
}

/// The binding of a typed parameter: a plain identifier, or any other pattern
/// (kept as its source text).
#[derive(Debug, PartialEq, Eq)]
pub enum Pattern {
    Ident(String),
    Other(String),
}

/// The type of a parameter: its source text, and, where the type is a
/// reference, the source text of the type referred to.
#[derive(Debug, PartialEq, Eq)]
pub struct ParamType {
    pub text: String,
    pub referent: Option<String>,
}

/// One parameter of a method.
#[derive(Debug, PartialEq, Eq)]
pub enum FnArg {
    Receiver(String),
    Typed { pat: Pattern, ty: ParamType },
}

/// A method signature: its whole source text, and what the expansion reads of
/// it, the name, the parameters in order and the return type (source text,
/// empty where the method returns nothing).
#[derive(Debug, PartialEq, Eq)]
pub struct Signature {
    pub text: String,
    pub name: String,
    pub inputs: Vec<FnArg>,
    pub output: String,
}

/// A method of an implementation block with the recognised tags it carries.
#[derive(Debug, PartialEq, Eq)]
pub struct Method {
    pub attrs: Vec<AttributeTag>,
    pub sig: Signature,
}

/// A member of an implementation block.
#[derive(Debug, PartialEq, Eq)]
pub enum ImplItem {
    Fn(Method),
    Other(String),
}

/// The self type of an implementation block: a bare identifier, or anything
/// else (a qualified path, a generic type, a reference, ...).
#[derive(Debug, PartialEq, Eq)]
pub enum SelfType {
    Ident(String),
    Other(String),
}

/// An implementation block with the recognised tags it carries.
#[derive(Debug, PartialEq, Eq)]
pub struct ImplBlock {
    pub self_ty: SelfType,
    pub attrs: Vec<AttributeTag>,
    pub items: Vec<ImplItem>,
}

/// A field of a message struct.
#[derive(Debug, PartialEq, Eq)]
pub struct MessageField {
    pub name: String,
    pub ty: String,
}

/// A declaration that the expansion synthesizes.
#[derive(Debug, PartialEq, Eq)]
pub enum Declaration {
    /// Registers the handler; its initializer type is the unit type.
    HandlerImpl { handler: String },
    /// The client struct, which wraps an address.
    ClientStruct { name: String },
    /// The address accessor of the client.
    AccountClientImpl { client: String },
    /// The zero-size client factory.
    ClientFactoryStruct { name: String },
    /// The resource initializer of the factory; its body is left open.
    ResourceImpl { factory: String },
    /// The factory's constructor from an address to a client.
    AccountClientFactoryImpl { factory: String, client: String },
    /// Marks the handler as an account API with its client factory.
    AccountApiImpl { handler: String, factory: String },
    /// Marks the handler as an account handler.
    AccountHandlerImpl { handler: String },
    /// The message struct of one published method.
    MessageStruct { name: String, fields: Vec<MessageField> },
    /// The client's stubs, one per published method; their bodies are left open.
    ClientImpl { client: String, stubs: Vec<Signature> },
    /// The marker registration that the `Resources` derive emits.
    ResourcesImpl { name: String },
}

/// A top-level declaration of a module.
#[derive(Debug, PartialEq, Eq)]
pub enum Item {
    Impl(ImplBlock),
    Other(String),
    Generated(Declaration),
}

/// A module: its header (everything before the body, as source text) and its
/// body, if it has one.
#[derive(Debug, PartialEq, Eq)]
pub struct Module {
    pub header: String,
    pub content: Option<Vec<Item>>,
}

/// A method selected for exposure, with its one effective tag.
#[derive(Debug, PartialEq, Eq)]
pub struct PublishTarget {
    pub signature: Signature,
    pub tag: AttributeTag,
}

/// Why an expansion failed.
#[derive(Debug, PartialEq, Eq)]
pub enum ExpandError {
    /// The module has no body.
    MissingContent,
    /// The named method carries both a publish and an initializer tag.
    ConflictingTags { method: String },
    /// A parameter of a published method is bound to a pattern that is no
    /// identifier.
    ExpectedIdentifier,
    /// The named marker was used outside an annotated module.
    MisplacedMarker { marker: String },
}

/// A signature as a mathematical value: its texts as character sequences, its
/// parameters as a sequence.
pub ghost struct SignatureView {
    pub text: Seq<char>,
    pub name: Seq<char>,
    pub inputs: Seq<FnArg>,
    pub output: Seq<char>,
}

/// A publish target as a mathematical value.
pub ghost struct TargetView {
    pub signature: SignatureView,
    pub tag: AttributeTag,
}

/// A synthesized declaration as a mathematical value: names as character
/// sequences, fields and stubs as sequences.
pub ghost enum DeclarationView {
    HandlerImpl { handler: Seq<char> },
    ClientStruct { name: Seq<char> },
    AccountClientImpl { client: Seq<char> },
    ClientFactoryStruct { name: Seq<char> },
    ResourceImpl { factory: Seq<char> },
    AccountClientFactoryImpl { factory: Seq<char>, client: Seq<char> },
    AccountApiImpl { handler: Seq<char>, factory: Seq<char> },
    AccountHandlerImpl { handler: Seq<char> },
    MessageStruct { name: Seq<char>, fields: Seq<MessageField> },
    ClientImpl { client: Seq<char>, stubs: Seq<SignatureView> },
    ResourcesImpl { name: Seq<char> },
}

impl View for Signature {
    type V = SignatureView;

    open spec fn view(&self) -> SignatureView {
        SignatureView {
            text: self.text@,
            name: self.name@,
            inputs: self.inputs@,
            output: self.output@,
        }
    }
}

impl View for PublishTarget {
    type V = TargetView;

    open spec fn view(&self) -> TargetView {
        TargetView { signature: self.signature@, tag: self.tag }
    }
}

impl View for Declaration {
    type V = DeclarationView;

    open spec fn view(&self) -> DeclarationView {
        match *self {
            Declaration::HandlerImpl { handler } => DeclarationView::HandlerImpl {
                handler: handler@,
            },
            Declaration::ClientStruct { name } => DeclarationView::ClientStruct { name: name@ },
            Declaration::AccountClientImpl { client } => DeclarationView::AccountClientImpl {
                client: client@,
            },
            Declaration::ClientFactoryStruct { name } => DeclarationView::ClientFactoryStruct {
                name: name@,
            },
            Declaration::ResourceImpl { factory } => DeclarationView::ResourceImpl {
                factory: factory@,
            },
            Declaration::AccountClientFactoryImpl {
                factory,
                client,
            } => DeclarationView::AccountClientFactoryImpl { factory: factory@, client: client@ },
            Declaration::AccountApiImpl { handler, factory } => DeclarationView::AccountApiImpl {
                handler: handler@,
                factory: factory@,
            },
            Declaration::AccountHandlerImpl { handler } => DeclarationView::AccountHandlerImpl {
                handler: handler@,
            },
            Declaration::MessageStruct { name, fields } => DeclarationView::MessageStruct {
                name: name@,
                fields: fields@,
            },
            Declaration::ClientImpl { client, stubs } => DeclarationView::ClientImpl {
                client: client@,
                stubs: stubs@.map_values(|s: Signature| s@),
            },
            Declaration::ResourcesImpl { name } => DeclarationView::ResourcesImpl { name: name@ },
        }
    }
}

/// A copy of an optional string.
pub fn clone_opt(o: &Option<String>) -> (r: Option<String>)
    ensures
        r == *o,
{
    match o {
        Some(s) => Some(s.clone()),
        None => None,
    }
}

impl Clone for Publish {
    fn clone(&self) -> (r: Self)
        ensures
            r == *self,
    {
        Publish { package: clone_opt(&self.package), name: clone_opt(&self.name) }
    }
}

impl Clone for OnCreate {
    fn clone(&self) -> (r: Self)
        ensures
            r == *self,
    {
        OnCreate { message_name: clone_opt(&self.message_name) }
    }
}

impl Clone for AttributeTag {
    fn clone(&self) -> (r: Self)
        ensures
            r == *self,
    {
        match self {
            AttributeTag::Publish(p) => AttributeTag::Publish(p.clone()),
            AttributeTag::OnCreate(c) => AttributeTag::OnCreate(c.clone()),
        }
    }
}

impl Clone for Pattern {
    fn clone(&self) -> (r: Self)
        ensures
            r == *self,
    {
        match self {
            Pattern::Ident(s) => Pattern::Ident(s.clone()),
            Pattern::Other(s) => Pattern::Other(s.clone()),
        }
    }
}

impl Clone for SelfType {
    fn clone(&self) -> (r: Self)
        ensures
            r == *self,
    {
        match self {
            SelfType::Ident(s) => SelfType::Ident(s.clone()),
            SelfType::Other(s) => SelfType::Other(s.clone()),
        }
    }
}

impl Clone for ParamType {
    fn clone(&self) -> (r: Self)
        ensures
            r == *self,
    {
        ParamType { text: self.text.clone(), referent: clone_opt(&self.referent) }
    }
}

impl Clone for FnArg {
    fn clone(&self) -> (r: Self)
        ensures
            r == *self,
    {
        match self {
            FnArg::Receiver(s) => FnArg::Receiver(s.clone()),
            FnArg::Typed { pat, ty } => FnArg::Typed { pat: pat.clone(), ty: ty.clone() },
        }
    }
}

impl Clone for MessageField {
    fn clone(&self) -> (r: Self)
        ensures
            r == *self,
    {
        MessageField { name: self.name.clone(), ty: self.ty.clone() }
    }
}

impl Clone for Signature {
    fn clone(&self) -> (r: Self)
        ensures
            r@ == self@,
    {
        let mut inputs: Vec<FnArg> = Vec::new();
        let mut i: usize = 0;
        while i < self.inputs.len()
            invariant
                i <= self.inputs.len(),
                inputs@ == self.inputs@.take(i as int),
            decreases self.inputs.len() - i,
        {
            inputs.push(self.inputs[i].clone());
            proof {
                assert(self.inputs@.take(i + 1) =~= self.inputs@.take(i as int).push(
                    self.inputs@[i as int],
                ));
            }
            i = i + 1;
        }
        proof {
            assert(self.inputs@.take(i as int) =~= self.inputs@);
        }
        Signature {
            text: self.text.clone(),
            name: self.name.clone(),
            inputs,
            output: self.output.clone(),
        }
    }
}

} // verus!
