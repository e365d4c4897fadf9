use core_macros::expand::{account_handler, push_item};
use core_macros::markers::{
    account_api, derive_resources, module_api, module_handler, on_create, package_root, publish,
};
use core_macros::message::{
    message_fields, message_struct, message_struct_name, method_message, refers_to_context,
};
use core_macros::render::{render, render_fields, render_stubs};
use core_macros::model::{
    clone_opt, AttributeTag, Declaration, ExpandError, FnArg, ImplBlock, ImplItem, Item,
    MessageField, Method, Module, OnCreate, ParamType, Pattern, Publish, PublishTarget, SelfType,
    Signature,
};
use core_macros::tags::{
    classify_method, collect_publish_targets, maybe_extract_on_create, maybe_extract_publish,
    names_handler, strip_tags,
};

fn s(x: &str) -> String {
    x.to_string()
}

fn plain_publish() -> Publish {
    Publish { package: None, name: None }
}

fn named_publish(name: &str) -> Publish {
    Publish { package: Some(s("pkg")), name: Some(s(name)) }
}

fn publish_tag() -> AttributeTag {
    AttributeTag::Publish(plain_publish())
}

fn on_create_tag() -> AttributeTag {
    AttributeTag::OnCreate(OnCreate { message_name: None })
}

fn context(text: &str) -> ParamType {
    ParamType { text: s(text), referent: Some(s("Context")) }
}

fn plain(text: &str) -> ParamType {
    ParamType { text: s(text), referent: None }
}

fn typed(name: &str, ty: ParamType) -> FnArg {
    FnArg::Typed { pat: Pattern::Ident(s(name)), ty }
}

fn sig(name: &str, inputs: Vec<FnArg>, output: &str) -> Signature {
    Signature { text: format!("pub fn {}(..) {}", name, output), name: s(name), inputs, output: s(output) }
}

fn method(attrs: Vec<AttributeTag>, signature: Signature) -> ImplItem {
    ImplItem::Fn(Method { attrs, sig: signature })
}

fn block(name: &str, attrs: Vec<AttributeTag>, items: Vec<ImplItem>) -> Item {
    Item::Impl(ImplBlock { self_ty: SelfType::Ident(s(name)), attrs, items })
}

fn module(items: Vec<Item>) -> Module {
    Module { header: s("pub mod counter"), content: Some(items) }
}

fn field(name: &str, ty: &str) -> MessageField {
    MessageField { name: s(name), ty: s(ty) }
}

fn wiring(handler: &str) -> Vec<Item> {
    let client = format!("{}Client", handler);
    let factory = format!("{}ClientFactory", handler);
    vec![
        Item::Generated(Declaration::HandlerImpl { handler: s(handler) }),
        Item::Generated(Declaration::ClientStruct { name: client.clone() }),
        Item::Generated(Declaration::AccountClientImpl { client: client.clone() }),
        Item::Generated(Declaration::ClientFactoryStruct { name: factory.clone() }),
        Item::Generated(Declaration::ResourceImpl { factory: factory.clone() }),
        Item::Generated(Declaration::AccountClientFactoryImpl {
            factory: factory.clone(),
            client: client.clone(),
        }),
        Item::Generated(Declaration::AccountApiImpl { handler: s(handler), factory }),
        Item::Generated(Declaration::AccountHandlerImpl { handler: s(handler) }),
    ]
}

fn message(name: &str, fields: Vec<MessageField>) -> Item {
    Item::Generated(Declaration::MessageStruct { name: s(name), fields })
}

fn client_impl(client: &str, stubs: Vec<Signature>) -> Item {
    Item::Generated(Declaration::ClientImpl { client: s(client), stubs })
}

fn create_sig() -> Signature {
    sig("create", vec![typed("ctx", context("&mut Context"))], "")
}

fn get_sig() -> Signature {
    sig("get", vec![FnArg::Receiver(s("&self")), typed("ctx", context("&Context"))], "Response<u64>")
}

fn inc_sig() -> Signature {
    sig(
        "inc",
        vec![FnArg::Receiver(s("&mut self")), typed("ctx", context("&mut Context"))],
        "Response<()>",
    )
}

fn counter_items() -> Vec<Item> {
    vec![
        Item::Other(s("pub struct Counter { value: Item<u64> }")),
        block(
            "Counter",
            vec![],
            vec![
                method(vec![on_create_tag()], create_sig()),
                method(vec![publish_tag()], get_sig()),
                method(vec![publish_tag()], inc_sig()),
            ],
        ),
    ]
}

fn counter_items_without_tags() -> Vec<Item> {
    vec![
        Item::Other(s("pub struct Counter { value: Item<u64> }")),
        block(
            "Counter",
            vec![],
            vec![
                method(vec![], create_sig()),
                method(vec![], get_sig()),
                method(vec![], inc_sig()),
            ],
        ),
    ]
}

fn send_sig() -> Signature {
    sig(
        "send",
        vec![
            typed("to", plain("Address")),
            typed("amount", plain("u64")),
            typed("ctx", context("&Context")),
        ],
        "",
    )
}

#[test]
fn counter_handler_expands_to_full_surface() {
    let out = account_handler(&s("Counter"), module(counter_items())).unwrap();
    let mut expected = counter_items_without_tags();
    expected.extend(wiring("Counter"));
    expected.push(message("CounterGetMsg", vec![]));
    expected.push(message("CounterIncMsg", vec![]));
    expected.push(client_impl("CounterClient", vec![get_sig(), inc_sig()]));
    assert_eq!(out.header, s("pub mod counter"));
    assert_eq!(out.content, Some(expected));
}

#[test]
fn counter_wiring_order_is_fixed() {
    let out = account_handler(&s("Counter"), module(vec![])).unwrap();
    let mut expected = wiring("Counter");
    expected.push(client_impl("CounterClient", vec![]));
    assert_eq!(out.content, Some(expected));
}

#[test]
fn block_of_other_type_contributes_nothing() {
    let items = vec![block("Other", vec![publish_tag()], vec![method(vec![publish_tag()], get_sig())])];
    let mut targets: Vec<PublishTarget> = Vec::new();
    assert_eq!(collect_publish_targets(&s("Counter"), &items[0], &mut targets), Ok(()));
    assert!(targets.is_empty());
    let out = account_handler(&s("Counter"), module(items)).unwrap();
    let content = out.content.unwrap();
    assert_eq!(content.len(), 1 + 8 + 1);
    assert_eq!(content[9], client_impl("CounterClient", vec![]));
}

#[test]
fn conflict_in_block_of_other_type_is_not_seen() {
    let items = vec![block(
        "Other",
        vec![],
        vec![method(vec![publish_tag(), on_create_tag()], get_sig())],
    )];
    assert!(account_handler(&s("Counter"), module(items)).is_ok());
}

#[test]
fn qualified_self_type_is_ignored() {
    let item = Item::Impl(ImplBlock {
        self_ty: SelfType::Other(s("crate::Counter")),
        attrs: vec![],
        items: vec![method(vec![publish_tag()], get_sig())],
    });
    let mut targets: Vec<PublishTarget> = Vec::new();
    assert_eq!(collect_publish_targets(&s("Counter"), &item, &mut targets), Ok(()));
    assert!(targets.is_empty());
}

#[test]
fn send_message_has_two_fields_in_order() {
    let items = vec![block("Bank", vec![], vec![method(vec![publish_tag()], send_sig())])];
    let out = account_handler(&s("Bank"), module(items)).unwrap();
    let content = out.content.unwrap();
    assert_eq!(
        content[9],
        message("BankSendMsg", vec![field("to", "Address"), field("amount", "u64")])
    );
    assert_eq!(content[10], client_impl("BankClient", vec![send_sig()]));
}

#[test]
fn context_parameter_is_removed_at_any_position() {
    let to = typed("to", plain("Address"));
    let amount = typed("amount", plain("u64"));
    let ctx = typed("ctx", context("&Context"));
    let expected = vec![field("to", "Address"), field("amount", "u64")];
    let first = sig("send", vec![ctx.clone(), to.clone(), amount.clone()], "");
    let middle = sig("send", vec![to.clone(), ctx.clone(), amount.clone()], "");
    let last = sig("send", vec![to, amount, ctx], "");
    assert_eq!(message_fields(&first), Ok(expected.clone()));
    assert_eq!(message_fields(&middle), Ok(expected.clone()));
    assert_eq!(message_fields(&last), Ok(expected));
}

#[test]
fn mutable_and_lifetime_context_references_are_removed() {
    let signature = sig(
        "f",
        vec![
            typed("a", context("&mut Context")),
            typed("b", context("&'a Context")),
            typed("c", plain("Context")),
            typed("d", ParamType { text: s("&Address"), referent: Some(s("Address")) }),
        ],
        "",
    );
    assert_eq!(
        message_fields(&signature),
        Ok(vec![field("c", "Context"), field("d", "&Address")])
    );
}

#[test]
fn receiver_is_no_field() {
    let signature = sig("f", vec![FnArg::Receiver(s("&self")), typed("x", plain("u8"))], "");
    assert_eq!(message_fields(&signature), Ok(vec![field("x", "u8")]));
}

#[test]
fn pattern_parameter_is_rejected() {
    let signature = sig(
        "f",
        vec![
            typed("x", plain("u8")),
            FnArg::Typed { pat: Pattern::Other(s("(a, b)")), ty: plain("(u8, u8)") },
        ],
        "",
    );
    assert_eq!(message_fields(&signature), Err(ExpandError::ExpectedIdentifier));
    let items = vec![block("Bank", vec![], vec![method(vec![publish_tag()], signature)])];
    assert_eq!(account_handler(&s("Bank"), module(items)), Err(ExpandError::ExpectedIdentifier));
}

#[test]
fn pattern_parameter_of_context_type_is_rejected() {
    let signature =
        sig("f", vec![FnArg::Typed { pat: Pattern::Other(s("_")), ty: context("&Context") }], "");
    assert_eq!(message_fields(&signature), Err(ExpandError::ExpectedIdentifier));
}

#[test]
fn pattern_parameter_of_initializer_is_accepted() {
    let signature =
        sig("create", vec![FnArg::Typed { pat: Pattern::Other(s("_")), ty: plain("u8") }], "");
    let items = vec![block("Bank", vec![], vec![method(vec![on_create_tag()], signature)])];
    let out = account_handler(&s("Bank"), module(items)).unwrap();
    assert_eq!(out.content.unwrap().len(), 1 + 8 + 1);
}

#[test]
fn both_tags_are_rejected_in_either_order() {
    let one = vec![block(
        "Counter",
        vec![],
        vec![method(vec![publish_tag(), on_create_tag()], get_sig())],
    )];
    let other = vec![block(
        "Counter",
        vec![],
        vec![method(vec![on_create_tag(), publish_tag()], get_sig())],
    )];
    let expected = Err(ExpandError::ConflictingTags { method: s("get") });
    assert_eq!(account_handler(&s("Counter"), module(one)), expected);
    assert_eq!(account_handler(&s("Counter"), module(other)), expected);
}

#[test]
fn first_conflict_is_named() {
    let items = vec![
        block("Counter", vec![], vec![method(vec![publish_tag()], get_sig())]),
        block(
            "Counter",
            vec![publish_tag()],
            vec![
                method(vec![], inc_sig()),
                method(vec![on_create_tag(), publish_tag()], create_sig()),
                method(vec![publish_tag(), on_create_tag()], send_sig()),
            ],
        ),
    ];
    assert_eq!(
        account_handler(&s("Counter"), module(items)),
        Err(ExpandError::ConflictingTags { method: s("create") })
    );
}

#[test]
fn conflict_comes_before_pattern_failure() {
    let bad = sig("bad", vec![FnArg::Typed { pat: Pattern::Other(s("_")), ty: plain("u8") }], "");
    let items = vec![block(
        "Counter",
        vec![],
        vec![
            method(vec![publish_tag()], bad),
            method(vec![publish_tag(), on_create_tag()], get_sig()),
        ],
    )];
    assert_eq!(
        account_handler(&s("Counter"), module(items)),
        Err(ExpandError::ConflictingTags { method: s("get") })
    );
}

#[test]
fn module_without_body_is_rejected() {
    let m = Module { header: s("mod counter"), content: None };
    assert_eq!(account_handler(&s("Counter"), m), Err(ExpandError::MissingContent));
}

#[test]
fn blanket_tag_applies_to_untagged_methods() {
    let blanket = named_publish("all");
    let own = named_publish("own");
    let item = block(
        "Counter",
        vec![AttributeTag::Publish(blanket.clone())],
        vec![
            method(vec![], get_sig()),
            method(vec![AttributeTag::Publish(own.clone())], inc_sig()),
            method(vec![on_create_tag()], create_sig()),
            ImplItem::Other(s("const N: u8 = 1;")),
        ],
    );
    let mut targets: Vec<PublishTarget> = Vec::new();
    assert_eq!(collect_publish_targets(&s("Counter"), &item, &mut targets), Ok(()));
    assert_eq!(
        targets,
        vec![
            PublishTarget { signature: get_sig(), tag: AttributeTag::Publish(blanket) },
            PublishTarget { signature: inc_sig(), tag: AttributeTag::Publish(own) },
            PublishTarget { signature: create_sig(), tag: on_create_tag() },
        ]
    );
}

#[test]
fn untagged_methods_without_blanket_are_skipped() {
    let item = block(
        "Counter",
        vec![],
        vec![method(vec![], get_sig()), method(vec![publish_tag()], inc_sig())],
    );
    let mut targets: Vec<PublishTarget> = vec![PublishTarget {
        signature: create_sig(),
        tag: on_create_tag(),
    }];
    assert_eq!(collect_publish_targets(&s("Counter"), &item, &mut targets), Ok(()));
    assert_eq!(targets.len(), 2);
    assert_eq!(targets[0].signature, create_sig());
    assert_eq!(targets[1], PublishTarget { signature: inc_sig(), tag: publish_tag() });
}

#[test]
fn classify_method_gives_effective_tag() {
    let blanket = Some(named_publish("all"));
    let tagged = Method { attrs: vec![publish_tag()], sig: get_sig() };
    let untagged = Method { attrs: vec![], sig: get_sig() };
    let both = Method { attrs: vec![on_create_tag(), publish_tag()], sig: get_sig() };
    assert_eq!(
        classify_method(&blanket, &tagged),
        Ok(Some(PublishTarget { signature: get_sig(), tag: publish_tag() }))
    );
    assert_eq!(
        classify_method(&blanket, &untagged),
        Ok(Some(PublishTarget {
            signature: get_sig(),
            tag: AttributeTag::Publish(named_publish("all")),
        }))
    );
    assert_eq!(classify_method(&None, &untagged), Ok(None));
    assert_eq!(
        classify_method(&blanket, &both),
        Err(ExpandError::ConflictingTags { method: s("get") })
    );
}

#[test]
fn extraction_takes_the_first_tag_of_its_kind() {
    let attrs = vec![
        on_create_tag(),
        AttributeTag::Publish(named_publish("a")),
        AttributeTag::Publish(named_publish("b")),
        AttributeTag::OnCreate(OnCreate { message_name: Some(s("init")) }),
    ];
    assert_eq!(maybe_extract_publish(&attrs), Some(named_publish("a")));
    assert_eq!(maybe_extract_on_create(&attrs), Some(OnCreate { message_name: None }));
    assert_eq!(maybe_extract_publish(&vec![on_create_tag()]), None);
    assert_eq!(maybe_extract_on_create(&vec![publish_tag()]), None);
    assert_eq!(maybe_extract_publish(&vec![]), None);
}

#[test]
fn one_message_per_published_method() {
    let names = ["alpha", "beta_gamma", "delta", "epsilon_zeta_eta"];
    let expected = ["VaultAlphaMsg", "VaultBetaGammaMsg", "VaultDeltaMsg", "VaultEpsilonZetaEtaMsg"];
    let mut methods = vec![method(vec![on_create_tag()], create_sig())];
    for n in names.iter() {
        methods.push(method(vec![publish_tag()], sig(n, vec![], "")));
    }
    let out = account_handler(&s("Vault"), module(vec![block("Vault", vec![], methods)])).unwrap();
    let content = out.content.unwrap();
    assert_eq!(content.len(), 1 + 8 + names.len() + 1);
    for (i, e) in expected.iter().enumerate() {
        assert_eq!(content[9 + i], message(e, vec![]));
    }
    match &content[9 + names.len()] {
        Item::Generated(Declaration::ClientImpl { client, stubs }) => {
            assert_eq!(client, "VaultClient");
            assert_eq!(stubs.len(), names.len());
        }
        other => panic!("unexpected item {:?}", other),
    }
}

#[test]
fn method_name_is_camel_cased() {
    let signature = sig("get_balance", vec![], "u64");
    assert_eq!(
        method_message("Bank", &signature),
        Ok(Declaration::MessageStruct { name: s("BankGetBalanceMsg"), fields: vec![] })
    );
}

#[test]
fn message_struct_name_joins_its_parts() {
    assert_eq!(message_struct_name("Counter", "Get"), "CounterGetMsg");
    assert_eq!(message_struct_name("", ""), "Msg");
    assert_eq!(
        message_struct("Counter", "Inc", &inc_sig()),
        Ok(Declaration::MessageStruct { name: s("CounterIncMsg"), fields: vec![] })
    );
}

#[test]
fn context_reference_is_recognised_by_its_referent() {
    assert!(refers_to_context(&context("&Context")));
    assert!(!refers_to_context(&plain("Context")));
    assert!(!refers_to_context(&ParamType { text: s("&Ctx"), referent: Some(s("Ctx")) }));
}

#[test]
fn expansion_is_deterministic() {
    let a = account_handler(&s("Counter"), module(counter_items()));
    let b = account_handler(&s("Counter"), module(counter_items()));
    assert_eq!(a, b);
    assert!(a.is_ok());
}

#[test]
fn user_declarations_stay_in_front() {
    let out = account_handler(&s("Counter"), module(counter_items())).unwrap();
    let content = out.content.unwrap();
    let base = counter_items_without_tags();
    assert_eq!(&content[..base.len()], &base[..]);
}

#[test]
fn publish_marker_alone_fails() {
    let r = publish("", "fn free() {}");
    assert_eq!(r, Err(ExpandError::MisplacedMarker { marker: s("publish") }));
    assert_eq!(
        r.unwrap_err().message(),
        "the #[publish] attribute is being used in the wrong context, possibly #[module_handler] or #[account_handler] has not been applied to the enclosing module"
    );
}

#[test]
fn on_create_marker_alone_fails() {
    let r = on_create("", "fn free() {}");
    assert_eq!(r, Err(ExpandError::MisplacedMarker { marker: s("on_create") }));
    assert_eq!(
        r.unwrap_err().message(),
        "the #[on_create] attribute is being used in the wrong context, possibly #[module_handler] or #[account_handler] has not been applied to the enclosing module"
    );
}

#[test]
fn diagnostics_name_the_failure() {
    assert_eq!(
        ExpandError::ConflictingTags { method: s("get") }.message(),
        "on_create and publish attributes must not be attached to the same function: get"
    );
    assert_eq!(ExpandError::ExpectedIdentifier.message(), "expected identifier");
    assert_eq!(ExpandError::MissingContent.message(), "expected a module with a body");
}

#[test]
fn pass_through_markers_are_identities() {
    assert_eq!(module_handler("x", s("mod m {}")), "mod m {}");
    assert_eq!(account_api("", s("trait A {}")), "trait A {}");
    assert_eq!(module_api("", s("trait B {}")), "trait B {}");
    assert_eq!(package_root(s("mod a {} mod b {}")), "mod a {} mod b {}");
    assert_eq!(package_root(String::new()), "");
}

#[test]
fn resources_derive_registers_the_struct() {
    assert_eq!(derive_resources("Counter"), Declaration::ResourcesImpl { name: s("Counter") });
}

#[test]
fn push_item_appends() {
    let mut items = vec![Item::Other(s("struct A;"))];
    push_item(&mut items, Declaration::ClientStruct { name: s("AClient") });
    assert_eq!(
        items,
        vec![
            Item::Other(s("struct A;")),
            Item::Generated(Declaration::ClientStruct { name: s("AClient") }),
        ]
    );
}

#[test]
fn clones_are_equal() {
    let signature = send_sig();
    assert_eq!(signature.clone(), send_sig());
    assert_eq!(named_publish("x").clone(), named_publish("x"));
    assert_eq!(on_create_tag().clone(), on_create_tag());
    assert_eq!(clone_opt(&Some(s("a"))), Some(s("a")));
    assert_eq!(clone_opt(&None), None);
}

#[test]
fn handler_blocks_are_told_by_bare_identifier() {
    let handler = s("Counter");
    assert!(names_handler(&handler, &block("Counter", vec![], vec![])));
    assert!(!names_handler(&handler, &block("Counters", vec![], vec![])));
    assert!(!names_handler(&handler, &Item::Other(s("struct Counter;"))));
    let qualified = Item::Impl(ImplBlock {
        self_ty: SelfType::Other(s("self::Counter")),
        attrs: vec![],
        items: vec![],
    });
    assert!(!names_handler(&handler, &qualified));
    let generated = Item::Generated(Declaration::ClientStruct { name: s("Counter") });
    assert!(!names_handler(&handler, &generated));
}

#[test]
fn stub_keeps_the_whole_signature() {
    let signature = Signature {
        text: s("pub async fn get<T: Codec>(&self, key: T) -> Response<u64>"),
        name: s("get"),
        inputs: vec![FnArg::Receiver(s("&self")), typed("key", plain("T"))],
        output: s("Response<u64>"),
    };
    let items = vec![block("Store", vec![publish_tag()], vec![method(vec![], signature.clone())])];
    let out = account_handler(&s("Store"), module(items)).unwrap();
    let content = out.content.unwrap();
    assert_eq!(content[9], message("StoreGetMsg", vec![field("key", "T")]));
    assert_eq!(content[10], client_impl("StoreClient", vec![signature]));
}

#[test]
fn wiring_renders_as_source_text() {
    assert_eq!(
        render(&Declaration::HandlerImpl { handler: s("Counter") }),
        "impl ::interchain_core::handler::Handler for Counter { type Init = (); }"
    );
    assert_eq!(
        render(&Declaration::ClientStruct { name: s("CounterClient") }),
        "pub struct CounterClient(::interchain_message_api::Address);"
    );
    assert_eq!(
        render(&Declaration::AccountClientImpl { client: s("CounterClient") }),
        "impl ::interchain_core::handler::AccountClient for CounterClient { fn address(&self) -> &::interchain_message_api::Address { &self.0 } }"
    );
    assert_eq!(
        render(&Declaration::ClientFactoryStruct { name: s("CounterClientFactory") }),
        "pub struct CounterClientFactory;"
    );
    assert_eq!(
        render(&Declaration::ResourceImpl { factory: s("CounterClientFactory") }),
        "unsafe impl ::interchain_core::resource::Resource for CounterClientFactory { unsafe fn new(initializer: &mut ::interchain_core::resource::Initializer) -> Result<Self, ::interchain_core::resource::InitializationError> { todo!() } }"
    );
    assert_eq!(
        render(&Declaration::AccountClientFactoryImpl {
            factory: s("CounterClientFactory"),
            client: s("CounterClient"),
        }),
        "impl ::interchain_core::handler::AccountClientFactory for CounterClientFactory { type Client = CounterClient; fn new_client(address: &::interchain_message_api::Address) -> Self::Client { CounterClient(address.clone()) } }"
    );
    assert_eq!(
        render(&Declaration::AccountApiImpl {
            handler: s("Counter"),
            factory: s("CounterClientFactory"),
        }),
        "impl ::interchain_core::handler::AccountAPI for Counter { type ClientFactory = CounterClientFactory; }"
    );
    assert_eq!(
        render(&Declaration::AccountHandlerImpl { handler: s("Counter") }),
        "impl ::interchain_core::handler::AccountHandler for Counter {}"
    );
    assert_eq!(
        render(&Declaration::ResourcesImpl { name: s("Counter") }),
        "unsafe impl ::interchain_core::resource::Resources for Counter {}"
    );
}

#[test]
fn message_struct_renders_with_codec_tag_and_fields() {
    let decl = Declaration::MessageStruct {
        name: s("BankSendMsg"),
        fields: vec![field("to", "Address"), field("amount", "u64")],
    };
    assert_eq!(
        render(&decl),
        "#[derive(StructCodec)] pub struct BankSendMsg { to: Address, amount: u64, }"
    );
    let empty = Declaration::MessageStruct { name: s("CounterGetMsg"), fields: vec![] };
    assert_eq!(render(&empty), "#[derive(StructCodec)] pub struct CounterGetMsg { }");
    assert_eq!(render_fields(&vec![field("a", "u8")]), "a: u8, ");
    assert_eq!(render_fields(&vec![]), "");
}

#[test]
fn client_stubs_render_with_open_bodies() {
    let one = Signature {
        text: s("pub fn get(&self, ctx: &Context) -> Response<u64>"),
        name: s("get"),
        inputs: vec![],
        output: s("Response<u64>"),
    };
    let two = Signature {
        text: s("pub fn inc(&mut self, ctx: &mut Context) -> Response<()>"),
        name: s("inc"),
        inputs: vec![],
        output: s("Response<()>"),
    };
    assert_eq!(render_stubs(&vec![]), "");
    let decl = Declaration::ClientImpl { client: s("CounterClient"), stubs: vec![one, two] };
    assert_eq!(
        render(&decl),
        "impl CounterClient { pub fn get(&self, ctx: &Context) -> Response<u64> { todo!() } pub fn inc(&mut self, ctx: &mut Context) -> Response<()> { todo!() } }"
    );
}

#[test]
fn counter_expansion_renders_in_order() {
    let out = account_handler(&s("Counter"), module(counter_items())).unwrap();
    let content = out.content.unwrap();
    let mut texts = Vec::new();
    for item in content.iter().skip(2) {
        match item {
            Item::Generated(d) => texts.push(render(d)),
            other => panic!("unexpected item {:?}", other),
        }
    }
    assert_eq!(texts.len(), 11);
    assert_eq!(texts[0], "impl ::interchain_core::handler::Handler for Counter { type Init = (); }");
    assert_eq!(texts[8], "#[derive(StructCodec)] pub struct CounterGetMsg { }");
    assert_eq!(texts[9], "#[derive(StructCodec)] pub struct CounterIncMsg { }");
    assert!(texts[10].starts_with("impl CounterClient { "));
}

#[test]
fn consumed_tags_are_taken_off_handler_blocks_only() {
    let tagged = |name: &str| {
        block(
            name,
            vec![publish_tag(), on_create_tag(), AttributeTag::Publish(named_publish("x"))],
            vec![
                method(vec![publish_tag()], get_sig()),
                ImplItem::Other(s("const N: u8 = 1;")),
                method(vec![on_create_tag()], create_sig()),
                method(vec![], inc_sig()),
            ],
        )
    };
    let items = vec![tagged("Other"), tagged("Counter")];
    let out = account_handler(&s("Counter"), module(items)).unwrap();
    let content = out.content.unwrap();
    assert_eq!(content[0], tagged("Other"));
    assert_eq!(
        content[1],
        block(
            "Counter",
            vec![on_create_tag()],
            vec![
                method(vec![], get_sig()),
                ImplItem::Other(s("const N: u8 = 1;")),
                method(vec![], create_sig()),
                method(vec![], inc_sig()),
            ],
        )
    );
    assert_eq!(content.len(), 2 + 8 + 2 + 1);
    assert_eq!(content[10], message("CounterGetMsg", vec![]));
    assert_eq!(content[11], message("CounterIncMsg", vec![]));
}

#[test]
fn strip_tags_keeps_members_and_signatures() {
    let before = ImplBlock {
        self_ty: SelfType::Ident(s("Bank")),
        attrs: vec![AttributeTag::Publish(named_publish("all"))],
        items: vec![method(vec![publish_tag()], send_sig()), ImplItem::Other(s("type A = u8;"))],
    };
    let after = strip_tags(&before);
    assert_eq!(
        after,
        ImplBlock {
            self_ty: SelfType::Ident(s("Bank")),
            attrs: vec![],
            items: vec![method(vec![], send_sig()), ImplItem::Other(s("type A = u8;"))],
        }
    );
}

#[test]
fn failed_collection_has_appended_the_targets_before_the_conflict() {
    let item = block(
        "Counter",
        vec![],
        vec![
            method(vec![publish_tag()], get_sig()),
            method(vec![publish_tag(), on_create_tag()], create_sig()),
            method(vec![publish_tag()], inc_sig()),
        ],
    );
    let mut targets: Vec<PublishTarget> = Vec::new();
    assert_eq!(
        collect_publish_targets(&s("Counter"), &item, &mut targets),
        Err(ExpandError::ConflictingTags { method: s("create") })
    );
    assert_eq!(targets, vec![PublishTarget { signature: get_sig(), tag: publish_tag() }]);
}
