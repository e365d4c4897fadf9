//! The expansion of a handler module, and the markers around it.

use vstd::prelude::*;
use vstd::string::*;
use crate::message::{has_bad_pattern, message_fields_of, message_name, method_message};
use crate::model::{
    AttributeTag, Declaration, DeclarationView, ExpandError, Item, Module, PublishTarget,
    Signature, SignatureView, TargetView,
};
use crate::tags::{
    collect_publish_targets, item_stripped, lemma_scan_items_sticky, names_handler, scan_items,
    strip_tags, target_views,
};

verus! {

/// The name of the client struct of a handler.
pub open spec fn client_name(handler: Seq<char>) -> Seq<char> {
    handler + "Client"@
}

/// The name of the client factory struct of a handler.
pub open spec fn client_factory_name(handler: Seq<char>) -> Seq<char> {
    handler + "ClientFactory"@
}

/// The fixed declarations that register a handler and give it a client and a
/// client factory, in the order in which they are appended.
pub open spec fn wiring(handler: Seq<char>) -> Seq<DeclarationView> {
    seq![
        DeclarationView::HandlerImpl { handler },
        DeclarationView::ClientStruct { name: client_name(handler) },
        DeclarationView::AccountClientImpl { client: client_name(handler) },
        DeclarationView::ClientFactoryStruct { name: client_factory_name(handler) },
        DeclarationView::ResourceImpl { factory: client_factory_name(handler) },
        DeclarationView::AccountClientFactoryImpl {
            factory: client_factory_name(handler),
            client: client_name(handler),
        },
        DeclarationView::AccountApiImpl { handler, factory: client_factory_name(handler) },
        DeclarationView::AccountHandlerImpl { handler },
    ]
}

/// A target is published when its effective tag is no initializer tag.
pub open spec fn is_published(target: TargetView) -> bool {
    target.tag is Publish
}

/// The message struct of a target: one for each published target, none for
/// the initializer.
pub open spec fn message_of(handler: Seq<char>, target: TargetView) -> Option<DeclarationView> {
    if is_published(target) {
        Some(
            DeclarationView::MessageStruct {
                name: message_name(handler, target.signature.name),
                fields: message_fields_of(target.signature.inputs),
            },
        )
    } else {
        None
    }
}

/// The client stub of a target: the signature of a published target.
pub open spec fn stub_of(target: TargetView) -> Option<SignatureView> {
    if is_published(target) {
        Some(target.signature)
    } else {
        None
    }
}

/// The message structs of a target list, in target order.
pub open spec fn messages(handler: Seq<char>, targets: Seq<TargetView>) -> Seq<DeclarationView> {
    targets.filter_map(|t: TargetView| message_of(handler, t))
}

/// The client stubs of a target list, in target order.
pub open spec fn stubs(targets: Seq<TargetView>) -> Seq<SignatureView> {
    targets.filter_map(|t: TargetView| stub_of(t))
}

/// Some published target has a parameter bound to a pattern that is no
/// identifier.
pub open spec fn targets_have_bad_pattern(targets: Seq<TargetView>) -> bool {
    exists|i: int|
        0 <= i < targets.len() && is_published(#[trigger] targets[i]) && has_bad_pattern(
            targets[i].signature.inputs,
        )
}

/// All that an expansion appends: the wiring, the message structs, and the
/// client's stubs.
pub open spec fn synthesized(handler: Seq<char>, targets: Seq<TargetView>) -> Seq<
    DeclarationView,
> {
    wiring(handler) + messages(handler, targets) + seq![
        DeclarationView::ClientImpl { client: client_name(handler), stubs: stubs(targets) },
    ]
}

/// The item is a synthesized declaration with the given view.
pub open spec fn generated_as(item: Item, decl: DeclarationView) -> bool {
    match item {
        Item::Generated(g) => g@ == decl,
        _ => false,
    }
}

/// `out` is what the expansion leaves of `base`, declaration by declaration
/// (the blocks of the handler with their tags taken off, the rest as it was),
/// followed by the declarations `decls`.
pub open spec fn extends(
    out: Seq<Item>,
    handler: Seq<char>,
    base: Seq<Item>,
    decls: Seq<DeclarationView>,
) -> bool {
    &&& out.len() == base.len() + decls.len()
    &&& forall|i: int|
        0 <= i < base.len() ==> item_stripped(handler, #[trigger] base[i], out[i])
    &&& forall|j: int|
        0 <= j < decls.len() ==> generated_as(out[base.len() + j], #[trigger] decls[j])
}

/// The views of a list of signatures.
pub open spec fn signature_views(signatures: Seq<Signature>) -> Seq<SignatureView> {
    signatures.map_values(|s: Signature| s@)
}

proof fn lemma_extends_push(
    out: Seq<Item>,
    handler: Seq<char>,
    base: Seq<Item>,
    decls: Seq<DeclarationView>,
    d: Declaration,
)
    requires
        extends(out, handler, base, decls),
    ensures
        extends(out.push(Item::Generated(d)), handler, base, decls.push(d@)),
{
    let out2 = out.push(Item::Generated(d));
    let decls2 = decls.push(d@);
    assert forall|j: int| 0 <= j < decls2.len() implies generated_as(
        out2[base.len() + j],
        #[trigger] decls2[j],
    ) by {
        if j < decls.len() {
            assert(decls2[j] == decls[j]);
        }
    }
}

/// Appends a synthesized declaration to a declaration sequence.
pub fn push_item(items: &mut Vec<Item>, expanded: Declaration)
    ensures
        final(items)@ == old(items)@.push(Item::Generated(expanded)),
{
    items.push(Item::Generated(expanded));
}

/// Appends a synthesized declaration to a sequence that extends `base` by
/// `decls`, and gives the list grown by it, by which the sequence then extends
/// `base`.
fn append(
    items: &mut Vec<Item>,
    decl: Declaration,
    Ghost(handler): Ghost<Seq<char>>,
    Ghost(base): Ghost<Seq<Item>>,
    Ghost(decls): Ghost<Seq<DeclarationView>>,
) -> (grown: Ghost<Seq<DeclarationView>>)
    requires
        extends(old(items)@, handler, base, decls),
    ensures
        grown@ == decls.push(decl@),
        extends(final(items)@, handler, base, grown@),
{
    proof {
        lemma_extends_push(items@, handler, base, decls, decl);
    }
    let ghost view = decl@;
    push_item(items, decl);
    Ghost(decls.push(view))
}

/// Appends the wiring of a handler to a sequence that so far extends `base` by
/// nothing.
fn push_wiring(items: &mut Vec<Item>, handler: &String, Ghost(base): Ghost<Seq<Item>>)
    requires
        extends(old(items)@, handler@, base, Seq::empty()),
    ensures
        extends(final(items)@, handler@, base, wiring(handler@)),
{
    let client = handler.clone().concat("Client");
    let factory = handler.clone().concat("ClientFactory");
    let h = Ghost(handler@);
    let b = Ghost(base);
    let d = Ghost(Seq::empty());
    let d = append(items, Declaration::HandlerImpl { handler: handler.clone() }, h, b, d);
    let d = append(items, Declaration::ClientStruct { name: client.clone() }, h, b, d);
    let d = append(items, Declaration::AccountClientImpl { client: client.clone() }, h, b, d);
    let d = append(items, Declaration::ClientFactoryStruct { name: factory.clone() }, h, b, d);
    let d = append(items, Declaration::ResourceImpl { factory: factory.clone() }, h, b, d);
    let d = append(
        items,
        Declaration::AccountClientFactoryImpl { factory: factory.clone(), client },
        h,
        b,
        d,
    );
    let d = append(
        items,
        Declaration::AccountApiImpl { handler: handler.clone(), factory },
        h,
        b,
        d,
    );
    let d = append(items, Declaration::AccountHandlerImpl { handler: handler.clone() }, h, b, d);
    assert(d@ =~= wiring(handler@));
}

/// Expands a handler module. The publish targets of the implementation blocks
/// of `handler` are collected in declaration order; then the wiring, one
/// message struct per published target and the client's stubs are appended to
/// the module's declarations. Those stay as they are, but for the blocks of
/// the handler, which lose the tags that the expansion consumed.
///
/// Fails, with nothing emitted, when the module has no body, when a method of
/// the handler carries both kinds of tag (the first such method is named), or
/// when a published method has a parameter bound to a pattern that is no
/// identifier.
pub fn account_handler(handler: &String, module: Module) -> (r: Result<Module, ExpandError>)
    ensures
        match r {
            Ok(m) => m.header == module.header && match (module.content, m.content) {
                (Some(items), Some(out)) => match scan_items(handler@, items@) {
                    Ok(targets) => !targets_have_bad_pattern(targets) && extends(
                        out@,
                        handler@,
                        items@,
                        synthesized(handler@, targets),
                    ),
                    Err(_) => false,
                },
                _ => false,
            },
            Err(ExpandError::MissingContent) => module.content is None,
            Err(ExpandError::ConflictingTags { method }) => match module.content {
                Some(items) => scan_items(handler@, items@) == Err::<Seq<TargetView>, Seq<char>>(
                    method@,
                ),
                None => false,
            },
            Err(ExpandError::ExpectedIdentifier) => match module.content {
                Some(items) => match scan_items(handler@, items@) {
                    Ok(targets) => targets_have_bad_pattern(targets),
                    Err(_) => false,
                },
                None => false,
            },
            Err(ExpandError::MisplacedMarker { marker }) => false,
        },
{
    let Module { header, content } = module;
    let mut items = match content {
        Some(items) => items,
        None => {
            return Err(ExpandError::MissingContent);
        },
    };
    let ghost base = items@;

    let mut publish_targets: Vec<PublishTarget> = Vec::new();
    let mut i: usize = 0;
    assert(target_views(publish_targets@) =~= Seq::empty());
    while i < items.len()
        invariant
            i <= items.len(),
            items@ == base,
            module.content matches Some(v) && v@ == base,
            scan_items(handler@, base.take(i as int)) == Ok::<Seq<TargetView>, Seq<char>>(
                target_views(publish_targets@),
            ),
        decreases items.len() - i,
    {
        proof {
            assert(base.take(i + 1).drop_last() =~= base.take(i as int));
        }
        match collect_publish_targets(handler, &items[i], &mut publish_targets) {
            Ok(()) => {},
            Err(e) => {
                proof {
                    lemma_scan_items_sticky(handler@, base, i + 1, base.len() as int);
                    assert(base.take(base.len() as int) =~= base);
                }
                return Err(e);
            },
        }
        i = i + 1;
    }
    proof {
        assert(base.take(i as int) =~= base);
    }
    let ghost targets = target_views(publish_targets@);

    let mut s: usize = 0;
    while s < items.len()
        invariant
            s <= items.len(),
            items@.len() == base.len(),
            forall|j: int| 0 <= j < s ==> item_stripped(handler@, #[trigger] base[j], items@[j]),
            forall|j: int| s <= j < base.len() ==> items@[j] == #[trigger] base[j],
        decreases items.len() - s,
    {
        if names_handler(handler, &items[s]) {
            let stripped = match &items[s] {
                Item::Impl(block) => Some(Item::Impl(strip_tags(block))),
                _ => None,
            };
            match stripped {
                Some(item) => {
                    items.set(s, item);
                },
                None => {},
            }
        }
        s = s + 1;
    }

    assert(extends(items@, handler@, base, Seq::empty()));
    push_wiring(&mut items, handler, Ghost(base));
    let mut decls: Ghost<Seq<DeclarationView>> = Ghost(wiring(handler@));

    let ghost fm = |t: TargetView| message_of(handler@, t);
    let ghost fs = |t: TargetView| stub_of(t);
    let mut client_fn_impls: Vec<Signature> = Vec::new();
    let mut k: usize = 0;
    assert(signature_views(client_fn_impls@) =~= targets.take(0).filter_map(fs));
    assert(decls@ =~= wiring(handler@) + targets.take(0).filter_map(fm));
    while k < publish_targets.len()
        invariant
            k <= publish_targets.len(),
            targets == target_views(publish_targets@),
            module.content matches Some(v) && v@ == base,
            scan_items(handler@, base) == Ok::<Seq<TargetView>, Seq<char>>(targets),
            fm == |t: TargetView| message_of(handler@, t),
            fs == |t: TargetView| stub_of(t),
            extends(items@, handler@, base, decls@),
            decls@ == wiring(handler@) + targets.take(k as int).filter_map(fm),
            signature_views(client_fn_impls@) == targets.take(k as int).filter_map(fs),
            forall|j: int|
                0 <= j < k ==> !(is_published(#[trigger] targets[j]) && has_bad_pattern(
                    targets[j].signature.inputs,
                )),
        decreases publish_targets.len() - k,
    {
        proof {
            targets.lemma_filter_map_take_succ(fm, k as int);
            targets.lemma_filter_map_take_succ(fs, k as int);
        }
        let publish_target = &publish_targets[k];
        assert(targets[k as int] == publish_target@);
        match &publish_target.tag {
            AttributeTag::OnCreate(_) => {},
            AttributeTag::Publish(_) => {
                let ghost before = client_fn_impls@;
                let signature = publish_target.signature.clone();
                client_fn_impls.push(signature);
                assert(signature_views(client_fn_impls@) =~= signature_views(before).push(
                    publish_target.signature@,
                ));
                match method_message(handler.as_str(), &publish_target.signature) {
                    Ok(d) => {
                        decls = append(&mut items, d, Ghost(handler@), Ghost(base), decls);
                        assert(decls@ =~= wiring(handler@) + targets.take(k + 1).filter_map(fm));
                    },
                    Err(e) => {
                        assert(is_published(targets[k as int]) && has_bad_pattern(
                            targets[k as int].signature.inputs,
                        ));
                        return Err(e);
                    },
                }
            },
        }
        k = k + 1;
    }
    proof {
        assert(targets.take(k as int) =~= targets);
    }
    let client = handler.clone().concat("Client");
    let d = Declaration::ClientImpl { client, stubs: client_fn_impls };
    let all = append(&mut items, d, Ghost(handler@), Ghost(base), decls);
    assert(all@ =~= synthesized(handler@, targets));
    Ok(Module { header, content: Some(items) })
}

} // verus!
