//! What holds of every expansion.

use vstd::prelude::*;
use crate::expand::{extends, generated_as, is_published, messages, synthesized};
use crate::message::{field_of, is_context_ref, message_fields_of, message_name, upper_camel_case};
use crate::render::generated_text;
use crate::model::{
    AttributeTag, DeclarationView, FnArg, ImplItem, Item, Pattern, Publish, TargetView,
};
use crate::tags::{
    as_on_create, as_publish, block_conflicts, block_matches, conflict_name, effective_tag,
    first_on_create, first_publish, has_conflict, is_handler_block, item_scan,
    lemma_filter_map_prefix, lemma_scan_items_sticky, scan_items, unless_publish, without_publish,
};

verus! {

/// The published targets of a target list, in order.
pub open spec fn published(targets: Seq<TargetView>) -> Seq<TargetView> {
    targets.filter(|t: TargetView| is_published(t))
}

/// The message struct of a published target.
pub open spec fn message_for(handler: Seq<char>, target: TargetView) -> DeclarationView {
    DeclarationView::MessageStruct {
        name: message_name(handler, target.signature.name),
        fields: message_fields_of(target.signature.inputs),
    }
}

/// `filter_map` distributes over concatenation.
pub proof fn lemma_filter_map_concat<A, B>(a: Seq<A>, b: Seq<A>, f: spec_fn(A) -> Option<B>)
    ensures
        (a + b).filter_map(f) == a.filter_map(f) + b.filter_map(f),
    decreases b.len(),
{
    if b.len() == 0 {
        assert(a + b =~= a);
        assert(a.filter_map(f) + b.filter_map(f) =~= a.filter_map(f));
    } else {
        lemma_filter_map_concat(a, b.drop_last(), f);
        assert((a + b).drop_last() =~= a + b.drop_last());
        assert((a + b).last() == b.last());
        assert((a + b).filter_map(f) =~= a.filter_map(f) + b.filter_map(f));
    }
}

/// An element that `f` keeps makes the result of `filter_map` non-empty.
pub proof fn lemma_filter_map_nonempty<A, B>(s: Seq<A>, f: spec_fn(A) -> Option<B>, i: int)
    requires
        0 <= i < s.len(),
        f(s[i]) is Some,
    ensures
        s.filter_map(f).len() > 0,
{
    s.lemma_filter_map_take_succ(f, i);
    lemma_filter_map_prefix(s, f, i + 1, s.len() as int);
    assert(s.take(s.len() as int) =~= s);
}

/// The expansion synthesizes exactly one message struct per published target,
/// in target order, each named by the handler's name, the method's name in
/// upper camel case and `Msg`; the initializer gets none. Beside them stand the
/// eight declarations of the wiring and the client's stubs.
pub proof fn law_one_message_per_published_target(handler: Seq<char>, targets: Seq<TargetView>)
    ensures
        messages(handler, targets) == published(targets).map_values(
            |t: TargetView| message_for(handler, t),
        ),
        messages(handler, targets).len() == published(targets).len(),
        synthesized(handler, targets).len() == 9 + published(targets).len(),
    decreases targets.len(),
{
    reveal(Seq::filter);
    let mapped = published(targets).map_values(|t: TargetView| message_for(handler, t));
    if targets.len() > 0 {
        law_one_message_per_published_target(handler, targets.drop_last());
        assert(messages(handler, targets) =~= mapped);
    } else {
        assert(messages(handler, targets) =~= mapped);
    }
}

/// Two message structs of one expansion have different names wherever the
/// names of their methods differ in upper camel case.
pub proof fn law_message_names_distinct(
    handler: Seq<char>,
    targets: Seq<TargetView>,
    i: int,
    j: int,
)
    requires
        0 <= i < published(targets).len(),
        0 <= j < published(targets).len(),
        upper_camel_case(published(targets)[i].signature.name) != upper_camel_case(
            published(targets)[j].signature.name,
        ),
    ensures
        messages(handler, targets)[i] == message_for(handler, published(targets)[i]),
        messages(handler, targets)[j] == message_for(handler, published(targets)[j]),
        message_name(handler, published(targets)[i].signature.name) != message_name(
            handler,
            published(targets)[j].signature.name,
        ),
{
    law_one_message_per_published_target(handler, targets);
    let x = upper_camel_case(published(targets)[i].signature.name);
    let y = upper_camel_case(published(targets)[j].signature.name);
    let nx = handler + x + "Msg"@;
    let ny = handler + y + "Msg"@;
    if nx == ny {
        assert(nx.len() == ny.len());
        assert(x.len() == y.len());
        assert forall|k: int| 0 <= k < x.len() implies x[k] == y[k] by {
            assert(nx[handler.len() + k] == x[k]);
            assert(ny[handler.len() + k] == y[k]);
        }
        assert(x =~= y);
    }
}

/// A method of the handler that carries both a publish and an initializer tag
/// makes the collection of targets fail, in whatever order the two tags stand.
pub proof fn law_conflict_rejected(
    handler: Seq<char>,
    items: Seq<Item>,
    b: int,
    m: int,
    p: int,
    c: int,
)
    requires
        0 <= b < items.len(),
        match items[b] {
            Item::Impl(block) => block_matches(handler, block) && 0 <= m < block.items@.len()
                && match block.items@[m] {
                ImplItem::Fn(method) => 0 <= p < method.attrs@.len() && 0 <= c
                    < method.attrs@.len() && method.attrs@[p] is Publish
                    && method.attrs@[c] is OnCreate,
                ImplItem::Other(_) => false,
            },
            _ => false,
        },
    ensures
        scan_items(handler, items) is Err,
{
    if let Item::Impl(block) = items[b] {
        if let ImplItem::Fn(method) = block.items@[m] {
            lemma_filter_map_nonempty(method.attrs@, |t: AttributeTag| as_publish(t), p);
            lemma_filter_map_nonempty(method.attrs@, |t: AttributeTag| as_on_create(t), c);
            assert(has_conflict(method.attrs@));
            lemma_filter_map_nonempty(block.items@, |it: ImplItem| conflict_name(it), m);
            assert(block_conflicts(block).len() > 0);
            assert(item_scan(handler, items[b]) is Err);
        }
    }
    assert(items.take(b + 1).drop_last() =~= items.take(b));
    assert(items.take(b + 1).last() == items[b]);
    assert(scan_items(handler, items.take(b + 1)) is Err);
    lemma_scan_items_sticky(handler, items, b + 1, items.len() as int);
    assert(items.take(items.len() as int) =~= items);
}

/// The fields of a message follow the order of the parameters: the fields of
/// a parameter list in two parts are those of the first part followed by those
/// of the second.
pub proof fn law_fields_follow_parameter_order(a: Seq<FnArg>, b: Seq<FnArg>)
    ensures
        message_fields_of(a + b) == message_fields_of(a) + message_fields_of(b),
{
    lemma_filter_map_concat(a, b, |x: FnArg| field_of(x));
}

/// A parameter that refers to the execution context leaves no trace in the
/// fields, wherever in the parameter list it stands: the fields are those of
/// the list without it.
pub proof fn law_context_parameter_removed(inputs: Seq<FnArg>, k: int)
    requires
        0 <= k < inputs.len(),
        match inputs[k] {
            FnArg::Typed { pat: Pattern::Ident(_), ty } => is_context_ref(ty),
            _ => false,
        },
    ensures
        message_fields_of(inputs) == message_fields_of(inputs.remove(k)),
{
    let f = |x: FnArg| field_of(x);
    let head = inputs.take(k);
    let mid = seq![inputs[k]];
    let tail = inputs.skip(k + 1);
    assert(inputs =~= head + mid + tail);
    assert(inputs.remove(k) =~= head + tail);
    lemma_filter_map_concat(head + mid, tail, f);
    lemma_filter_map_concat(head, mid, f);
    lemma_filter_map_concat(head, tail, f);
    assert(mid.drop_last() =~= Seq::<FnArg>::empty());
    assert(Seq::<FnArg>::empty().filter_map(f) =~= Seq::empty());
    assert(f(mid.last()) is None);
    assert(mid.filter_map(f) =~= Seq::empty());
    assert(head.filter_map(f) + mid.filter_map(f) =~= head.filter_map(f));
}

/// A parameter bound to an identifier whose type does not refer to the
/// execution context becomes a field of its own name and type.
pub proof fn law_plain_parameter_kept(inputs: Seq<FnArg>, arg: FnArg)
    requires
        field_of(arg) is Some,
    ensures
        message_fields_of(inputs.push(arg)) == message_fields_of(inputs).push(
            field_of(arg)->Some_0,
        ),
{
    let f = |x: FnArg| field_of(x);
    assert(inputs.push(arg).drop_last() =~= inputs);
    assert(inputs.push(arg).filter_map(f) =~= inputs.filter_map(f).push(field_of(arg)->Some_0));
}

/// The blanket publish tag of a block applies to every method that carries no
/// tag of its own.
pub proof fn law_blanket_applies(blanket: Publish, attrs: Seq<AttributeTag>)
    requires
        first_publish(attrs) is None,
        first_on_create(attrs) is None,
    ensures
        effective_tag(Some(blanket), attrs) == Some(AttributeTag::Publish(blanket)),
        effective_tag(None, attrs) is None,
{
}

/// A method's own tag replaces the blanket tag whole: the effective tag is the
/// method's own, whatever the blanket tag is or whether there is one.
pub proof fn law_own_tag_replaces_blanket(blanket: Option<Publish>, attrs: Seq<AttributeTag>)
    requires
        first_publish(attrs) is Some || first_on_create(attrs) is Some,
        !has_conflict(attrs),
    ensures
        effective_tag(blanket, attrs) == effective_tag(None, attrs),
        first_publish(attrs) matches Some(p) ==> effective_tag(blanket, attrs) == Some(
            AttributeTag::Publish(p),
        ),
        first_on_create(attrs) matches Some(c) ==> effective_tag(blanket, attrs) == Some(
            AttributeTag::OnCreate(c),
        ),
{
}

/// An implementation block whose self type is not the handler's bare
/// identifier contributes no target and no failure, whatever its methods carry.
pub proof fn law_other_blocks_invisible(handler: Seq<char>, item: Item)
    requires
        match item {
            Item::Impl(block) => !block_matches(handler, block),
            _ => true,
        },
    ensures
        item_scan(handler, item) == Ok::<Seq<TargetView>, Seq<char>>(Seq::empty()),
{
}

/// The input determines the output: two declaration sequences that both extend
/// the same declarations by the same synthesized ones agree in length and in
/// every declaration that is no block of the handler, and their synthesized
/// declarations agree, place by place, in their views and in their source text.
pub proof fn law_expansion_determined(
    out1: Seq<Item>,
    out2: Seq<Item>,
    handler: Seq<char>,
    base: Seq<Item>,
    decls: Seq<DeclarationView>,
)
    requires
        extends(out1, handler, base, decls),
        extends(out2, handler, base, decls),
    ensures
        out1.len() == out2.len(),
        forall|i: int|
            0 <= i < base.len() && !is_handler_block(handler, #[trigger] base[i]) ==> out1[i]
                == base[i] && out2[i] == base[i],
        forall|j: int|
            0 <= j < decls.len() ==> generated_as(out1[base.len() + j], #[trigger] decls[j])
                && generated_as(out2[base.len() + j], decls[j]) && generated_text(
                out1[base.len() + j],
            ) == generated_text(out2[base.len() + j]),
{
}

/// The expansion takes every tag off the methods of the handler's blocks, and
/// every publish tag off the blocks themselves, and changes nothing else of
/// them: self type, members and signatures stay.
pub proof fn law_handler_blocks_lose_their_tags(
    out: Seq<Item>,
    handler: Seq<char>,
    base: Seq<Item>,
    decls: Seq<DeclarationView>,
    i: int,
)
    requires
        extends(out, handler, base, decls),
        0 <= i < base.len(),
        is_handler_block(handler, base[i]),
    ensures
        match (base[i], out[i]) {
            (Item::Impl(b), Item::Impl(a)) => a.self_ty == b.self_ty && first_publish(a.attrs@)
                is None && first_on_create(a.attrs@) == first_on_create(b.attrs@)
                && a.items@.len() == b.items@.len(),
            _ => false,
        },
{
    if let Item::Impl(b) = base[i] {
        if let Item::Impl(a) = out[i] {
            lemma_without_publish(b.attrs@);
        }
    }
}

/// A tag list without its publish tags yields no publish tag and the same
/// initializer tag.
pub proof fn lemma_without_publish(attrs: Seq<AttributeTag>)
    ensures
        without_publish(attrs).filter_map(|t: AttributeTag| as_publish(t)).len() == 0,
        without_publish(attrs).filter_map(|t: AttributeTag| as_on_create(t)) == attrs.filter_map(
            |t: AttributeTag| as_on_create(t),
        ),
    decreases attrs.len(),
{
    let fp = |t: AttributeTag| as_publish(t);
    let fc = |t: AttributeTag| as_on_create(t);
    let fw = |t: AttributeTag| unless_publish(t);
    if attrs.len() > 0 {
        lemma_without_publish(attrs.drop_last());
        let rest = attrs.drop_last().filter_map(fw);
        match attrs.last() {
            AttributeTag::Publish(_) => {
                assert(attrs.filter_map(fw) == rest);
            },
            AttributeTag::OnCreate(_) => {
                assert(attrs.filter_map(fw) == rest.push(attrs.last()));
                assert(rest.push(attrs.last()).drop_last() =~= rest);
            },
        }
    }
}

} // verus!
