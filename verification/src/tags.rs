//! Tag extraction and the classification of methods into publish targets.

use vstd::prelude::*;
use crate::model::{
    AttributeTag, ExpandError, ImplBlock, ImplItem, Item, Method, OnCreate, Publish,
    PublishTarget, SelfType, TargetView,
};

verus! {

/// The first element of a sequence, if it has one.
pub open spec fn first_of<A>(s: Seq<A>) -> Option<A> {
    if s.len() == 0 {
        None
    } else {
        Some(s[0])
    }
}

/// The publish tag that a tag is, if it is one.
pub open spec fn as_publish(tag: AttributeTag) -> Option<Publish> {
    match tag {
        AttributeTag::Publish(p) => Some(p),
        AttributeTag::OnCreate(_) => None,
    }
}

/// The initializer tag that a tag is, if it is one.
pub open spec fn as_on_create(tag: AttributeTag) -> Option<OnCreate> {
    match tag {
        AttributeTag::Publish(_) => None,
        AttributeTag::OnCreate(c) => Some(c),
    }
}

/// The publish tag that a tag list yields: its first one, if any.
pub open spec fn first_publish(attrs: Seq<AttributeTag>) -> Option<Publish> {
    first_of(attrs.filter_map(|t: AttributeTag| as_publish(t)))
}

/// The initializer tag that a tag list yields: its first one, if any.
pub open spec fn first_on_create(attrs: Seq<AttributeTag>) -> Option<OnCreate> {
    first_of(attrs.filter_map(|t: AttributeTag| as_on_create(t)))
}

/// A tag list is in conflict when it holds both kinds of tag.
pub open spec fn has_conflict(attrs: Seq<AttributeTag>) -> bool {
    first_publish(attrs) is Some && first_on_create(attrs) is Some
}

/// The one tag that counts for a method without conflict: its own tag where it
/// has one, else the block's blanket publish tag, else none.
pub open spec fn effective_tag(blanket: Option<Publish>, attrs: Seq<AttributeTag>) -> Option<
    AttributeTag,
> {
    match first_on_create(attrs) {
        Some(c) => Some(AttributeTag::OnCreate(c)),
        None => match first_publish(attrs) {
            Some(p) => Some(AttributeTag::Publish(p)),
            None => match blanket {
                Some(b) => Some(AttributeTag::Publish(b)),
                None => None,
            },
        },
    }
}

/// The publish target that a member of a block with the given blanket tag
/// contributes, if any.
pub open spec fn item_target(blanket: Option<Publish>, item: ImplItem) -> Option<TargetView> {
    match item {
        ImplItem::Fn(m) => match effective_tag(blanket, m.attrs@) {
            Some(tag) => Some(TargetView { signature: m.sig@, tag }),
            None => None,
        },
        ImplItem::Other(_) => None,
    }
}

/// The name of a member that is a method in conflict.
pub open spec fn conflict_name(item: ImplItem) -> Option<Seq<char>> {
    match item {
        ImplItem::Fn(m) => if has_conflict(m.attrs@) {
            Some(m.sig.name@)
        } else {
            None
        },
        ImplItem::Other(_) => None,
    }
}

/// The names of a block's methods in conflict, in declaration order.
pub open spec fn block_conflicts(block: ImplBlock) -> Seq<Seq<char>> {
    block.items@.filter_map(|it: ImplItem| conflict_name(it))
}

/// The publish targets of a block, in declaration order.
pub open spec fn block_targets(block: ImplBlock) -> Seq<TargetView> {
    block.items@.filter_map(|it: ImplItem| item_target(first_publish(block.attrs@), it))
}

/// A block belongs to the handler when its self type is the bare identifier
/// that names the handler.
pub open spec fn block_matches(handler: Seq<char>, block: ImplBlock) -> bool {
    match block.self_ty {
        SelfType::Ident(id) => id@ == handler,
        SelfType::Other(_) => false,
    }
}

/// What one top-level declaration contributes: the targets of a block of the
/// handler, or the name of its first method in conflict; nothing for any other
/// declaration.
pub open spec fn item_scan(handler: Seq<char>, item: Item) -> Result<Seq<TargetView>, Seq<char>> {
    match item {
        Item::Impl(block) => if block_matches(handler, block) {
            if block_conflicts(block).len() > 0 {
                Err(block_conflicts(block)[0])
            } else {
                Ok(block_targets(block))
            }
        } else {
            Ok(Seq::empty())
        },
        _ => Ok(Seq::empty()),
    }
}

/// The publish targets of a declaration sequence in declaration order, or the
/// name of the first method in conflict.
pub open spec fn scan_items(handler: Seq<char>, items: Seq<Item>) -> Result<
    Seq<TargetView>,
    Seq<char>,
>
    decreases items.len(),
{
    if items.len() == 0 {
        Ok(Seq::empty())
    } else {
        match scan_items(handler, items.drop_last()) {
            Err(name) => Err(name),
            Ok(targets) => match item_scan(handler, items.last()) {
                Err(name) => Err(name),
                Ok(more) => Ok(targets + more),
            },
        }
    }
}

/// The targets of the methods of a block that stand before its first method in
/// conflict: what a failed collection has appended.
pub open spec fn targets_before_conflict(block: ImplBlock, found: Seq<TargetView>) -> bool {
    exists|k: int|
        0 <= k < block.items@.len() && conflict_name(#[trigger] block.items@[k]) is Some
            && block.items@.take(k).filter_map(|it: ImplItem| conflict_name(it)).len() == 0
            && found == block.items@.take(k).filter_map(
            |it: ImplItem| item_target(first_publish(block.attrs@), it),
        )
}

/// The views of a list of targets.
pub open spec fn target_views(targets: Seq<PublishTarget>) -> Seq<TargetView> {
    targets.map_values(|t: PublishTarget| t@)
}

/// What a prefix of a sequence yields under `filter_map` is a prefix of what
/// the longer prefix yields.
pub proof fn lemma_filter_map_prefix<A, B>(s: Seq<A>, f: spec_fn(A) -> Option<B>, k: int, j: int)
    requires
        0 <= k <= j <= s.len(),
    ensures
        s.take(k).filter_map(f).is_prefix_of(s.take(j).filter_map(f)),
    decreases j - k,
{
    if k < j {
        lemma_filter_map_prefix(s, f, k, j - 1);
        s.lemma_filter_map_take_succ(f, j - 1);
    }
}

/// A conflict found in a prefix of the declarations is the one that the whole
/// sequence reports.
pub proof fn lemma_scan_items_sticky(handler: Seq<char>, items: Seq<Item>, k: int, j: int)
    requires
        0 <= k <= j <= items.len(),
        scan_items(handler, items.take(k)) is Err,
    ensures
        scan_items(handler, items.take(j)) == scan_items(handler, items.take(k)),
    decreases j - k,
{
    if k < j {
        lemma_scan_items_sticky(handler, items, k, j - 1);
        assert(items.take(j).drop_last() =~= items.take(j - 1));
    }
}

/// Whether a top-level declaration is an implementation block of the handler.
pub open spec fn is_handler_block(handler: Seq<char>, item: Item) -> bool {
    match item {
        Item::Impl(block) => block_matches(handler, block),
        _ => false,
    }
}

/// Tells whether a top-level declaration is an implementation block whose self
/// type is the bare identifier `self_name`.
pub fn names_handler(self_name: &String, item: &Item) -> (r: bool)
    ensures
        r == is_handler_block(self_name@, *item),
{
    match item {
        Item::Impl(imp) => match &imp.self_ty {
            SelfType::Ident(ident) => *ident == *self_name,
            SelfType::Other(_) => false,
        },
        _ => false,
    }
}

/// The publish tag of a tag list.
pub fn maybe_extract_publish(attrs: &Vec<AttributeTag>) -> (r: Option<Publish>)
    ensures
        r == first_publish(attrs@),
{
    let ghost f = |t: AttributeTag| as_publish(t);
    let mut found: Option<Publish> = None;
    let mut i: usize = 0;
    while i < attrs.len()
        invariant
            i <= attrs.len(),
            f == |t: AttributeTag| as_publish(t),
            found == first_of(attrs@.take(i as int).filter_map(f)),
        decreases attrs.len() - i,
    {
        proof {
            attrs@.lemma_filter_map_take_succ(f, i as int);
        }
        if found.is_none() {
            match &attrs[i] {
                AttributeTag::Publish(p) => {
                    found = Some(p.clone());
                },
                AttributeTag::OnCreate(_) => {},
            }
        }
        i = i + 1;
    }
    proof {
        assert(attrs@.take(i as int) =~= attrs@);
    }
    found
}

/// The initializer tag of a tag list.
pub fn maybe_extract_on_create(attrs: &Vec<AttributeTag>) -> (r: Option<OnCreate>)
    ensures
        r == first_on_create(attrs@),
{
    let ghost f = |t: AttributeTag| as_on_create(t);
    let mut found: Option<OnCreate> = None;
    let mut i: usize = 0;
    while i < attrs.len()
        invariant
            i <= attrs.len(),
            f == |t: AttributeTag| as_on_create(t),
            found == first_of(attrs@.take(i as int).filter_map(f)),
        decreases attrs.len() - i,
    {
        proof {
            attrs@.lemma_filter_map_take_succ(f, i as int);
        }
        if found.is_none() {
            match &attrs[i] {
                AttributeTag::Publish(_) => {},
                AttributeTag::OnCreate(c) => {
                    found = Some(c.clone());
                },
            }
        }
        i = i + 1;
    }
    proof {
        assert(attrs@.take(i as int) =~= attrs@);
    }
    found
}

/// Classifies one method of a block whose blanket tag is `blanket`: fails when
/// the method carries both kinds of tag, else gives its publish target, if it
/// has an effective tag.
pub fn classify_method(blanket: &Option<Publish>, method: &Method) -> (r: Result<
    Option<PublishTarget>,
    ExpandError,
>)
    ensures
        match r {
            Ok(t) => !has_conflict(method.attrs@) && match t {
                Some(t) => item_target(*blanket, ImplItem::Fn(*method)) == Some(t@),
                None => item_target(*blanket, ImplItem::Fn(*method)) is None,
            },
            Err(e) => has_conflict(method.attrs@) && match e {
                ExpandError::ConflictingTags { method: name } => name@ == method.sig.name@,
                _ => false,
            },
        },
{
    let on_create = maybe_extract_on_create(&method.attrs);
    let publish = maybe_extract_publish(&method.attrs);
    if publish.is_some() && on_create.is_some() {
        return Err(ExpandError::ConflictingTags { method: method.sig.name.clone() });
    }
    let tag = match on_create {
        Some(c) => Some(AttributeTag::OnCreate(c)),
        None => match publish {
            Some(p) => Some(AttributeTag::Publish(p)),
            None => match blanket {
                Some(b) => Some(AttributeTag::Publish(b.clone())),
                None => None,
            },
        },
    };
    match tag {
        Some(tag) => Ok(Some(PublishTarget { signature: method.sig.clone(), tag })),
        None => Ok(None),
    }
}

/// Appends to `targets` the publish targets of one top-level declaration, in
/// method order. Only an implementation block of the handler contributes; the
/// first method with both kinds of tag fails the call, which has then appended
/// the targets of the methods before it.
pub fn collect_publish_targets(
    self_name: &String,
    item: &Item,
    targets: &mut Vec<PublishTarget>,
) -> (r: Result<(), ExpandError>)
    ensures
        match item_scan(self_name@, *item) {
            Ok(more) => r is Ok && target_views(final(targets)@) == target_views(old(targets)@)
                + more,
            Err(name) => match (r, *item) {
                (
                    Err(ExpandError::ConflictingTags { method }),
                    Item::Impl(block),
                ) => method@ == name && exists|found: Seq<TargetView>|
                    #[trigger] targets_before_conflict(block, found) && target_views(
                        final(targets)@,
                    ) == target_views(old(targets)@) + found,
                _ => false,
            },
        },
{
    if !names_handler(self_name, item) {
        assert(target_views(targets@) + Seq::empty() =~= target_views(targets@));
        return Ok(());
    }
    match item {
        Item::Impl(imp) => {
            let publish_all = maybe_extract_publish(&imp.attrs);
            let ghost ft = |it: ImplItem| item_target(first_publish(imp.attrs@), it);
            let ghost fc = |it: ImplItem| conflict_name(it);
            let mut i: usize = 0;
            while i < imp.items.len()
                invariant
                    i <= imp.items.len(),
                    *item == Item::Impl(*imp),
                    block_matches(self_name@, *imp),
                    publish_all == first_publish(imp.attrs@),
                    ft == |it: ImplItem| item_target(first_publish(imp.attrs@), it),
                    fc == |it: ImplItem| conflict_name(it),
                    imp.items@.take(i as int).filter_map(fc).len() == 0,
                    target_views(targets@) == target_views(old(targets)@) + imp.items@.take(
                        i as int,
                    ).filter_map(ft),
                decreases imp.items.len() - i,
            {
                proof {
                    imp.items@.lemma_filter_map_take_succ(ft, i as int);
                    imp.items@.lemma_filter_map_take_succ(fc, i as int);
                }
                match &imp.items[i] {
                    ImplItem::Fn(impl_fn) => {
                        match classify_method(&publish_all, impl_fn) {
                            Err(e) => {
                                proof {
                                    lemma_filter_map_prefix(
                                        imp.items@,
                                        fc,
                                        i + 1,
                                        imp.items@.len() as int,
                                    );
                                    assert(imp.items@.take(imp.items@.len() as int)
                                        =~= imp.items@);
                                    let pre = imp.items@.take(i + 1).filter_map(fc);
                                    let full = imp.items@.filter_map(fc);
                                    assert(pre.len() == 1);
                                    assert(pre.is_prefix_of(full));
                                    assert(full[0] == full.subrange(0, 1)[0]);
                                    assert(conflict_name(imp.items@[i as int]) is Some);
                                    assert(targets_before_conflict(
                                        *imp,
                                        imp.items@.take(i as int).filter_map(ft),
                                    ));
                                }
                                return Err(e);
                            },
                            Ok(Some(target)) => {
                                let ghost before = targets@;
                                targets.push(target);
                                assert(target_views(targets@) =~= target_views(before).push(
                                    target@,
                                ));
                            },
                            Ok(None) => {},
                        }
                    },
                    ImplItem::Other(_) => {},
                }
                i = i + 1;
            }
            proof {
                assert(imp.items@.take(i as int) =~= imp.items@);
            }
            Ok(())
        },
        _ => Ok(()),
    }
}

/// A tag that stays on a block of the handler: any but a publish tag.
pub open spec fn unless_publish(tag: AttributeTag) -> Option<AttributeTag> {
    match tag {
        AttributeTag::Publish(_) => None,
        AttributeTag::OnCreate(_) => Some(tag),
    }
}

/// A tag list without its publish tags, the rest in order.
pub open spec fn without_publish(attrs: Seq<AttributeTag>) -> Seq<AttributeTag> {
    attrs.filter_map(|t: AttributeTag| unless_publish(t))
}

/// `after` is the member `before` with its tags taken off: a method keeps its
/// signature and carries no tag, any other member is as it was.
pub open spec fn member_stripped(before: ImplItem, after: ImplItem) -> bool {
    match (before, after) {
        (ImplItem::Fn(b), ImplItem::Fn(a)) => a.attrs@.len() == 0 && a.sig@ == b.sig@,
        (ImplItem::Other(b), ImplItem::Other(a)) => a == b,
        _ => false,
    }
}

/// `after` is the block `before` with the tags taken off that the expansion
/// consumes: the publish tags of the block and every tag of its methods.
pub open spec fn block_stripped(before: ImplBlock, after: ImplBlock) -> bool {
    &&& after.self_ty == before.self_ty
    &&& after.attrs@ == without_publish(before.attrs@)
    &&& after.items@.len() == before.items@.len()
    &&& forall|i: int|
        0 <= i < before.items@.len() ==> member_stripped(
            #[trigger] before.items@[i],
            after.items@[i],
        )
}

/// `after` is what the expansion leaves of the declaration `before`: a block
/// of the handler with its tags taken off, any other declaration as it was.
pub open spec fn item_stripped(handler: Seq<char>, before: Item, after: Item) -> bool {
    match before {
        Item::Impl(b) => if block_matches(handler, b) {
            match after {
                Item::Impl(a) => block_stripped(b, a),
                _ => false,
            }
        } else {
            after == before
        },
        _ => after == before,
    }
}

/// Takes the consumed tags off a block: its own publish tags and every tag of
/// its methods.
pub fn strip_tags(block: &ImplBlock) -> (r: ImplBlock)
    ensures
        block_stripped(*block, r),
{
    let ghost f = |t: AttributeTag| unless_publish(t);
    let mut attrs: Vec<AttributeTag> = Vec::new();
    let mut i: usize = 0;
    assert(block.attrs@.take(0).filter_map(f) =~= Seq::empty());
    while i < block.attrs.len()
        invariant
            i <= block.attrs.len(),
            f == |t: AttributeTag| unless_publish(t),
            attrs@ == block.attrs@.take(i as int).filter_map(f),
        decreases block.attrs.len() - i,
    {
        proof {
            block.attrs@.lemma_filter_map_take_succ(f, i as int);
        }
        match &block.attrs[i] {
            AttributeTag::Publish(_) => {},
            AttributeTag::OnCreate(c) => {
                attrs.push(AttributeTag::OnCreate(c.clone()));
            },
        }
        i = i + 1;
    }
    proof {
        assert(block.attrs@.take(i as int) =~= block.attrs@);
    }
    let mut items: Vec<ImplItem> = Vec::new();
    let mut k: usize = 0;
    while k < block.items.len()
        invariant
            k <= block.items.len(),
            items@.len() == k,
            forall|j: int|
                0 <= j < k ==> member_stripped(#[trigger] block.items@[j], items@[j]),
        decreases block.items.len() - k,
    {
        let member = match &block.items[k] {
            ImplItem::Fn(m) => ImplItem::Fn(Method { attrs: Vec::new(), sig: m.sig.clone() }),
            ImplItem::Other(text) => ImplItem::Other(text.clone()),
        };
        items.push(member);
        k = k + 1;
    }
    ImplBlock { self_ty: block.self_ty.clone(), attrs, items }
}

} // verus!
