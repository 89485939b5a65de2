use vstd::prelude::*;

use crate::attributes::attr_ok;
use crate::attributes::attr_text;
use crate::attributes::attrs_ok;
use crate::attributes::joined;
use crate::attributes::rendered;
use crate::attributes::token_texts;
use crate::attributes::trigger_text;
use crate::attributes::triggers_text;
use crate::attributes::verb_text;
use crate::attributes::AttrView;
use crate::attributes::HtmxRequestType;
use crate::attributes::TriggerView;
use crate::text::is_space_char;
use crate::text::lemma_trim_end_keeps_prefix;
use crate::text::lemma_trim_start_noop;
use crate::uri::uri_valid;

verus! {

/// Appending an attribute appends exactly its text: nothing else in the
/// joined string moves.
pub proof fn lemma_joined_push(s: Seq<AttrView>, a: AttrView)
    ensures
        s.len() == 0 ==> joined(s.push(a)) == attr_text(a),
        s.len() > 0 ==> joined(s.push(a)) == joined(s) + " "@ + attr_text(a),
{
    let p = s.push(a);
    assert(p.last() == a);
    if s.len() == 0 {
        assert(p.len() == 1);
        assert(p[0] == a);
    } else {
        assert(p.drop_last() =~= s);
    }
}

/// The joined string of a non-empty collection starts with the text of
/// the first attribute.
pub proof fn lemma_joined_starts_with_first(s: Seq<AttrView>)
    requires
        s.len() >= 1,
    ensures
        joined(s).len() >= attr_text(s[0]).len(),
        joined(s).subrange(0, attr_text(s[0]).len() as int) == attr_text(s[0]),
    decreases s.len(),
{
    if s.len() == 1 {
        assert(joined(s).subrange(0, attr_text(s[0]).len() as int) =~= attr_text(s[0]));
    } else {
        lemma_joined_starts_with_first(s.drop_last());
        assert(s.drop_last()[0] == s[0]);
        assert(joined(s).subrange(0, attr_text(s[0]).len() as int) =~= joined(
            s.drop_last(),
        ).subrange(0, attr_text(s[0]).len() as int));
    }
}

/// A collection seeded with a request whose URI the parser accepts, and
/// grown by any chain of mutators — none of which can add a request —
/// serializes successfully, and the rendered string starts with the
/// request token `<verb>=<uri>`. A URI that the parser accepts but that
/// ends in white space is left aside: trimming would shorten it there.
pub proof fn lemma_seeded_request_serializes(
    attrs: Seq<AttrView>,
    verb: HtmxRequestType,
    uri: Seq<char>,
)
    requires
        attrs.len() >= 1,
        attrs[0] == (AttrView::Request { verb, uri }),
        uri_valid(uri),
        forall|i: int| 1 <= i < attrs.len() ==> !(#[trigger] attrs[i] is Request),
        uri.len() > 0 ==> !is_space_char(uri[uri.len() - 1]),
    ensures
        attrs_ok(attrs),
        rendered(attrs).len() >= verb_text(verb).len() + 1 + uri.len(),
        rendered(attrs).subrange(0, verb_text(verb).len() + 1 + uri.len() as int) == verb_text(verb)
            + "="@ + uri,
{
    assert forall|i: int| 0 <= i < attrs.len() implies attr_ok(#[trigger] attrs[i]) by {
        if i == 0 {
            assert(attr_ok(attrs[0]));
        }
    }
    let p = verb_text(verb) + "="@ + uri;
    assert(attr_text(attrs[0]) == p);
    lemma_joined_starts_with_first(attrs);
    let j = joined(attrs);
    let k = p.len() as int;
    reveal_strlit("=");
    match verb {
        HtmxRequestType::Get => {
            reveal_strlit("hx-get");
        },
        HtmxRequestType::Put => {
            reveal_strlit("hx-put");
        },
        HtmxRequestType::Post => {
            reveal_strlit("hx-post");
        },
        HtmxRequestType::Delete => {
            reveal_strlit("hx-delete");
        },
    }
    assert(p[0] == verb_text(verb)[0]);
    assert(!is_space_char(p[0]));
    if uri.len() > 0 {
        assert(p[k - 1] == uri[uri.len() - 1]);
    } else {
        assert(p[k - 1] == "="@[0]);
    }
    assert(!is_space_char(p[k - 1]));
    assert(j.subrange(0, k) == p);
    assert(j[0] == p[0] && j[k - 1] == p[k - 1]);
    lemma_trim_start_noop(j);
    lemma_trim_end_keeps_prefix(j, k);
    assert(rendered(attrs).subrange(0, k) == j.subrange(0, k));
}

/// One rejected URI anywhere in the collection dooms serialization, no
/// matter what else the collection holds.
pub proof fn lemma_invalid_uri_always_fails(attrs: Seq<AttrView>, j: int)
    requires
        0 <= j < attrs.len(),
        attrs[j] matches AttrView::Request { verb: _, uri } && !uri_valid(uri),
    ensures
        !attrs_ok(attrs),
{
    assert(!attr_ok(attrs[j]));
}

/// No later mutator can repair a collection that already fails: appending
/// keeps every stored attribute, the failing one included.
pub proof fn lemma_append_preserves_failure(attrs: Seq<AttrView>, a: AttrView)
    requires
        !attrs_ok(attrs),
    ensures
        !attrs_ok(attrs.push(a)),
{
    let i = choose|i: int| 0 <= i < attrs.len() && !attr_ok(#[trigger] attrs[i]);
    assert(attrs.push(a)[i] == attrs[i]);
}

/// Appending a trigger list adds exactly one token, the comma-join of the
/// triggers' texts behind `hx-trigger=`, in the given order; every earlier
/// token stays in place.
pub proof fn lemma_triggers_one_token(attrs: Seq<AttrView>, ts: Seq<TriggerView>)
    ensures
        token_texts(attrs.push((AttrView::Trigger { triggers: ts }))) == token_texts(attrs).push(
            "hx-trigger="@ + triggers_text(ts),
        ),
        ts.len() == 2 ==> triggers_text(ts) == trigger_text(ts[0]) + ","@ + trigger_text(ts[1]),
        attrs.len() > 0 ==> joined(attrs.push((AttrView::Trigger { triggers: ts }))) == joined(
            attrs,
        ) + " "@ + ("hx-trigger="@ + triggers_text(ts)),
{
    let a = AttrView::Trigger { triggers: ts };
    assert(attr_text(a) == "hx-trigger="@ + triggers_text(ts));
    assert(token_texts(attrs.push(a)) =~= token_texts(attrs).push(attr_text(a)));
    if ts.len() == 2 {
        assert(ts.drop_last() =~= seq![ts[0]]);
        assert(triggers_text(seq![ts[0]]) == trigger_text(ts[0]));
    }
    lemma_joined_push(attrs, a);
}

/// Two target calls add two separate tokens, in call order, and distinct
/// selectors give distinct tokens: nothing is merged or overwritten.
pub proof fn lemma_two_targets_two_tokens(attrs: Seq<AttrView>, a: Seq<char>, b: Seq<char>)
    ensures
        token_texts(
            attrs.push((AttrView::Target { selector: a })).push((AttrView::Target { selector: b })),
        ) == token_texts(attrs).push("hx-target="@ + a).push("hx-target="@ + b),
        a != b ==> "hx-target="@ + a != "hx-target="@ + b,
{
    let ta = AttrView::Target { selector: a };
    let tb = AttrView::Target { selector: b };
    assert(token_texts(attrs.push(ta).push(tb)) =~= token_texts(attrs).push(attr_text(ta)).push(
        attr_text(tb),
    ));
    if "hx-target="@ + a == "hx-target="@ + b {
        let n = "hx-target="@.len() as int;
        assert(("hx-target="@ + a).len() == n + a.len());
        assert(("hx-target="@ + b).len() == n + b.len());
        assert(a.len() == b.len());
        assert forall|i: int| 0 <= i < a.len() implies a[i] == b[i] by {
            assert(("hx-target="@ + a)[n + i] == a[i]);
            assert(("hx-target="@ + b)[n + i] == b[i]);
        }
        assert(a =~= b);
    }
}

/// A raw string appended through the escape hatch becomes its own token,
/// byte for byte, with no prefix and nothing escaped.
pub proof fn lemma_misc_verbatim(attrs: Seq<AttrView>, raw: Seq<char>)
    ensures
        attr_text((AttrView::Misc { text: raw })) == raw,
        token_texts(attrs.push((AttrView::Misc { text: raw }))) == token_texts(attrs).push(raw),
        attrs.len() > 0 ==> joined(attrs.push((AttrView::Misc { text: raw }))) == joined(attrs)
            + " "@ + raw,
{
    let m = AttrView::Misc { text: raw };
    assert(token_texts(attrs.push(m)) =~= token_texts(attrs).push(raw));
    lemma_joined_push(attrs, m);
}

/// Serialization is a pure function of the stored attributes: collections
/// with equal contents succeed or fail alike and render to equal strings;
/// no hidden state influences the output.
pub proof fn lemma_rendering_deterministic(a: Seq<AttrView>, b: Seq<AttrView>)
    requires
        a == b,
    ensures
        attrs_ok(a) == attrs_ok(b),
        rendered(a) == rendered(b),
{
}

} // verus!
