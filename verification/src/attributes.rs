use vstd::prelude::*;
use vstd::string::*;

use crate::errors::HtmxError;
use crate::events::{HtmxEvent, HtmxModifier};
use crate::text::trim_spec;
use crate::text::trim_str;
use crate::uri::check_uri;
use crate::uri::uri_valid;

verus! {

/// The HTTP verb an `hx-` request attribute carries.
pub enum HtmxRequestType {
    Get,
    Put,
    Post,
    Delete,
}

/// The fixed token that introduces a request attribute for each verb.
pub open spec fn verb_text(v: HtmxRequestType) -> Seq<char> {
    match v {
        HtmxRequestType::Get => "hx-get"@,
        HtmxRequestType::Put => "hx-put"@,
        HtmxRequestType::Post => "hx-post"@,
        HtmxRequestType::Delete => "hx-delete"@,
    }
}

/// What a trigger is mathematically: an event name and, possibly, a
/// modifier, both plain sequences of characters.
pub struct TriggerView {
    pub event: Seq<char>,
    pub modifier: Option<Seq<char>>,
}

/// What one stored attribute is mathematically.
pub enum AttrView {
    Request { verb: HtmxRequestType, uri: Seq<char> },
    Trigger { triggers: Seq<TriggerView> },
    Target { selector: Seq<char> },
    Ext { name: Seq<char> },
    Misc { text: Seq<char> },
}

/// A selector string for the `hx-target` attribute, kept verbatim.
pub struct HtmxTarget(pub String);

/// An extension name for the `hx-ext` attribute, kept verbatim.
pub struct HtmxExt(pub String);

/// One trigger: an event and an optional modifier.
pub struct HtmxTrigger(HtmxEvent, Option<HtmxModifier>);

struct HtmxRequest(HtmxRequestType, String);

enum HtmxAttr {
    Request(HtmxRequest),
    Trigger(Vec<HtmxTrigger>),
    Target(HtmxTarget),
    Ext(HtmxExt),
    Misc(String),
}

impl View for HtmxTrigger {
    type V = TriggerView;

    closed spec fn view(&self) -> TriggerView {
        TriggerView {
            event: self.0@,
            modifier: match self.1 {
                Some(m) => Some(m@),
                None => None,
            },
        }
    }
}

/// The triggers a vector holds, in order, as mathematical values.
pub open spec fn triggers_view(ts: Seq<HtmxTrigger>) -> Seq<TriggerView> {
    ts.map_values(|t: HtmxTrigger| t@)
}

impl View for HtmxAttr {
    type V = AttrView;

    closed spec fn view(&self) -> AttrView {
        match self {
            HtmxAttr::Request(r) => AttrView::Request { verb: r.0, uri: r.1@ },
            HtmxAttr::Trigger(ts) => AttrView::Trigger { triggers: triggers_view(ts@) },
            HtmxAttr::Target(t) => AttrView::Target { selector: t.0@ },
            HtmxAttr::Ext(x) => AttrView::Ext { name: x.0@ },
            HtmxAttr::Misc(m) => AttrView::Misc { text: m@ },
        }
    }
}

/// The text one trigger contributes: the event name alone, or the event
/// name, one space, and the modifier.
pub open spec fn trigger_text(t: TriggerView) -> Seq<char> {
    match t.modifier {
        None => t.event,
        Some(m) => t.event + " "@ + m,
    }
}

/// The comma-joined texts of a trigger list, in order, no spaces added.
pub open spec fn triggers_text(ts: Seq<TriggerView>) -> Seq<char>
    decreases ts.len(),
{
    if ts.len() == 0 {
        Seq::empty()
    } else if ts.len() == 1 {
        trigger_text(ts[0])
    } else {
        triggers_text(ts.drop_last()) + ","@ + trigger_text(ts.last())
    }
}

/// The exact text one attribute serializes to. A request's text is given
/// whether or not its URI is valid; validity decides only success.
pub open spec fn attr_text(a: AttrView) -> Seq<char> {
    match a {
        AttrView::Request { verb, uri } => verb_text(verb) + "="@ + uri,
        AttrView::Trigger { triggers } => "hx-trigger="@ + triggers_text(triggers),
        AttrView::Target { selector } => "hx-target="@ + selector,
        AttrView::Ext { name } => "hx-ext="@ + name,
        AttrView::Misc { text } => text,
    }
}

/// Whether one attribute serializes at all: only a request can fail, and
/// only on a URI the parser rejects.
pub open spec fn attr_ok(a: AttrView) -> bool {
    match a {
        AttrView::Request { verb, uri } => uri_valid(uri),
        _ => true,
    }
}

/// Whether a whole collection serializes: every attribute must.
pub open spec fn attrs_ok(s: Seq<AttrView>) -> bool {
    forall|i: int| 0 <= i < s.len() ==> attr_ok(#[trigger] s[i])
}

/// The texts of all attributes, in insertion order.
pub open spec fn token_texts(s: Seq<AttrView>) -> Seq<Seq<char>> {
    s.map_values(|a: AttrView| attr_text(a))
}

/// All attribute texts joined with a single space, in insertion order.
pub open spec fn joined(s: Seq<AttrView>) -> Seq<char>
    decreases s.len(),
{
    if s.len() == 0 {
        Seq::empty()
    } else if s.len() == 1 {
        attr_text(s[0])
    } else {
        joined(s.drop_last()) + " "@ + attr_text(s.last())
    }
}

/// The exact string a collection serializes to when it serializes at all:
/// the joined texts with leading and trailing white space removed.
pub open spec fn rendered(s: Seq<AttrView>) -> Seq<char> {
    trim_spec(joined(s))
}

impl HtmxTrigger {
    /// A trigger for the given event, with no modifier.
    pub fn new(event: String) -> (r: Self)
        ensures
            r@ == (TriggerView { event: event@, modifier: None }),
    {
        HtmxTrigger(HtmxEvent(event), None)
    }

    /// The same trigger with the given modifier attached in place of any
    /// earlier one.
    pub fn modifier(self, modifier: String) -> (r: Self)
        ensures
            r@ == (TriggerView { event: self@.event, modifier: Some(modifier@) }),
    {
        HtmxTrigger(self.0, Some(HtmxModifier(modifier)))
    }

    /// The exact text this trigger contributes to an `hx-trigger` attribute.
    pub fn serialize(self) -> (r: String)
        ensures
            r@ == trigger_text(self@),
    {
        trigger_token(&self)
    }
}

fn trigger_token(t: &HtmxTrigger) -> (r: String)
    ensures
        r@ == trigger_text(t@),
{
    match &t.1 {
        None => t.0.0.clone(),
        Some(m) => {
            let mut s = t.0.0.clone();
            s.append(" ");
            s.append(m.0.as_str());
            s
        },
    }
}

fn verb_token(v: &HtmxRequestType) -> (r: &'static str)
    ensures
        r@ == verb_text(*v),
{
    match v {
        HtmxRequestType::Get => "hx-get",
        HtmxRequestType::Put => "hx-put",
        HtmxRequestType::Post => "hx-post",
        HtmxRequestType::Delete => "hx-delete",
    }
}

fn attr_token(a: &HtmxAttr) -> (r: Result<String, HtmxError>)
    ensures
        r is Ok <==> attr_ok(a@),
        r is Ok ==> r->Ok_0@ == attr_text(a@),
        r is Err ==> r->Err_0 is InvalidUri,
{
    match a {
        HtmxAttr::Request(req) => {
            match check_uri(req.1.as_str()) {
                Ok(_) => {
                    let mut s = String::from_str(verb_token(&req.0));
                    s.append("=");
                    s.append(req.1.as_str());
                    Ok(s)
                },
                Err(e) => Err(HtmxError::InvalidUri(e)),
            }
        },
        HtmxAttr::Trigger(ts) => {
            if ts.len() == 0 {
                let s = String::from_str("hx-trigger=");
                proof {
                    assert(s@ =~= "hx-trigger="@ + triggers_text(triggers_view(ts@)));
                }
                Ok(s)
            } else {
                let ghost tsv = triggers_view(ts@);
                let mut s = String::from_str("hx-trigger=");
                let first = trigger_token(&ts[0]);
                s.append(first.as_str());
                proof {
                    assert(tsv.subrange(0, 1) =~= seq![tsv[0]]);
                    assert(triggers_text(tsv.subrange(0, 1)) == trigger_text(tsv[0]));
                }
                let mut i: usize = 1;
                while i < ts.len()
                    invariant
                        1 <= i <= ts@.len(),
                        tsv == triggers_view(ts@),
                        s@ == "hx-trigger="@ + triggers_text(tsv.subrange(0, i as int)),
                    decreases ts@.len() - i,
                {
                    s.append(",");
                    let tok = trigger_token(&ts[i]);
                    s.append(tok.as_str());
                    proof {
                        let pre = tsv.subrange(0, i as int);
                        let cur = tsv.subrange(0, i + 1);
                        assert(cur.drop_last() =~= pre);
                        assert(cur.last() == tsv[i as int]);
                        assert(s@ =~= "hx-trigger="@ + triggers_text(cur));
                    }
                    i += 1;
                }
                proof {
                    assert(tsv.subrange(0, ts@.len() as int) =~= tsv);
                }
                Ok(s)
            }
        },
        HtmxAttr::Target(t) => {
            let mut s = String::from_str("hx-target=");
            s.append(t.0.as_str());
            Ok(s)
        },
        HtmxAttr::Ext(x) => {
            let mut s = String::from_str("hx-ext=");
            s.append(x.0.as_str());
            Ok(s)
        },
        HtmxAttr::Misc(m) => Ok(m.clone()),
    }
}

/// The ordered, growable collection of attributes under construction.
/// Its view is the sequence of attributes it holds, oldest first.
pub struct HtmxAttrs {
    attrs: Vec<HtmxAttr>,
}

impl View for HtmxAttrs {
    type V = Seq<AttrView>;

    closed spec fn view(&self) -> Seq<AttrView> {
        self.attrs@.map_values(|a: HtmxAttr| a@)
    }
}

impl Default for HtmxAttrs {
    /// The empty collection; serializing it is the one way to the
    /// `EmptyAttrs` error.
    fn default() -> (r: Self)
        ensures
            r@ == Seq::<AttrView>::empty(),
    {
        let r = HtmxAttrs { attrs: Vec::new() };
        proof {
            assert(r@ =~= Seq::<AttrView>::empty());
        }
        r
    }
}

impl HtmxAttrs {
    fn seeded(verb: HtmxRequestType, uri: String) -> (r: Self)
        ensures
            r@ =~= seq![AttrView::Request { verb, uri: uri@ }],
    {
        let ghost v = verb;
        let ghost u = uri@;
        let req = HtmxRequest(verb, uri);
        let mut attrs: Vec<HtmxAttr> = Vec::new();
        attrs.push(HtmxAttr::Request(req));
        let r = HtmxAttrs { attrs };
        proof {
            assert(r@ =~= seq![AttrView::Request { verb: v, uri: u }]);
        }
        r
    }

    /// A new collection holding exactly one GET request for this URI.
    /// The URI is not checked here: validation waits for serialization.
    pub fn get(uri: String) -> (r: Self)
        ensures
            r@ == seq![AttrView::Request { verb: HtmxRequestType::Get, uri: uri@ }],
    {
        Self::seeded(HtmxRequestType::Get, uri)
    }

    /// A new collection holding exactly one POST request for this URI.
    pub fn post(uri: String) -> (r: Self)
        ensures
            r@ == seq![AttrView::Request { verb: HtmxRequestType::Post, uri: uri@ }],
    {
        Self::seeded(HtmxRequestType::Post, uri)
    }

    /// A new collection holding exactly one PUT request for this URI.
    pub fn put(uri: String) -> (r: Self)
        ensures
            r@ == seq![AttrView::Request { verb: HtmxRequestType::Put, uri: uri@ }],
    {
        Self::seeded(HtmxRequestType::Put, uri)
    }

    /// A new collection holding exactly one DELETE request for this URI.
    pub fn delete(uri: String) -> (r: Self)
        ensures
            r@ == seq![AttrView::Request { verb: HtmxRequestType::Delete, uri: uri@ }],
    {
        Self::seeded(HtmxRequestType::Delete, uri)
    }

    fn pushed(self, attr: HtmxAttr) -> (r: Self)
        ensures
            r@ =~= self@.push(attr@),
    {
        let ghost before = self@;
        let ghost av = attr@;
        let mut attrs = self.attrs;
        attrs.push(attr);
        let r = HtmxAttrs { attrs };
        proof {
            assert(r@ =~= before.push(av));
        }
        r
    }

    /// The collection with one more `hx-target` attribute appended; earlier
    /// entries are kept, duplicates included.
    pub fn target(self, target: String) -> (r: Self)
        ensures
            r@ == self@.push((AttrView::Target { selector: target@ })),
    {
        self.pushed(HtmxAttr::Target(HtmxTarget(target)))
    }

    /// The collection with one more `hx-ext` attribute appended.
    pub fn extension(self, name: String) -> (r: Self)
        ensures
            r@ == self@.push((AttrView::Ext { name: name@ })),
    {
        self.pushed(HtmxAttr::Ext(HtmxExt(name)))
    }

    /// The collection with one `hx-trigger` attribute appended that holds
    /// all the given triggers, in their given order.
    pub fn triggers(self, triggers: Vec<HtmxTrigger>) -> (r: Self)
        ensures
            r@ == self@.push((AttrView::Trigger { triggers: triggers_view(triggers@) })),
    {
        self.pushed(HtmxAttr::Trigger(triggers))
    }

    /// The collection with one `hx-trigger` attribute appended that holds
    /// exactly the given trigger.
    pub fn trigger(self, trigger: HtmxTrigger) -> (r: Self)
        ensures
            r@ == self@.push((AttrView::Trigger { triggers: seq![trigger@] })),
    {
        let ghost tv = trigger@;
        let mut ts: Vec<HtmxTrigger> = Vec::new();
        ts.push(trigger);
        proof {
            assert(triggers_view(ts@) =~= seq![tv]);
        }
        self.pushed(HtmxAttr::Trigger(ts))
    }

    /// The collection with the raw string appended verbatim: no prefix, no
    /// escaping, no validation.
    pub fn misc(self, misc: String) -> (r: Self)
        ensures
            r@ == self@.push((AttrView::Misc { text: misc@ })),
    {
        self.pushed(HtmxAttr::Misc(misc))
    }

    /// The terminal step: every attribute's text, in insertion order,
    /// joined with single spaces and trimmed — or the first error. The
    /// result is empty-collection failure, URI failure, or exactly the
    /// rendered string; nothing else influences it.
    pub fn serialize(self) -> (r: Result<String, HtmxError>)
        ensures
            self@.len() == 0 ==> r is Err && r->Err_0 is EmptyAttrs,
            self@.len() > 0 && attrs_ok(self@) ==> r is Ok && r->Ok_0@ == rendered(self@),
            self@.len() > 0 && !attrs_ok(self@) ==> r is Err && r->Err_0 is InvalidUri,
    {
        if self.attrs.len() == 0 {
            return Err(HtmxError::EmptyAttrs);
        }
        let ghost view = self@;
        let mut out: String;
        match attr_token(&self.attrs[0]) {
            Ok(t) => {
                out = t;
            },
            Err(e) => {
                proof {
                    assert(attrs_ok(view) ==> attr_ok(view[0]));
                }
                return Err(e);
            },
        }
        proof {
            assert(view.subrange(0, 1) =~= seq![view[0]]);
        }
        let mut i: usize = 1;
        while i < self.attrs.len()
            invariant
                1 <= i <= view.len(),
                view == self@,
                view.len() == self.attrs@.len(),
                out@ == joined(view.subrange(0, i as int)),
                forall|j: int| 0 <= j < i ==> attr_ok(#[trigger] view[j]),
            decreases view.len() - i,
        {
            let tok = match attr_token(&self.attrs[i]) {
                Ok(t) => t,
                Err(e) => {
                    proof {
                        assert(attrs_ok(view) ==> attr_ok(view[i as int]));
                    }
                    return Err(e);
                },
            };
            out.append(" ");
            out.append(tok.as_str());
            proof {
                let pre = view.subrange(0, i as int);
                let cur = view.subrange(0, i + 1);
                assert(cur.drop_last() =~= pre);
                assert(cur.last() == view[i as int]);
                assert(out@ =~= joined(cur));
            }
            i += 1;
        }
        proof {
            assert(view.subrange(0, view.len() as int) =~= view);
        }
        Ok(trim_str(out.as_str()))
    }
}

} // verus!
