//! Messages: a chain of elements with its metadata, and the builder that
//! collects text and elements into a chain.

pub mod at;
pub mod convert;
pub mod face;
pub mod forward;
pub mod image;
pub mod meta;

use crate::abi::managed::ManagedCloneable;
use crate::abi::error::FFIResult;
use crate::abi::message::FFIMessageChain;
use crate::abi::{Handle, RustStr, RustString};
use crate::error::AtriError;
use crate::text::{decimal, i64_to_string};
use crate::message::at::At;
use crate::message::face::Face;
use crate::message::image::Image;
use crate::message::meta::{Anonymous, MessageMetadata, MetadataView, Reply, ReplyView};
use vstd::prelude::*;
use vstd::std_specs::convert::FromSpecImpl;
use vstd::string::StringExecFns;

verus! {

pub enum MessageElement {
    Text(String),
    Image(Image),
    At(At),
    AtAll,
    Face(Face),
    Unknown(ManagedCloneable),
}

pub struct MessageChain {
    pub meta: MessageMetadata,
    pub elements: Vec<MessageElement>,
}

/// A chain as a value: sequences in place of vectors.
pub struct ChainView {
    pub meta: MetadataView,
    pub elements: Seq<MessageElement>,
}

impl View for MessageChain {
    type V = ChainView;

    open spec fn view(&self) -> ChainView {
        ChainView { meta: self.meta@, elements: self.elements@ }
    }
}

impl Default for MessageChain {
    fn default() -> (r: Self)
        ensures
            r@ == (ChainView { meta: MetadataView::empty(), elements: Seq::empty() }),
    {
        MessageChain { meta: MessageMetadata::default(), elements: Vec::new() }
    }
}

impl MessageChain {
    pub fn builder() -> (r: MessageChainBuilder)
        ensures
            r.is_empty(),
    {
        MessageChainBuilder::new()
    }

    /// An iterator over the elements, in order.
    pub fn iter(&self) -> (r: core::slice::Iter<'_, MessageElement>)
        ensures
            vstd::std_specs::iter::IteratorSpec::remaining(&r) == self.elements@.as_ref(),
    {
        let elements = self.elements.as_slice();
        proof {
            vstd::std_specs::slice::axiom_spec_slice_iter(elements);
        }
        elements.iter()
    }

    pub fn len(&self) -> (r: usize)
        ensures
            r == self@.elements.len(),
    {
        self.elements.len()
    }

    /// Turns a received chain into the reply that points at it. The chain
    /// carries at least one sequence number, the first of which names it.
    pub fn into_reply(self) -> (r: Reply)
        requires
            self@.meta.seqs.len() > 0,
        ensures
            r@ == (ReplyView {
                reply_seq: self@.meta.seqs[0],
                sender: self@.meta.sender,
                time: self@.meta.time,
                elements: self@.elements,
            }),
    {
        Reply {
            reply_seq: self.meta.seqs[0],
            sender: self.meta.sender,
            time: self.meta.time,
            elements: self.elements,
        }
    }

    pub fn metadata(&self) -> (r: &MessageMetadata)
        ensures
            *r == self.meta,
    {
        &self.meta
    }

    pub fn metadata_mut(&mut self) -> (r: &mut MessageMetadata)
        ensures
            *r == old(self).meta,
            *final(self) == (MessageChain { meta: *final(r), elements: old(self).elements }),
    {
        &mut self.meta
    }

    pub fn with_reply(&mut self, reply: Reply)
        ensures
            *final(self) == (MessageChain {
                meta: MessageMetadata { reply: Some(reply), ..old(self).meta },
                elements: old(self).elements,
            }),
    {
        self.meta.reply = Some(reply);
    }

    pub fn with_anonymous(&mut self, ano: Anonymous)
        ensures
            *final(self) == (MessageChain {
                meta: MessageMetadata { anonymous: Some(ano), ..old(self).meta },
                elements: old(self).elements,
            }),
    {
        self.meta.anonymous = Some(ano);
    }
}

impl MessageElement {
    /// The printed form of this element, given the address that the host
    /// names for an image: text as it is, anything else between `$[` and `]`,
    /// an unknown element as nothing.
    pub open spec fn rendered(self, url: Seq<char>) -> Seq<char> {
        match self {
            MessageElement::Text(text) => text@,
            MessageElement::Image(_) => "$[Image:"@ + url + "]"@,
            MessageElement::At(at) => "$[At:"@ + at.display@ + "("@ + decimal(at.target) + ")]"@,
            MessageElement::AtAll => "$[AtAll]"@,
            MessageElement::Face(face) => "$[Face:"@ + face.name@ + "]"@,
            MessageElement::Unknown(_) => Seq::empty(),
        }
    }

    /// Whether `url` is an address that `image_get_url` names for this
    /// element; of an element that is no image nothing is asked.
    pub open spec fn url_from<F: Fn(Handle) -> RustString>(
        self,
        image_get_url: &F,
        url: Seq<char>,
    ) -> bool {
        self matches MessageElement::Image(img) ==> exists|rs: RustString| #[trigger]
            call_ensures(image_get_url, (img.0.value.pointer,), rs) && rs@ == url
    }

    /// Appends the printed form of this element to `str`. The address of an
    /// image is asked of the host through `image_get_url`.
    pub fn push_to_string<F: Fn(Handle) -> RustString>(&self, str: &mut String, image_get_url: &F)
        requires
            self matches MessageElement::Image(img) ==> call_requires(
                image_get_url,
                (img.0.value.pointer,),
            ),
        ensures
            exists|url: Seq<char>| #[trigger]
                self.url_from(image_get_url, url) && final(str)@ == old(str)@ + self.rendered(url),
    {
        match self {
            MessageElement::Text(text) => {
                str.append(text.as_str());
                assert(self.url_from(image_get_url, Seq::empty()));
            },
            MessageElement::Image(img) => {
                let url = img.url(image_get_url);
                str.append("$[Image:");
                str.append(url.as_str());
                str.append("]");
                assert(self.url_from(image_get_url, url@));
                assert(str@ == old(str)@ + self.rendered(url@));
            },
            MessageElement::At(at) => {
                let target = i64_to_string(at.target);
                str.append("$[At:");
                str.append(at.display.as_str());
                str.append("(");
                str.append(target.as_str());
                str.append(")]");
                assert(self.url_from(image_get_url, Seq::empty()));
                assert(str@ == old(str)@ + self.rendered(Seq::empty()));
            },
            MessageElement::AtAll => {
                str.append("$[AtAll]");
                assert(self.url_from(image_get_url, Seq::empty()));
            },
            MessageElement::Face(face) => {
                str.append("$[Face:");
                str.append(face.name.as_str());
                str.append("]");
                assert(self.url_from(image_get_url, Seq::empty()));
                assert(str@ == old(str)@ + self.rendered(Seq::empty()));
            },
            MessageElement::Unknown(_) => {
                assert(self.url_from(image_get_url, Seq::empty()));
                assert(str@ == old(str)@ + self.rendered(Seq::empty()));
            },
        }
    }

    /// The printed form of this element.
    pub fn to_string<F: Fn(Handle) -> RustString>(&self, image_get_url: &F) -> (r: String)
        requires
            self matches MessageElement::Image(img) ==> call_requires(
                image_get_url,
                (img.0.value.pointer,),
            ),
        ensures
            exists|url: Seq<char>| #[trigger]
                self.url_from(image_get_url, url) && r@ == self.rendered(url),
    {
        let mut s = String::new();
        self.push_to_string(&mut s, image_get_url);
        proof {
            let url = choose|url: Seq<char>| #[trigger]
                self.url_from(image_get_url, url) && s@ == Seq::<char>::empty() + self.rendered(
                    url,
                );
            assert(Seq::<char>::empty() + self.rendered(url) == self.rendered(url));
        }
        s
    }
}

/// The printed forms of the first `n` elements, one after the other, with
/// `urls[i]` as the address of element `i`.
pub open spec fn rendered_prefix(elements: Seq<MessageElement>, urls: Seq<Seq<char>>, n: int) -> Seq<
    char,
>
    decreases n,
{
    if n <= 0 {
        Seq::empty()
    } else {
        rendered_prefix(elements, urls, n - 1) + elements[n - 1].rendered(urls[n - 1])
    }
}

impl MessageChain {
    /// The printed form of the chain: the printed forms of its elements, in
    /// order, with nothing between them.
    pub fn to_string<F: Fn(Handle) -> RustString>(&self, image_get_url: &F) -> (r: String)
        requires
            forall|p: Handle| #[trigger] call_requires(image_get_url, (p,)),
        ensures
            exists|urls: Seq<Seq<char>>|
                {
                    &&& urls.len() == self.elements@.len()
                    &&& forall|i: int|
                        0 <= i < urls.len() ==> (#[trigger] self.elements@[i]).url_from(
                            image_get_url,
                            urls[i],
                        )
                    &&& r@ == #[trigger] rendered_prefix(
                        self.elements@,
                        urls,
                        self.elements@.len() as int,
                    )
                },
    {
        let mut s = String::new();
        let ghost mut urls: Seq<Seq<char>> = Seq::empty();
        let mut i: usize = 0;
        while i < self.elements.len()
            invariant
                i <= self.elements@.len(),
                forall|p: Handle| #[trigger] call_requires(image_get_url, (p,)),
                urls.len() == i,
                forall|j: int|
                    0 <= j < i ==> (#[trigger] self.elements@[j]).url_from(image_get_url, urls[j]),
                s@ == rendered_prefix(self.elements@, urls, i as int),
            decreases self.elements@.len() - i,
        {
            let ghost before = s@;
            let ghost prev = urls;
            self.elements[i].push_to_string(&mut s, image_get_url);
            proof {
                let e = self.elements@[i as int];
                let url = choose|url: Seq<char>| #[trigger]
                    e.url_from(image_get_url, url) && s@ == before + e.rendered(url);
                urls = prev.push(url);
                lemma_rendered_prefix_push(self.elements@, prev, url, i as int);
            }
            i += 1;
        }
        s
    }

    /// The chain as text in the host's notation. The chain is encoded and
    /// `message_chain_to_json` writes it.
    pub fn to_json<F: Fn(FFIMessageChain) -> RustString>(self, message_chain_to_json: &F) -> (r:
        String)
        requires
            forall|ffi: FFIMessageChain| #[trigger] call_requires(message_chain_to_json, (ffi,)),
        ensures
            exists|ffi: FFIMessageChain, rs: RustString|
                ffi.encodes(self@) && #[trigger] call_ensures(message_chain_to_json, (ffi,), rs)
                    && r == rs.decoded(),
    {
        let rs = message_chain_to_json(self.into_ffi());
        String::from(rs)
    }

    /// What the host's answer to a chain read from text means: the chain
    /// that the encoding stands for, or the failure to read it.
    pub open spec fn read(answer: Result<FFIMessageChain, String>, r: Result<
        MessageChain,
        AtriError,
    >) -> bool {
        match answer {
            Ok(ffi) => r matches Ok(chain) && chain@ == ffi.native(),
            Err(s) => r == Err::<MessageChain, AtriError>(AtriError::SerializationError(s)),
        }
    }

    /// Reads the host's answer to a chain read from text. An encoding that
    /// the host hands out with a success is well-formed.
    pub fn read_json_answer(answer: FFIResult<FFIMessageChain>) -> (r: Result<
        MessageChain,
        AtriError,
    >)
        requires
            answer.result() matches Ok(ffi) ==> ffi.wf(),
        ensures
            Self::read(answer.result(), r),
    {
        let result: Result<FFIMessageChain, String> = Result::from(answer);
        match result {
            Ok(ffi) => Ok(MessageChain::from_ffi(ffi)),
            Err(s) => Err(AtriError::SerializationError(s)),
        }
    }

    /// Reads a chain from text in the host's notation, through
    /// `message_chain_from_json`.
    pub fn from_json<'a, F: Fn(RustStr<'a>) -> FFIResult<FFIMessageChain>>(
        json: &'a str,
        message_chain_from_json: &F,
    ) -> (r: Result<MessageChain, AtriError>)
        requires
            call_requires(message_chain_from_json, (RustStr { slice: json },)),
            forall|answer: FFIResult<FFIMessageChain>| #[trigger]
                call_ensures(message_chain_from_json, (RustStr { slice: json },), answer) ==> (
                answer.result() matches Ok(ffi) ==> ffi.wf()),
        ensures
            exists|answer: FFIResult<FFIMessageChain>| #[trigger]
                call_ensures(message_chain_from_json, (RustStr { slice: json },), answer)
                    && Self::read(answer.result(), r),
    {
        let rs = RustStr::from(json);
        let result = message_chain_from_json(rs);
        Self::read_json_answer(result)
    }
}

/// The printed form of one more element is the printed form so far and then
/// that of the element.
pub proof fn lemma_rendered_prefix_push(
    elements: Seq<MessageElement>,
    urls: Seq<Seq<char>>,
    url: Seq<char>,
    n: int,
)
    requires
        0 <= n < elements.len(),
        urls.len() == n,
    ensures
        rendered_prefix(elements, urls.push(url), n + 1) == rendered_prefix(elements, urls, n)
            + elements[n].rendered(url),
{
    lemma_rendered_prefix_ext(elements, urls, urls.push(url), n);
}

/// The printed form of the first `n` elements depends on the first `n`
/// addresses only.
pub proof fn lemma_rendered_prefix_ext(
    elements: Seq<MessageElement>,
    a: Seq<Seq<char>>,
    b: Seq<Seq<char>>,
    n: int,
)
    requires
        0 <= n <= a.len(),
        n <= b.len(),
        forall|i: int| 0 <= i < n ==> a[i] == b[i],
    ensures
        rendered_prefix(elements, a, n) == rendered_prefix(elements, b, n),
    decreases n,
{
    if n > 0 {
        lemma_rendered_prefix_ext(elements, a, b, n - 1);
    }
}

impl IntoIterator for MessageChain {
    type Item = MessageElement;

    type IntoIter = std::vec::IntoIter<MessageElement>;

    /// An iterator that gives the elements away, in order.
    fn into_iter(self) -> (r: std::vec::IntoIter<MessageElement>)
        ensures
            vstd::std_specs::iter::IteratorSpec::remaining(&r) == self.elements@,
    {
        let r = self.elements.into_iter();
        proof {
            vstd::std_specs::vec::axiom_spec_into_iter(self.elements);
        }
        r
    }
}

impl<'a> IntoIterator for &'a MessageChain {
    type Item = &'a MessageElement;

    type IntoIter = core::slice::Iter<'a, MessageElement>;

    /// An iterator over the elements, in order.
    fn into_iter(self) -> (r: core::slice::Iter<'a, MessageElement>)
        ensures
            vstd::std_specs::iter::IteratorSpec::remaining(&r) == self.elements@.as_ref(),
    {
        let elements = self.elements.as_slice();
        proof {
            vstd::std_specs::slice::axiom_spec_slice_iter(elements);
        }
        elements.iter()
    }
}

/// Collects text and elements. Text is buffered; it becomes a text element
/// when an element is pushed after it and when the chain is built.
pub struct MessageChainBuilder {
    pub anonymous: Option<Anonymous>,
    pub reply: Option<Reply>,
    pub value: Vec<MessageElement>,
    pub buf: String,
}

impl Default for MessageChainBuilder {
    fn default() -> (r: Self)
        ensures
            r.is_empty(),
    {
        MessageChainBuilder { anonymous: None, reply: None, value: Vec::new(), buf: String::new() }
    }
}

impl MessageChainBuilder {
    /// Nothing has been pushed or set.
    pub open spec fn is_empty(&self) -> bool {
        &&& self.anonymous is None
        &&& self.reply is None
        &&& self.value@.len() == 0
        &&& self.buf@.len() == 0
    }

    /// The elements of the chain that building now would give: what has been
    /// pushed, then the buffered text as one text element.
    pub open spec fn built_elements(&self) -> Seq<MessageElement> {
        self.value@.push(MessageElement::Text(self.buf))
    }

    pub fn new() -> (r: Self)
        ensures
            r.is_empty(),
    {
        MessageChainBuilder::default()
    }

    /// Closes the buffered text, then appends what `elem` stands for.
    pub fn push<E: PushMessage>(&mut self, elem: E) -> (r: &mut Self)
        ensures
            E::obeys_push() ==> elem.pushes(old(self).built_elements(), r.value@),
            r.buf@.len() == 0,
            r.anonymous == old(self).anonymous,
            r.reply == old(self).reply,
            *final(self) == *final(r),
    {
        self.flush();
        elem.push_to(&mut self.value);
        self
    }

    /// Appends `str` to the buffered text.
    pub fn push_str(&mut self, str: &str) -> (r: &mut Self)
        ensures
            r.buf@ == old(self).buf@ + str@,
            r.value == old(self).value,
            r.anonymous == old(self).anonymous,
            r.reply == old(self).reply,
            *final(self) == *final(r),
    {
        self.buf.append(str);
        self
    }

    /// Closes the buffered text and gives the chain, with metadata that holds
    /// only the reply and the anonymous sender that were set.
    pub fn build(self) -> (r: MessageChain)
        ensures
            r.elements@ == self.built_elements(),
            r.meta.seqs@.len() == 0,
            r.meta.rands@.len() == 0,
            r.meta.time == 0,
            r.meta.sender == 0,
            r.meta.anonymous == self.anonymous,
            r.meta.reply == self.reply,
    {
        let mut this = self;
        this.flush();
        MessageChain {
            elements: this.value,
            meta: MessageMetadata {
                seqs: Vec::new(),
                rands: Vec::new(),
                time: 0,
                sender: 0,
                anonymous: this.anonymous,
                reply: this.reply,
            },
        }
    }

    pub fn with_reply(&mut self, reply: Reply)
        ensures
            *final(self) == (MessageChainBuilder { reply: Some(reply), ..*old(self) }),
    {
        self.reply = Some(reply);
    }

    pub fn with_anonymous(&mut self, ano: Anonymous)
        ensures
            *final(self) == (MessageChainBuilder { anonymous: Some(ano), ..*old(self) }),
    {
        self.anonymous = Some(ano);
    }

    /// Moves the buffered text, empty or not, to the end of the elements as
    /// one text element.
    pub fn flush(&mut self)
        ensures
            final(self).value@ == old(self).built_elements(),
            final(self).buf@.len() == 0,
            final(self).anonymous == old(self).anonymous,
            final(self).reply == old(self).reply,
    {
        let mut buf = String::new();
        core::mem::swap(&mut self.buf, &mut buf);
        self.value.push(MessageElement::Text(buf));
    }
}

/// Something that can be appended to a chain of elements.
pub trait PushMessage: Sized {
    /// Whether `push_to` of this type keeps to `pushes`. An implementor that
    /// says nothing promises nothing.
    open spec fn obeys_push() -> bool {
        false
    }

    /// How the elements after the push relate to those before it.
    open spec fn pushes(self, before: Seq<MessageElement>, after: Seq<MessageElement>) -> bool {
        true
    }

    fn push_to(self, v: &mut Vec<MessageElement>)
        ensures
            Self::obeys_push() ==> self.pushes(old(v)@, final(v)@),
    ;
}

impl<M: PushMessage> FromSpecImpl<M> for MessageChain {
    open spec fn obeys_from_spec() -> bool {
        false
    }

    open spec fn from_spec(push: M) -> Self {
        arbitrary()
    }
}

impl<M: PushMessage> From<M> for MessageChain {
    /// The chain of what `push` appends to nothing, with empty metadata.
    fn from(push: M) -> (r: Self)
        ensures
            r@.meta == MetadataView::empty(),
            M::obeys_push() ==> push.pushes(Seq::empty(), r@.elements),
    {
        let mut chain = MessageChain::default();
        push.push_to(&mut chain.elements);
        chain
    }
}

impl PushMessage for MessageElement {
    open spec fn obeys_push() -> bool {
        true
    }

    open spec fn pushes(self, before: Seq<MessageElement>, after: Seq<MessageElement>) -> bool {
        after == before.push(self)
    }

    fn push_to(self, v: &mut Vec<MessageElement>) {
        v.push(self);
    }
}

impl PushMessage for String {
    open spec fn obeys_push() -> bool {
        true
    }

    open spec fn pushes(self, before: Seq<MessageElement>, after: Seq<MessageElement>) -> bool {
        after == before.push(MessageElement::Text(self))
    }

    fn push_to(self, v: &mut Vec<MessageElement>) {
        v.push(MessageElement::Text(self));
    }
}

impl PushMessage for &str {
    open spec fn obeys_push() -> bool {
        true
    }

    /// One text element is appended, with the characters of this slice.
    open spec fn pushes(self, before: Seq<MessageElement>, after: Seq<MessageElement>) -> bool {
        &&& after.len() == before.len() + 1
        &&& after.drop_last() == before
        &&& after.last() matches MessageElement::Text(t) && t@ == self@
    }

    fn push_to(self, v: &mut Vec<MessageElement>) {
        let owned = self.to_owned();
        v.push(MessageElement::Text(owned));
        assert(v@.drop_last() == old(v)@);
    }
}

impl PushMessage for MessageChainBuilder {
    open spec fn obeys_push() -> bool {
        true
    }

    /// The elements of the chain that the builder would give are appended.
    open spec fn pushes(self, before: Seq<MessageElement>, after: Seq<MessageElement>) -> bool {
        after == before + self.built_elements()
    }

    fn push_to(self, v: &mut Vec<MessageElement>) {
        let mut chain = self.build();
        v.append(&mut chain.elements);
    }
}

} // verus!
