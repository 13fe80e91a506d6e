//! Plain data exchanged with the remote mail service and with the rendering
//! layer, each with its mathematical view.
use vstd::prelude::*;

verus! {

/// A mailbox category as the remote service reports it.
#[derive(Debug)]
pub struct Label {
    pub id: Option<String>,
    pub name: Option<String>,
}

pub struct LabelView {
    pub id: Option<Seq<char>>,
    pub name: Option<Seq<char>>,
}

impl DeepView for Label {
    type V = LabelView;

    open spec fn deep_view(&self) -> LabelView {
        LabelView { id: self.id.deep_view(), name: self.name.deep_view() }
    }
}

impl View for Label {
    type V = LabelView;

    open spec fn view(&self) -> LabelView {
        self.deep_view()
    }
}

impl Clone for Label {
    fn clone(&self) -> (r: Self)
        ensures
            r@ == self@,
    {
        Label { id: self.id.clone(), name: self.name.clone() }
    }
}

/// Answer of the remote service to a label listing.
#[derive(Debug)]
pub struct LabelsResponse {
    pub labels: Option<Vec<Label>>,
}

/// Reference to a message in a listing.
#[derive(Debug)]
pub struct MessageRef {
    pub id: Option<String>,
}

/// Answer of the remote service to a message listing.
#[derive(Debug)]
pub struct MessagesResponse {
    pub messages: Option<Vec<MessageRef>>,
}

/// One header line of a message part.
#[derive(Debug)]
pub struct Header {
    pub name: Option<String>,
    pub value: Option<String>,
}

pub struct HeaderView {
    pub name: Option<Seq<char>>,
    pub value: Option<Seq<char>>,
}

impl DeepView for Header {
    type V = HeaderView;

    open spec fn deep_view(&self) -> HeaderView {
        HeaderView { name: self.name.deep_view(), value: self.value.deep_view() }
    }
}

impl View for Header {
    type V = HeaderView;

    open spec fn view(&self) -> HeaderView {
        self.deep_view()
    }
}

impl Clone for Header {
    fn clone(&self) -> (r: Self)
        ensures
            r@ == self@,
    {
        Header { name: self.name.clone(), value: self.value.clone() }
    }
}

/// Encoded content of a message part.
#[derive(Debug)]
pub struct MessagePartBody {
    pub data: Option<String>,
}

pub struct MessagePartBodyView {
    pub data: Option<Seq<char>>,
}

impl DeepView for MessagePartBody {
    type V = MessagePartBodyView;

    open spec fn deep_view(&self) -> MessagePartBodyView {
        MessagePartBodyView { data: self.data.deep_view() }
    }
}

impl View for MessagePartBody {
    type V = MessagePartBodyView;

    open spec fn view(&self) -> MessagePartBodyView {
        self.deep_view()
    }
}

impl Clone for MessagePartBody {
    fn clone(&self) -> (r: Self)
        ensures
            r@ == self@,
    {
        MessagePartBody { data: self.data.clone() }
    }
}

/// A node of a message's MIME tree.
#[derive(Debug)]
pub struct MessagePart {
    pub mime_type: Option<String>,
    pub headers: Option<Vec<Header>>,
    pub body: Option<MessagePartBody>,
    pub parts: Option<Vec<MessagePart>>,
}

pub struct MessagePartView {
    pub mime_type: Option<Seq<char>>,
    pub headers: Option<Seq<HeaderView>>,
    pub body: Option<MessagePartBodyView>,
    pub parts: Option<Seq<MessagePartView>>,
}

/// Views of a sequence of sibling parts, in order.
pub open spec fn parts_view(parts: Seq<MessagePart>) -> Seq<MessagePartView>
    decreases parts, 0nat,
{
    Seq::new(
        parts.len(),
        |i: int|
            if 0 <= i < parts.len() {
                part_view(parts[i])
            } else {
                arbitrary()
            },
    )
}

/// View of one part with its whole subtree.
pub open spec fn part_view(part: MessagePart) -> MessagePartView
    decreases part, 1nat,
{
    MessagePartView {
        mime_type: part.mime_type.deep_view(),
        headers: part.headers.deep_view(),
        body: part.body.deep_view(),
        parts: match part.parts {
            Some(ps) => Some(parts_view(ps@)),
            None => None,
        },
    }
}

impl DeepView for MessagePart {
    type V = MessagePartView;

    open spec fn deep_view(&self) -> MessagePartView {
        part_view(*self)
    }
}

impl View for MessagePart {
    type V = MessagePartView;

    open spec fn view(&self) -> MessagePartView {
        part_view(*self)
    }
}

impl MessagePart {
    /// Copies the headers of this part.
    fn clone_headers(headers: &Option<Vec<Header>>) -> (r: Option<Vec<Header>>)
        ensures
            r.deep_view() == headers.deep_view(),
    {
        match headers {
            None => None,
            Some(hs) => {
                let copy = hs.clone();
                assert(copy.deep_view() =~= hs.deep_view());
                Some(copy)
            },
        }
    }

    /// Copies a list of sibling parts with their subtrees.
    fn clone_parts(parts: &Vec<MessagePart>) -> (r: Vec<MessagePart>)
        ensures
            parts_view(r@) == parts_view(parts@),
        decreases parts, 0nat,
    {
        let mut out: Vec<MessagePart> = Vec::new();
        let mut i: usize = 0;
        while i < parts.len()
            invariant
                i <= parts.len(),
                out.len() == i,
                forall|k: int| 0 <= k < i ==> part_view(out[k]) == part_view(parts[k]),
            decreases parts.len() - i,
        {
            let copy = parts[i].clone_tree();
            out.push(copy);
            i += 1;
        }
        assert(parts_view(out@) =~= parts_view(parts@));
        out
    }

    /// Copies this part with its whole subtree.
    fn clone_tree(&self) -> (r: MessagePart)
        ensures
            part_view(r) == part_view(*self),
        decreases *self, 1nat,
    {
        let parts = match &self.parts {
            None => None,
            Some(ps) => Some(Self::clone_parts(ps)),
        };
        MessagePart {
            mime_type: self.mime_type.clone(),
            headers: Self::clone_headers(&self.headers),
            body: self.body.clone(),
            parts,
        }
    }
}

impl Clone for MessagePart {
    fn clone(&self) -> (r: Self)
        ensures
            r@ == self@,
    {
        self.clone_tree()
    }
}

impl Default for MessagePart {
    fn default() -> (r: Self)
        ensures
            r.mime_type is None,
            r.headers is None,
            r.body is None,
            r.parts is None,
    {
        MessagePart { mime_type: None, headers: None, body: None, parts: None }
    }
}

/// A message as the remote service delivers it.
#[derive(Debug)]
pub struct Message {
    pub id: Option<String>,
    pub snippet: Option<String>,
    pub payload: Option<MessagePart>,
    pub thread_id: Option<String>,
    pub label_ids: Option<Vec<String>>,
}

pub struct MessageView {
    pub id: Option<Seq<char>>,
    pub snippet: Option<Seq<char>>,
    pub payload: Option<MessagePartView>,
    pub thread_id: Option<Seq<char>>,
    pub label_ids: Option<Seq<Seq<char>>>,
}

impl DeepView for Message {
    type V = MessageView;

    open spec fn deep_view(&self) -> MessageView {
        MessageView {
            id: self.id.deep_view(),
            snippet: self.snippet.deep_view(),
            payload: self.payload.deep_view(),
            thread_id: self.thread_id.deep_view(),
            label_ids: self.label_ids.deep_view(),
        }
    }
}

impl View for Message {
    type V = MessageView;

    open spec fn view(&self) -> MessageView {
        self.deep_view()
    }
}

/// Copies a list of strings.
pub fn clone_strings(v: &Vec<String>) -> (r: Vec<String>)
    ensures
        r.deep_view() == v.deep_view(),
{
    let r = v.clone();
    assert(r.deep_view() =~= v.deep_view());
    r
}

impl Clone for Message {
    fn clone(&self) -> (r: Self)
        ensures
            r@ == self@,
    {
        let label_ids = match &self.label_ids {
            None => None,
            Some(ls) => Some(clone_strings(ls)),
        };
        Message {
            id: self.id.clone(),
            snippet: self.snippet.clone(),
            payload: self.payload.clone(),
            thread_id: self.thread_id.clone(),
            label_ids,
        }
    }
}

/// Copies a list of messages.
pub fn clone_messages(v: &Vec<Message>) -> (r: Vec<Message>)
    ensures
        r.deep_view() == v.deep_view(),
{
    let r = v.clone();
    assert(r.deep_view() =~= v.deep_view());
    r
}

/// Header lines of the message on display.
#[derive(Debug)]
pub struct MessageHeadersDisplay {
    pub subject: String,
    pub from: String,
    pub to: String,
    pub date: String,
}

pub struct MessageHeadersDisplayView {
    pub subject: Seq<char>,
    pub from: Seq<char>,
    pub to: Seq<char>,
    pub date: Seq<char>,
}

impl DeepView for MessageHeadersDisplay {
    type V = MessageHeadersDisplayView;

    open spec fn deep_view(&self) -> MessageHeadersDisplayView {
        MessageHeadersDisplayView {
            subject: self.subject@,
            from: self.from@,
            to: self.to@,
            date: self.date@,
        }
    }
}

impl View for MessageHeadersDisplay {
    type V = MessageHeadersDisplayView;

    open spec fn view(&self) -> MessageHeadersDisplayView {
        self.deep_view()
    }
}

impl Clone for MessageHeadersDisplay {
    fn clone(&self) -> (r: Self)
        ensures
            r@ == self@,
    {
        MessageHeadersDisplay {
            subject: self.subject.clone(),
            from: self.from.clone(),
            to: self.to.clone(),
            date: self.date.clone(),
        }
    }
}

/// Stage shown while the client starts.
#[derive(Debug, Clone, Copy, PartialEq, Eq, Structural)]
pub enum LoadingStage {
    Authenticating,
    FetchingLabels,
    FetchingMessages,
    Complete,
}

} // verus!
