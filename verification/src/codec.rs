//! The wire protocol: three kinds of frame, each a JSON object with a
//! `messageType` tag and one payload member.
//!
//! | kind       | payload member | payload                                   |
//! |------------|----------------|-------------------------------------------|
//! | `users`    | `dataArray`    | the names of the users who are online     |
//! | `register` | `data`         | the name of the user who registers        |
//! | `message`  | `data`         | a JSON text of its own: `from`, `message` |

use crate::error::ChatError;
use crate::json::{
    as_list, as_text, docs_of, field, is_flat_object, is_null, is_textual, json_parsed,
    json_printed, lemma_lookup_pair, list_value, member, members_of, object_value, parse, print,
    text_list, text_value, value_doc, JsonDoc,
};
use crate::text::{same_text, texts_of};
use serde_json::Value;
use vstd::prelude::*;

verus! {

/// The kind of a frame.
#[derive(Clone, Copy, Debug, PartialEq, Eq, Structural)]
pub enum MsgTypes {
    Users,
    Register,
    Message,
}

/// A frame, decoded.
#[derive(Clone, Debug, PartialEq, Eq)]
pub enum ProtocolEvent {
    /// The names of the users who are online, in the server's order.
    Users(Vec<String>),
    /// The name under which a client registers.
    Register(String),
    /// A chat line, still encoded: see [`decode_payload`].
    Message(String),
}

/// The mathematical content of a [`ProtocolEvent`].
pub enum ProtocolEventView {
    Users(Seq<Seq<char>>),
    Register(Seq<char>),
    Message(Seq<char>),
}

impl View for ProtocolEvent {
    type V = ProtocolEventView;

    open spec fn view(&self) -> ProtocolEventView {
        match self {
            ProtocolEvent::Users(names) => ProtocolEventView::Users(texts_of(names@)),
            ProtocolEvent::Register(name) => ProtocolEventView::Register(name@),
            ProtocolEvent::Message(payload) => ProtocolEventView::Message(payload@),
        }
    }
}

/// One chat line.
#[derive(Clone, Debug, PartialEq, Eq)]
pub struct ChatMessage {
    pub from: String,
    pub text: String,
}

/// The mathematical content of a [`ChatMessage`].
pub struct ChatMessageView {
    pub from: Seq<char>,
    pub text: Seq<char>,
}

impl View for ChatMessage {
    type V = ChatMessageView;

    open spec fn view(&self) -> ChatMessageView {
        ChatMessageView { from: self.from@, text: self.text@ }
    }
}

/// The tag that stands for `kind` on the wire.
pub open spec fn tag_of(kind: MsgTypes) -> Seq<char> {
    match kind {
        MsgTypes::Users => "users"@,
        MsgTypes::Register => "register"@,
        MsgTypes::Message => "message"@,
    }
}

/// The kind that `tag` stands for, if any.
pub open spec fn kind_of(tag: Seq<char>) -> Option<MsgTypes> {
    if tag == "users"@ {
        Some(MsgTypes::Users)
    } else if tag == "register"@ {
        Some(MsgTypes::Register)
    } else if tag == "message"@ {
        Some(MsgTypes::Message)
    } else {
        None
    }
}

/// The three tags differ, so each kind is found again from its tag.
pub proof fn lemma_kind_of_tag(kind: MsgTypes)
    ensures
        kind_of(tag_of(kind)) == Some(kind),
{
    reveal_strlit("users");
    reveal_strlit("register");
    reveal_strlit("message");
    assert("users"@.len() == 5);
    assert("register"@.len() == 8);
    assert("message"@.len() == 7);
}

impl MsgTypes {
    /// The tag that stands for this kind on the wire.
    pub fn tag(&self) -> (tag: &'static str)
        ensures
            tag@ == tag_of(*self),
    {
        match self {
            MsgTypes::Users => "users",
            MsgTypes::Register => "register",
            MsgTypes::Message => "message",
        }
    }

    /// The kind that `tag` stands for: `None` for any text but the three
    /// lower-case tags.
    pub fn from_tag(tag: &str) -> (kind: Option<MsgTypes>)
        ensures
            kind == kind_of(tag@),
    {
        if same_text(tag, "users") {
            Some(MsgTypes::Users)
        } else if same_text(tag, "register") {
            Some(MsgTypes::Register)
        } else if same_text(tag, "message") {
            Some(MsgTypes::Message)
        } else {
            None
        }
    }
}

/// How an optional text member is read: absent and `null` are the same,
/// anything but a text is an error.
pub open spec fn optional_text(m: Option<JsonDoc>) -> Result<Option<Seq<char>>, ChatError> {
    match m {
        None => Ok(None),
        Some(JsonDoc::Null) => Ok(None),
        Some(JsonDoc::Text(s)) => Ok(Some(s)),
        Some(_) => Err(ChatError::MalformedFrame),
    }
}

/// The texts that the items of a list of texts hold, in order.
pub open spec fn item_texts(items: Seq<JsonDoc>) -> Seq<Seq<char>> {
    items.map_values(|d: JsonDoc| d->Text_0)
}

/// How an optional member that lists texts is read: absent and `null` are the
/// same, anything but a list of nothing but texts is an error.
pub open spec fn optional_texts(m: Option<JsonDoc>) -> Result<Option<Seq<Seq<char>>>, ChatError> {
    match m {
        None => Ok(None),
        Some(JsonDoc::Null) => Ok(None),
        Some(JsonDoc::List(items)) => if is_textual(JsonDoc::List(items)) {
            Ok(Some(item_texts(items)))
        } else {
            Err(ChatError::MalformedFrame)
        },
        Some(_) => Err(ChatError::MalformedFrame),
    }
}

/// The event of a frame of the kind `kind` whose `data` member is `data` and
/// whose `dataArray` member is `names`. A `users` frame without names lists
/// nobody; the other two kinds need their `data`.
pub open spec fn kind_event(
    kind: MsgTypes,
    data: Option<Seq<char>>,
    names: Option<Seq<Seq<char>>>,
) -> Result<ProtocolEventView, ChatError> {
    match kind {
        MsgTypes::Users => Ok(
            ProtocolEventView::Users(
                match names {
                    Some(n) => n,
                    None => Seq::empty(),
                },
            ),
        ),
        MsgTypes::Register => match data {
            Some(name) => Ok(ProtocolEventView::Register(name)),
            None => Err(ChatError::MalformedFrame),
        },
        MsgTypes::Message => match data {
            Some(payload) => Ok(ProtocolEventView::Message(payload)),
            None => Err(ChatError::MalformedFrame),
        },
    }
}

/// The event that the document `doc` stands for.
///
/// The tag decides first: without a text under `messageType` the frame is
/// malformed, and with a text that is none of the three tags its kind is
/// unknown, whatever else it holds. A frame of a known kind is malformed where
/// `data` is neither absent, `null` nor a text, where `dataArray` is neither
/// absent, `null` nor a list of texts, or where the member that its kind needs
/// is missing. The member that its kind does not use is otherwise ignored.
pub open spec fn document_event(doc: JsonDoc) -> Result<ProtocolEventView, ChatError> {
    match field(doc, "messageType"@) {
        Some(JsonDoc::Text(tag)) => match kind_of(tag) {
            None => Err(ChatError::UnknownMessageType),
            Some(kind) => match (
                optional_text(field(doc, "data"@)),
                optional_texts(field(doc, "dataArray"@)),
            ) {
                (Ok(data), Ok(names)) => kind_event(kind, data, names),
                _ => Err(ChatError::MalformedFrame),
            },
        },
        _ => Err(ChatError::MalformedFrame),
    }
}

/// A document whose tag is a text other than the three tags is of unknown
/// kind whatever else it holds, and no other document is.
pub proof fn lemma_unknown_tag(doc: JsonDoc)
    ensures
        document_event(doc) == Err::<ProtocolEventView, ChatError>(ChatError::UnknownMessageType)
            <==> (field(doc, "messageType"@) matches Some(JsonDoc::Text(tag)) && tag != "users"@
            && tag != "register"@ && tag != "message"@),
{
}

/// The event that the frame `frame` stands for: a text that is no JSON
/// document is malformed, any other is read by [`document_event`].
pub open spec fn decoded(frame: Seq<char>) -> Result<ProtocolEventView, ChatError> {
    match json_parsed(frame) {
        None => Err(ChatError::MalformedFrame),
        Some(doc) => document_event(doc),
    }
}

/// The result of a decoding, by its mathematical content.
pub open spec fn event_result(r: Result<ProtocolEvent, ChatError>) -> Result<
    ProtocolEventView,
    ChatError,
> {
    match r {
        Ok(event) => Ok(event@),
        Err(e) => Err(e),
    }
}

/// Reads the member `key` of `doc` as an optional text.
fn text_member<'a>(doc: &'a Value, key: &str) -> (r: Result<Option<&'a str>, ChatError>)
    ensures
        match r {
            Ok(Some(s)) => optional_text(field(value_doc(*doc), key@)) == Ok::<
                Option<Seq<char>>,
                ChatError,
            >(Some(s@)),
            Ok(None) => optional_text(field(value_doc(*doc), key@)) == Ok::<
                Option<Seq<char>>,
                ChatError,
            >(None),
            Err(e) => optional_text(field(value_doc(*doc), key@)) == Err::<
                Option<Seq<char>>,
                ChatError,
            >(e),
        },
{
    match member(doc, key) {
        None => Ok(None),
        Some(m) => {
            if is_null(m) {
                Ok(None)
            } else {
                match as_text(m) {
                    Some(s) => Ok(Some(s)),
                    None => Err(ChatError::MalformedFrame),
                }
            }
        },
    }
}

/// Reads the member `key` of `doc` as an optional list of texts.
fn texts_member(doc: &Value, key: &str) -> (r: Result<Option<Vec<String>>, ChatError>)
    ensures
        match r {
            Ok(Some(names)) => optional_texts(field(value_doc(*doc), key@)) == Ok::<
                Option<Seq<Seq<char>>>,
                ChatError,
            >(Some(texts_of(names@))),
            Ok(None) => optional_texts(field(value_doc(*doc), key@)) == Ok::<
                Option<Seq<Seq<char>>>,
                ChatError,
            >(None),
            Err(e) => optional_texts(field(value_doc(*doc), key@)) == Err::<
                Option<Seq<Seq<char>>>,
                ChatError,
            >(e),
        },
{
    match member(doc, key) {
        None => Ok(None),
        Some(m) => {
            if is_null(m) {
                return Ok(None);
            }
            match as_list(m) {
                None => Err(ChatError::MalformedFrame),
                Some(items) => {
                    let ghost docs = docs_of(items@);
                    let mut names: Vec<String> = Vec::new();
                    let mut i: usize = 0;
                    while i < items.len()
                        invariant
                            i <= items.len(),
                            docs == docs_of(items@),
                            field(value_doc(*doc), key@) == Some(JsonDoc::List(docs)),
                            names@.len() == i,
                            forall|j: int|
                                0 <= j < i ==> #[trigger] docs[j] == JsonDoc::Text(names@[j]@),
                        decreases items.len() - i,
                    {
                        match as_text(&items[i]) {
                            None => {
                                assert(!(docs[i as int] is Text));
                                return Err(ChatError::MalformedFrame);
                            },
                            Some(s) => {
                                names.push(s.to_owned());
                            },
                        }
                        i = i + 1;
                    }
                    assert(item_texts(docs) =~= texts_of(names@));
                    Ok(Some(names))
                },
            }
        },
    }
}

/// Reads a parsed frame.
///
/// What [`decode`] does once `serde_json` has parsed the text: the tag first,
/// then the two payload members.
pub fn read_frame(doc: &Value) -> (r: Result<ProtocolEvent, ChatError>)
    ensures
        event_result(r) == document_event(value_doc(*doc)),
{
    let tag = match member(doc, "messageType") {
        None => {
            return Err(ChatError::MalformedFrame);
        },
        Some(m) => match as_text(m) {
            None => {
                return Err(ChatError::MalformedFrame);
            },
            Some(tag) => tag,
        },
    };
    let kind = match MsgTypes::from_tag(tag) {
        None => {
            return Err(ChatError::UnknownMessageType);
        },
        Some(kind) => kind,
    };
    let data = match text_member(doc, "data") {
        Err(e) => {
            return Err(e);
        },
        Ok(data) => data,
    };
    let names = match texts_member(doc, "dataArray") {
        Err(e) => {
            return Err(e);
        },
        Ok(names) => names,
    };
    match kind {
        MsgTypes::Users => match names {
            Some(names) => Ok(ProtocolEvent::Users(names)),
            None => {
                let nobody: Vec<String> = Vec::new();
                assert(texts_of(nobody@) =~= Seq::<Seq<char>>::empty());
                Ok(ProtocolEvent::Users(nobody))
            },
        },
        MsgTypes::Register => match data {
            Some(name) => Ok(ProtocolEvent::Register(name.to_owned())),
            None => Err(ChatError::MalformedFrame),
        },
        MsgTypes::Message => match data {
            Some(payload) => Ok(ProtocolEvent::Message(payload.to_owned())),
            None => Err(ChatError::MalformedFrame),
        },
    }
}

/// Decodes one inbound frame.
///
/// Fails with `MalformedFrame` where the text is no JSON document or not of
/// the protocol's shape, and with `UnknownMessageType` where its tag is a text
/// other than the three kinds. The payload of a `message` frame is handed on
/// as it came: [`decode_payload`] reads it.
pub fn decode(frame: &str) -> (r: Result<ProtocolEvent, ChatError>)
    ensures
        event_result(r) == decoded(frame@),
{
    match parse(frame) {
        Err(_) => Err(ChatError::MalformedFrame),
        Ok(doc) => read_frame(&doc),
    }
}

/// The document that is written for `event`: the tag under `messageType`,
/// then the one payload member of its kind, and no other member.
pub open spec fn frame_document(event: ProtocolEventView) -> JsonDoc {
    match event {
        ProtocolEventView::Users(names) => JsonDoc::Dict(
            seq![
                ("messageType"@, JsonDoc::Text(tag_of(MsgTypes::Users))),
                ("dataArray"@, text_list(names)),
            ],
        ),
        ProtocolEventView::Register(name) => JsonDoc::Dict(
            seq![
                ("messageType"@, JsonDoc::Text(tag_of(MsgTypes::Register))),
                ("data"@, JsonDoc::Text(name)),
            ],
        ),
        ProtocolEventView::Message(payload) => JsonDoc::Dict(
            seq![
                ("messageType"@, JsonDoc::Text(tag_of(MsgTypes::Message))),
                ("data"@, JsonDoc::Text(payload)),
            ],
        ),
    }
}

/// The frame that is sent for `event`.
pub open spec fn encoded(event: ProtocolEventView) -> Seq<char> {
    json_printed(frame_document(event))
}

/// The three member names of a frame differ from each other.
proof fn lemma_frame_keys()
    ensures
        "messageType"@ != "data"@,
        "messageType"@ != "dataArray"@,
        "data"@ != "dataArray"@,
{
    reveal_strlit("messageType");
    reveal_strlit("data");
    reveal_strlit("dataArray");
    assert("messageType"@.len() == 11);
    assert("data"@.len() == 4);
    assert("dataArray"@.len() == 9);
}

/// A frame has one payload member, that of its kind: the other of `data` and
/// `dataArray` is absent from what is written.
pub proof fn lemma_one_payload_member(event: ProtocolEventView)
    ensures
        event is Users ==> field(frame_document(event), "data"@).is_none() && field(
            frame_document(event),
            "dataArray"@,
        ).is_some(),
        !(event is Users) ==> field(frame_document(event), "dataArray"@).is_none() && field(
            frame_document(event),
            "data"@,
        ).is_some(),
{
    lemma_frame_keys();
    let members = frame_document(event)->Dict_0;
    lemma_lookup_pair(members[0].0, members[0].1, members[1].0, members[1].1, "data"@);
    lemma_lookup_pair(members[0].0, members[0].1, members[1].0, members[1].1, "dataArray"@);
    assert(members =~= seq![members[0], members[1]]);
}

/// Reading the document written for an event gives the event back, for each
/// of the three kinds; and that document is a flat object.
pub proof fn lemma_document_round_trip(event: ProtocolEventView)
    ensures
        is_flat_object(frame_document(event)),
        document_event(frame_document(event)) == Ok::<ProtocolEventView, ChatError>(event),
{
    lemma_frame_keys();
    lemma_kind_of_tag(MsgTypes::Users);
    lemma_kind_of_tag(MsgTypes::Register);
    lemma_kind_of_tag(MsgTypes::Message);
    let members = frame_document(event)->Dict_0;
    lemma_lookup_pair(members[0].0, members[0].1, members[1].0, members[1].1, "messageType"@);
    lemma_lookup_pair(members[0].0, members[0].1, members[1].0, members[1].1, "data"@);
    lemma_lookup_pair(members[0].0, members[0].1, members[1].0, members[1].1, "dataArray"@);
    assert(members =~= seq![members[0], members[1]]);
    match event {
        ProtocolEventView::Users(names) => {
            assert(item_texts(text_list(names)->List_0) =~= names);
        },
        _ => {},
    }
}

/// The object with the two members given, the first first.
fn pair_value(first: &str, a: Value, second: &str, b: Value) -> (v: Value)
    requires
        first@ != second@,
    ensures
        value_doc(v) == JsonDoc::Dict(seq![(first@, value_doc(a)), (second@, value_doc(b))]),
{
    let ghost members = seq![(first@, value_doc(a)), (second@, value_doc(b))];
    let mut entries: Vec<(String, Value)> = Vec::new();
    entries.push((first.to_owned(), a));
    entries.push((second.to_owned(), b));
    assert(members_of(entries@) =~= members);
    object_value(entries)
}

/// A copy of `names`.
fn copy_names(names: &Vec<String>) -> (copy: Vec<String>)
    ensures
        copy@ == names@,
{
    let mut copy: Vec<String> = Vec::new();
    let mut i: usize = 0;
    while i < names.len()
        invariant
            i <= names.len(),
            copy@ == names@.take(i as int),
        decreases names.len() - i,
    {
        copy.push(names[i].clone());
        assert(names@.take(i + 1) =~= names@.take(i as int).push(names@[i as int]));
        i = i + 1;
    }
    assert(names@.take(i as int) =~= names@);
    copy
}

/// Encodes one event as a frame.
///
/// Never fails. The frame holds the tag first and the payload member second,
/// and decoding it gives the event back: for a `register` and a `message`
/// event, and for a `users` event as well.
pub fn encode(event: &ProtocolEvent) -> (frame: String)
    ensures
        frame@ == encoded(event@),
        decoded(frame@) == Ok::<ProtocolEventView, ChatError>(event@),
{
    proof {
        lemma_frame_keys();
        lemma_document_round_trip(event@);
    }
    let doc = match event {
        ProtocolEvent::Users(names) => pair_value(
            "messageType",
            text_value(MsgTypes::Users.tag().to_owned()),
            "dataArray",
            list_value(copy_names(names)),
        ),
        ProtocolEvent::Register(name) => pair_value(
            "messageType",
            text_value(MsgTypes::Register.tag().to_owned()),
            "data",
            text_value(name.clone()),
        ),
        ProtocolEvent::Message(payload) => pair_value(
            "messageType",
            text_value(MsgTypes::Message.tag().to_owned()),
            "data",
            text_value(payload.clone()),
        ),
    };
    print(&doc)
}

/// The chat line that the payload document `doc` stands for: an object with a
/// text under `from` and a text under `message`. Other members are ignored.
pub open spec fn document_message(doc: JsonDoc) -> Result<ChatMessageView, ChatError> {
    match (field(doc, "from"@), field(doc, "message"@)) {
        (Some(JsonDoc::Text(from)), Some(JsonDoc::Text(text))) => Ok(
            ChatMessageView { from, text },
        ),
        _ => Err(ChatError::MalformedPayload),
    }
}

/// The chat line that the payload `payload` of a `message` frame stands for.
pub open spec fn payload_decoded(payload: Seq<char>) -> Result<ChatMessageView, ChatError> {
    match json_parsed(payload) {
        None => Err(ChatError::MalformedPayload),
        Some(doc) => document_message(doc),
    }
}

/// A frame fails to decode in two ways only, and a payload in one.
pub proof fn lemma_decoding_errors(text: Seq<char>)
    ensures
        decoded(text) matches Err(e) ==> e == ChatError::MalformedFrame || e
            == ChatError::UnknownMessageType,
        payload_decoded(text) matches Err(e) ==> e == ChatError::MalformedPayload,
{
}

/// The document that is written for the chat line `message`.
pub open spec fn message_document(message: ChatMessageView) -> JsonDoc {
    JsonDoc::Dict(
        seq![("from"@, JsonDoc::Text(message.from)), ("message"@, JsonDoc::Text(message.text))],
    )
}

/// The payload that carries the chat line `message`.
pub open spec fn payload_encoded(message: ChatMessageView) -> Seq<char> {
    json_printed(message_document(message))
}

/// The result of decoding a payload, by its mathematical content.
pub open spec fn message_result(r: Result<ChatMessage, ChatError>) -> Result<
    ChatMessageView,
    ChatError,
> {
    match r {
        Ok(message) => Ok(message@),
        Err(e) => Err(e),
    }
}

/// The two member names of a payload differ.
proof fn lemma_payload_keys()
    ensures
        "from"@ != "message"@,
{
    reveal_strlit("from");
    reveal_strlit("message");
    assert("from"@.len() == 4);
    assert("message"@.len() == 7);
}

/// Reading the document written for a chat line gives the line back; and that
/// document is a flat object.
pub proof fn lemma_payload_document_round_trip(message: ChatMessageView)
    ensures
        is_flat_object(message_document(message)),
        document_message(message_document(message)) == Ok::<ChatMessageView, ChatError>(message),
{
    lemma_payload_keys();
    let members = message_document(message)->Dict_0;
    lemma_lookup_pair(members[0].0, members[0].1, members[1].0, members[1].1, "from"@);
    lemma_lookup_pair(members[0].0, members[0].1, members[1].0, members[1].1, "message"@);
    assert(members =~= seq![members[0], members[1]]);
}

/// Reads a parsed payload.
///
/// What [`decode_payload`] does once `serde_json` has parsed the text.
pub fn read_payload(doc: &Value) -> (r: Result<ChatMessage, ChatError>)
    ensures
        message_result(r) == document_message(value_doc(*doc)),
{
    let from = match member(doc, "from") {
        None => {
            return Err(ChatError::MalformedPayload);
        },
        Some(m) => match as_text(m) {
            None => {
                return Err(ChatError::MalformedPayload);
            },
            Some(from) => from,
        },
    };
    let text = match member(doc, "message") {
        None => {
            return Err(ChatError::MalformedPayload);
        },
        Some(m) => match as_text(m) {
            None => {
                return Err(ChatError::MalformedPayload);
            },
            Some(text) => text,
        },
    };
    Ok(ChatMessage { from: from.to_owned(), text: text.to_owned() })
}

/// Decodes the payload of a `message` frame.
///
/// Fails with `MalformedPayload`, and with nothing else, where the payload is
/// no JSON object with a text under `from` and a text under `message`.
pub fn decode_payload(payload: &str) -> (r: Result<ChatMessage, ChatError>)
    ensures
        message_result(r) == payload_decoded(payload@),
{
    match parse(payload) {
        Err(_) => Err(ChatError::MalformedPayload),
        Ok(doc) => read_payload(&doc),
    }
}

/// Encodes a chat line as the payload of a `message` frame: `from` first,
/// `message` second. Decoding the payload gives the line back.
pub fn encode_payload(message: &ChatMessage) -> (payload: String)
    ensures
        payload@ == payload_encoded(message@),
        payload_decoded(payload@) == Ok::<ChatMessageView, ChatError>(message@),
{
    proof {
        lemma_payload_keys();
        lemma_payload_document_round_trip(message@);
    }
    let doc = pair_value(
        "from",
        text_value(message.from.clone()),
        "message",
        text_value(message.text.clone()),
    );
    print(&doc)
}

} // verus!
