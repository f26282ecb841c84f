//! The policy for the notification event: which call it is, how a message
//! embedded in its text is framed, and what replaces the record it came with.

use std::collections::VecDeque;
use vstd::prelude::*;
use vstd::string::StrSliceExecFns;
use vstd::string::StringExecFns;
use crate::sdk::fstring::{spec_foreign_units, FString};
use crate::sdk::sfxgame::{FSFXOnlineMOTDInfo, NotificationPayload};
use crate::text::{chars_of, contains, spec_contains, spec_starts_with, starts_with};
use crate::utf16::spec_decode;

verus! {

/// The identity of the event that displays a notification: a call is that
/// event if its identity contains this text.
pub const NOTIFICATION_EVENT: &'static str = "Function SFXGame.SFXOnlineComponentUI.OnDisplayNotification";

/// The tag that a notification text begins with when a structured message
/// follows.
pub const SYSTEM_TAG: &'static str = "[SYSTEM_TERMINAL]";

/// The tracking number of a notification that stands in for a queued message.
pub const SUBSTITUTE_TRACKING_ID: i32 = -1;

/// The priority of a notification that stands in for a queued message.
pub const SUBSTITUTE_PRIORITY: i32 = 1;

/// Whether a call with the identity `identity` is the notification event.
pub open spec fn spec_is_notification_event(identity: Seq<char>) -> bool {
    spec_contains(identity, NOTIFICATION_EVENT@)
}

/// `text` without what follows its last closing brace; nothing of it if it
/// has no closing brace.
pub open spec fn spec_trim_to_brace(text: Seq<char>) -> Seq<char>
    decreases text.len(),
{
    if text.len() == 0 || text.last() == '}' {
        text
    } else {
        spec_trim_to_brace(text.drop_last())
    }
}

/// The structured message embedded in a notification text: what follows the
/// tag, up to the last closing brace. `None` if the text does not begin with
/// the tag.
pub open spec fn spec_json_body(message: Seq<char>) -> Option<Seq<char>> {
    if spec_starts_with(message, SYSTEM_TAG@) {
        Some(spec_trim_to_brace(message.skip(SYSTEM_TAG@.len() as int)))
    } else {
        None
    }
}

/// What trimming leaves is the start of the text, ends in a closing brace
/// unless it is empty, and leaves no closing brace behind.
pub proof fn lemma_trim_to_brace(text: Seq<char>)
    ensures
        spec_trim_to_brace(text).len() <= text.len(),
        spec_trim_to_brace(text) == text.take(spec_trim_to_brace(text).len() as int),
        spec_trim_to_brace(text).len() > 0 ==> spec_trim_to_brace(text).last() == '}',
        forall|i: int| spec_trim_to_brace(text).len() <= i < text.len() ==> text[i] != '}',
    decreases text.len(),
{
    if text.len() == 0 || text.last() == '}' {
        assert(text.take(text.len() as int) =~= text);
    } else {
        let shorter = text.drop_last();
        lemma_trim_to_brace(shorter);
        let kept = spec_trim_to_brace(shorter).len() as int;
        assert(shorter.take(kept) =~= text.take(kept));
        assert forall|i: int| kept <= i < text.len() implies text[i] != '}' by {
            if i < shorter.len() {
                assert(shorter[i] == text[i]);
            }
        }
    }
}

/// Whether a call with the identity `identity` is the notification event.
pub fn is_notification_event(identity: &str) -> (matched: bool)
    ensures
        matched == spec_is_notification_event(identity@),
{
    let identity = chars_of(identity);
    let event = chars_of(NOTIFICATION_EVENT);
    contains(&identity, &event)
}

/// Frames the structured message embedded in a notification text: strips
/// the tag and everything after the last closing brace. `None` if the text
/// does not begin with the tag.
pub fn json_body(message: &str) -> (body: Option<String>)
    ensures
        body is Some <==> spec_json_body(message@) is Some,
        body is Some ==> Some(body->0@) == spec_json_body(message@),
{
    let chars = chars_of(message);
    let tag = chars_of(SYSTEM_TAG);
    if !starts_with(&chars, &tag) {
        return None;
    }
    let start = tag.len();
    let mut end = chars.len();
    let ghost rest = message@.skip(start as int);
    assert(rest.take(end - start) =~= rest);
    while end > start && chars[end - 1] != '}'
        invariant
            start <= end <= chars.len(),
            chars@ == message@,
            rest == message@.skip(start as int),
            spec_trim_to_brace(rest) == spec_trim_to_brace(rest.take(end - start)),
        decreases end,
    {
        assert(rest.take(end - start).drop_last() =~= rest.take(end - start - 1));
        end -= 1;
    }
    assert(rest.take(end - start) =~= message@.subrange(start as int, end as int));
    Some(String::from_str(message.substring_char(start, end)))
}

/// A message that replaces a notification, as the embedded structured text
/// spells it out.
#[derive(Clone, Debug, Default, PartialEq, Eq)]
pub struct SystemMessage {
    pub title: String,
    pub message: String,
    pub image: String,
    pub ty: u8,
    pub tracking_id: i32,
    pub priority: i32,
}

/// A message that waits in the queue to replace a notification.
#[derive(Clone, Debug, Default, PartialEq, Eq)]
pub struct PendingMessage {
    pub title: String,
    pub message: String,
    pub image: String,
}

/// Whether the foreign string for `text` has a count that the foreign layout
/// can tell.
pub open spec fn spec_text_fits(text: Seq<char>) -> bool {
    spec_foreign_units(text).len() <= i32::MAX
}

impl SystemMessage {
    /// Whether each text of the message fits a foreign string.
    pub open spec fn spec_fits(&self) -> bool {
        &&& spec_text_fits(self.title@)
        &&& spec_text_fits(self.message@)
        &&& spec_text_fits(self.image@)
    }

    /// The notification record that the message asks for: its texts and
    /// numbers, and zero where it says nothing.
    pub open spec fn spec_payload(&self) -> NotificationPayload {
        NotificationPayload {
            title: spec_foreign_units(self.title@),
            message: spec_foreign_units(self.message@),
            image: spec_foreign_units(self.image@),
            tracking_id: self.tracking_id,
            priority: self.priority,
            ty: self.ty,
            bw_ent_id: 0,
            offer_id: 0,
        }
    }

    /// Builds the notification record that the message asks for, or nothing
    /// if one of its texts does not fit a foreign string.
    pub fn into_payload(self) -> (payload: Option<FSFXOnlineMOTDInfo>)
        ensures
            payload is Some <==> self.spec_fits(),
            payload is Some ==> payload->0@ == self.spec_payload(),
    {
        let title = FString::try_from_string(self.title);
        let message = FString::try_from_string(self.message);
        let image = FString::try_from_string(self.image);
        match (title, message, image) {
            (Some(title), Some(message), Some(image)) => Some(
                FSFXOnlineMOTDInfo {
                    message,
                    title,
                    image,
                    tracking_id: self.tracking_id,
                    priority: self.priority,
                    bw_ent_id: 0,
                    offer_id: 0,
                    ty: self.ty,
                },
            ),
            _ => None,
        }
    }
}

impl PendingMessage {
    /// Whether each text of the message fits a foreign string.
    pub open spec fn spec_fits(&self) -> bool {
        &&& spec_text_fits(self.title@)
        &&& spec_text_fits(self.message@)
        &&& spec_text_fits(self.image@)
    }

    /// The notification record that stands in for the message: its texts,
    /// the fixed tracking number and priority of a substitute, and zero
    /// elsewhere.
    pub open spec fn spec_payload(&self) -> NotificationPayload {
        NotificationPayload {
            title: spec_foreign_units(self.title@),
            message: spec_foreign_units(self.message@),
            image: spec_foreign_units(self.image@),
            tracking_id: SUBSTITUTE_TRACKING_ID,
            priority: SUBSTITUTE_PRIORITY,
            ty: 0,
            bw_ent_id: 0,
            offer_id: 0,
        }
    }

    /// Builds the notification record that stands in for the message, or
    /// nothing if one of its texts does not fit a foreign string.
    pub fn into_payload(self) -> (payload: Option<FSFXOnlineMOTDInfo>)
        ensures
            payload is Some <==> self.spec_fits(),
            payload is Some ==> payload->0@ == self.spec_payload(),
    {
        let title = FString::try_from_string(self.title);
        let message = FString::try_from_string(self.message);
        let image = FString::try_from_string(self.image);
        match (title, message, image) {
            (Some(title), Some(message), Some(image)) => Some(
                FSFXOnlineMOTDInfo {
                    message,
                    title,
                    image,
                    tracking_id: SUBSTITUTE_TRACKING_ID,
                    priority: SUBSTITUTE_PRIORITY,
                    bw_ent_id: 0,
                    offer_id: 0,
                    ty: 0,
                },
            ),
            _ => None,
        }
    }
}

/// The messages that wait to replace notifications, oldest first.
#[derive(Debug, Default)]
pub struct MessageQueue {
    entries: VecDeque<PendingMessage>,
}

impl View for MessageQueue {
    type V = Seq<PendingMessage>;

    /// The waiting messages, oldest first.
    closed spec fn view(&self) -> Seq<PendingMessage> {
        self.entries@
    }
}

impl MessageQueue {
    /// A queue in which nothing waits.
    pub fn new() -> (queue: MessageQueue)
        ensures
            queue@ == Seq::<PendingMessage>::empty(),
    {
        MessageQueue { entries: VecDeque::new() }
    }

    /// The number of waiting messages.
    pub fn len(&self) -> (count: usize)
        ensures
            count == self@.len(),
    {
        self.entries.len()
    }

    /// Puts `message` behind all that wait.
    pub fn push(&mut self, message: PendingMessage)
        ensures
            final(self)@ == old(self)@.push(message),
    {
        self.entries.push_back(message);
    }

    /// Takes the message that has waited longest, if any waits.
    pub fn pop(&mut self) -> (message: Option<PendingMessage>)
        ensures
            old(self)@.len() == 0 ==> message is None && final(self)@ == old(self)@,
            old(self)@.len() > 0 ==> message == Some(old(self)@[0]) && final(self)@ == old(
                self,
            )@.drop_first(),
    {
        let message = self.entries.pop_front();
        assert(old(self)@.len() > 0 ==> self@ =~= old(self)@.drop_first());
        message
    }
}

/// Which of the two ways of replacing a notification is in force.
#[derive(Clone, Copy, Debug, PartialEq, Eq)]
pub enum Policy {
    /// The replacement is spelled out in the notification's own text.
    StructuredExtraction,
    /// The replacement is the message that has waited longest in the queue.
    QueueSubstitution,
}

/// What the policy says of one notification event.
#[derive(Clone, Debug)]
pub enum Translation {
    /// The event is none of the policy's business: it goes on unchanged.
    NotHandled,
    /// The event carries a structured message: this is its text. Whether
    /// the event is handled depends on what the text parses to.
    Parse(String),
    /// The event is replaced by one with this record.
    Handled(FSFXOnlineMOTDInfo),
}

/// A translation as contracts see it.
pub enum TranslationView {
    NotHandled,
    Parse(Seq<char>),
    Handled(NotificationPayload),
}

impl View for Translation {
    type V = TranslationView;

    open spec fn view(&self) -> TranslationView {
        match self {
            Translation::NotHandled => TranslationView::NotHandled,
            Translation::Parse(body) => TranslationView::Parse(body@),
            Translation::Handled(info) => TranslationView::Handled(info@),
        }
    }
}

/// What the policy says of a notification whose record is `info` while
/// `queue` waits, and the queue that is left. A record whose message is not
/// text is never handled. Under structured extraction the queue is left
/// alone. Under queue substitution at most one message leaves the queue; it
/// is lost if it does not fit a foreign string.
pub open spec fn spec_translate(
    policy: Policy,
    queue: Seq<PendingMessage>,
    info: NotificationPayload,
) -> (TranslationView, Seq<PendingMessage>) {
    match spec_decode(info.message) {
        None => (TranslationView::NotHandled, queue),
        Some(text) => match policy {
            Policy::StructuredExtraction => match spec_json_body(text) {
                Some(body) => (TranslationView::Parse(body), queue),
                None => (TranslationView::NotHandled, queue),
            },
            Policy::QueueSubstitution => if queue.len() == 0 {
                (TranslationView::NotHandled, queue)
            } else if queue[0].spec_fits() {
                (TranslationView::Handled(queue[0].spec_payload()), queue.drop_first())
            } else {
                (TranslationView::NotHandled, queue.drop_first())
            },
        },
    }
}

/// What the policy says once the structured message has been parsed:
/// handled with the record that the message asks for, unless nothing was
/// parsed or the message does not fit.
pub open spec fn spec_finish(parsed: Option<SystemMessage>) -> TranslationView {
    match parsed {
        Some(message) => if message.spec_fits() {
            TranslationView::Handled(message.spec_payload())
        } else {
            TranslationView::NotHandled
        },
        None => TranslationView::NotHandled,
    }
}

/// Decides what becomes of a notification event whose record is `info`.
pub fn translate(policy: Policy, queue: &mut MessageQueue, info: &FSFXOnlineMOTDInfo) -> (verdict:
    Translation)
    ensures
        (verdict@, final(queue)@) == spec_translate(policy, old(queue)@, info@),
{
    let text = match info.message.decode() {
        Ok(text) => text,
        Err(_) => {
            return Translation::NotHandled;
        },
    };
    match policy {
        Policy::StructuredExtraction => match json_body(text.as_str()) {
            Some(body) => Translation::Parse(body),
            None => Translation::NotHandled,
        },
        Policy::QueueSubstitution => match queue.pop() {
            Some(message) => match message.into_payload() {
                Some(payload) => Translation::Handled(payload),
                None => Translation::NotHandled,
            },
            None => Translation::NotHandled,
        },
    }
}

/// Decides what becomes of a notification event once its structured message
/// has been parsed; `None` stands for a text that did not parse.
pub fn finish(parsed: Option<SystemMessage>) -> (verdict: Translation)
    ensures
        verdict@ == spec_finish(parsed),
{
    match parsed {
        Some(message) => match message.into_payload() {
            Some(payload) => Translation::Handled(payload),
            None => Translation::NotHandled,
        },
        None => Translation::NotHandled,
    }
}

/// Under queue substitution, two messages that were queued one after the
/// other replace the next two notifications in that order, and a third
/// notification finds the queue empty and is not handled.
pub proof fn lemma_queue_substitutes_in_order(
    first: PendingMessage,
    second: PendingMessage,
    one: NotificationPayload,
    two: NotificationPayload,
    three: NotificationPayload,
)
    requires
        first.spec_fits(),
        second.spec_fits(),
        spec_decode(one.message) is Some,
        spec_decode(two.message) is Some,
        spec_decode(three.message) is Some,
    ensures
        ({
            let queued = Seq::<PendingMessage>::empty().push(first).push(second);
            let after_one = spec_translate(Policy::QueueSubstitution, queued, one);
            let after_two = spec_translate(Policy::QueueSubstitution, after_one.1, two);
            let after_three = spec_translate(Policy::QueueSubstitution, after_two.1, three);
            &&& after_one.0 == TranslationView::Handled(first.spec_payload())
            &&& after_two.0 == TranslationView::Handled(second.spec_payload())
            &&& after_three.0 == TranslationView::NotHandled
            &&& after_three.1 == Seq::<PendingMessage>::empty()
        }),
{
    let queued = Seq::<PendingMessage>::empty().push(first).push(second);
    assert(queued.drop_first() =~= Seq::<PendingMessage>::empty().push(second));
    assert(queued.drop_first().drop_first() =~= Seq::<PendingMessage>::empty());
}

/// Under structured extraction the queue is never touched, and a
/// notification is handled only through a text that was handed out for
/// parsing.
pub proof fn lemma_structured_extraction_spares_queue(
    queue: Seq<PendingMessage>,
    info: NotificationPayload,
)
    ensures
        spec_translate(Policy::StructuredExtraction, queue, info).1 == queue,
        !(spec_translate(Policy::StructuredExtraction, queue, info).0 is Handled),
{
}

} // verus!
