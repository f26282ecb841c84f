//! The redirected entry point: what is done with each intercepted call.
//!
//! Nothing here touches the foreign process. Each function takes what the
//! embedding program has read and answers with what it has to do next, until
//! the call either goes through to the unpatched dispatcher or is replaced.

use vstd::prelude::*;
use crate::abi::{CallArguments, ForeignAddress, ForeignCall};
use crate::hook::{HookInstaller, InstallPhase};
use crate::notification::{
    finish, is_notification_event, spec_finish, spec_is_notification_event, spec_translate,
    translate, MessageQueue, Policy, SystemMessage, Translation, TranslationView,
    NOTIFICATION_EVENT,
};
use crate::text::spec_occurs_at;
use crate::sdk::object::UFunction;
use crate::sdk::sfxgame::{
    Invocation, NotificationPayload, USFXOnlineComponentUI,
    USFXOnlineComponentUI_eventOnDisplayNotification_Parms, ON_DISPLAY_NOTIFICATION_INDEX,
};
use crate::utf16::string_push;

verus! {

/// Why an intercepted call cannot be dealt with. Every one of these is fatal
/// to the process.
#[derive(Clone, Copy, Debug, PartialEq, Eq)]
pub enum DispatchError {
    /// A name that the call's identity is made of cannot be read as text.
    UnreadableIdentity,
    /// The notification event came without an argument block.
    NullParams,
    /// The notification event came without an object to raise it on.
    NullObject,
}

/// A notification event whose argument block has yet to be read.
#[derive(Debug)]
pub struct PendingNotification {
    arguments: CallArguments,
}

/// A notification event whose structured message has yet to be parsed.
#[derive(Debug)]
pub struct PendingParse {
    arguments: CallArguments,
}

impl View for PendingNotification {
    type V = CallArguments;

    /// The arguments that the call arrived with.
    closed spec fn view(&self) -> CallArguments {
        self.arguments
    }
}

impl View for PendingParse {
    type V = CallArguments;

    /// The arguments that the call arrived with.
    closed spec fn view(&self) -> CallArguments {
        self.arguments
    }
}

/// What is done first with an intercepted call.
#[derive(Debug)]
pub enum Interception {
    /// The call cannot be identified: stop.
    Abort(DispatchError),
    /// Record `line`, then let the call through with `arguments`.
    CallThrough { line: String, arguments: CallArguments },
    /// Record `line`, then read the argument block as a notification record
    /// and hand it to `pending`.
    Inspect { line: String, pending: PendingNotification },
}

/// What is done with a notification event.
#[derive(Debug)]
pub enum Verdict {
    /// The event cannot be dealt with: stop.
    Abort(DispatchError),
    /// Let the call through with `arguments`.
    CallThrough(CallArguments),
    /// Parse `body` as a structured message and hand the result to
    /// `pending`.
    Parse { body: String, pending: PendingParse },
    /// Make this call in place of the intercepted one.
    Invoke(Invocation),
}

/// A verdict as contracts see it.
pub enum VerdictView {
    Abort(DispatchError),
    CallThrough(CallArguments),
    Parse { body: Seq<char>, arguments: CallArguments },
    Invoke { object: ForeignAddress, function_index: usize, info: NotificationPayload },
}

impl View for Verdict {
    type V = VerdictView;

    open spec fn view(&self) -> VerdictView {
        match self {
            Verdict::Abort(error) => VerdictView::Abort(*error),
            Verdict::CallThrough(arguments) => VerdictView::CallThrough(*arguments),
            Verdict::Parse { body, pending } => VerdictView::Parse {
                body: body@,
                arguments: pending@,
            },
            Verdict::Invoke(call) => VerdictView::Invoke {
                object: call.object,
                function_index: call.function_index,
                info: call.params.info@,
            },
        }
    }
}

/// The line that records a call with the identity `identity`.
pub open spec fn spec_log_line(identity: Seq<char>) -> Seq<char> {
    identity.push('\n')
}

/// What the policy's answer means for a call that arrived with `arguments`:
/// an unhandled event goes through with the arguments it came with, a
/// handled one is replaced by a notification raised on the same object, and
/// a replacement without an object to raise it on is fatal.
pub open spec fn spec_conclude(arguments: CallArguments, translation: TranslationView)
    -> VerdictView {
    match translation {
        TranslationView::NotHandled => VerdictView::CallThrough(arguments),
        TranslationView::Parse(body) => VerdictView::Parse { body, arguments },
        TranslationView::Handled(info) => if arguments.object == 0 {
            VerdictView::Abort(DispatchError::NullObject)
        } else {
            VerdictView::Invoke {
                object: arguments.object,
                function_index: ON_DISPLAY_NOTIFICATION_INDEX,
                info,
            }
        },
    }
}

/// Turns the policy's answer into what is done with the call.
fn conclude(arguments: CallArguments, translation: Translation) -> (verdict: Verdict)
    ensures
        verdict@ == spec_conclude(arguments, translation@),
{
    match translation {
        Translation::NotHandled => Verdict::CallThrough(arguments),
        Translation::Parse(body) => Verdict::Parse { body, pending: PendingParse { arguments } },
        Translation::Handled(info) => {
            if arguments.object == 0 {
                Verdict::Abort(DispatchError::NullObject)
            } else {
                let this = USFXOnlineComponentUI { address: arguments.object };
                Verdict::Invoke(this.event_on_display_notification(info))
            }
        },
    }
}

/// Takes a call that arrived at the redirected entry point. `function` is
/// the function that the call names, `arguments` the four values it came
/// with.
///
/// A call whose identity cannot be read is fatal. Any other call is
/// recorded by its identity; unless it is the notification event it goes
/// through to the unpatched dispatcher with exactly the arguments it came
/// with.
pub fn fake_process_event(function: &UFunction, arguments: CallArguments) -> (step: Interception)
    ensures
        !function.spec_object().spec_identifiable() ==> step == Interception::Abort(
            DispatchError::UnreadableIdentity,
        ),
        function.spec_object().spec_identifiable() && !spec_is_notification_event(
            function.spec_object().spec_full_name(),
        ) ==> {
            &&& step matches Interception::CallThrough { line, arguments: forwarded }
            &&& line@ == spec_log_line(function.spec_object().spec_full_name())
            &&& forwarded == arguments
        },
        function.spec_object().spec_identifiable() && spec_is_notification_event(
            function.spec_object().spec_full_name(),
        ) ==> {
            &&& step matches Interception::Inspect { line, pending }
            &&& line@ == spec_log_line(function.spec_object().spec_full_name())
            &&& pending@ == arguments
        },
{
    let mut name = match function.as_object_ref().resolve_identity() {
        Some(name) => name,
        None => {
            return Interception::Abort(DispatchError::UnreadableIdentity);
        },
    };
    proof {
        lemma_line_matches_as_identity(name@);
    }
    string_push(&mut name, '\n');
    if is_notification_event(name.as_str()) {
        Interception::Inspect { line: name, pending: PendingNotification { arguments } }
    } else {
        Interception::CallThrough { line: name, arguments }
    }
}

impl PendingNotification {
    /// Takes the argument block of the event, read as a notification record
    /// (`None` if the call came without one), and decides under `policy`
    /// what becomes of the event.
    pub fn translate(
        self,
        params: Option<&USFXOnlineComponentUI_eventOnDisplayNotification_Parms>,
        policy: Policy,
        queue: &mut MessageQueue,
    ) -> (verdict: Verdict)
        ensures
            params is None ==> verdict@ == VerdictView::Abort(DispatchError::NullParams)
                && final(queue)@ == old(queue)@,
            params is Some ==> verdict@ == spec_conclude(
                self@,
                spec_translate(policy, old(queue)@, params->0.info@).0,
            ) && final(queue)@ == spec_translate(policy, old(queue)@, params->0.info@).1,
    {
        match params {
            Some(params) => conclude(self.arguments, translate(policy, queue, &params.info)),
            None => Verdict::Abort(DispatchError::NullParams),
        }
    }
}

impl PendingParse {
    /// Takes what the structured message parsed to (`None` if it did not
    /// parse) and decides what becomes of the event.
    pub fn resume(self, parsed: Option<SystemMessage>) -> (verdict: Verdict)
        ensures
            verdict@ == spec_conclude(self@, spec_finish(parsed)),
    {
        conclude(self.arguments, finish(parsed))
    }
}

/// The call that runs the unpatched dispatcher for `arguments`: it enters
/// through the trampoline of the installed hook and carries the arguments
/// unchanged.
pub fn process_event(hook: &HookInstaller, arguments: CallArguments) -> (call: ForeignCall)
    requires
        hook@.phase == InstallPhase::Installed,
    ensures
        call.entry == hook@.trampoline,
        call.arguments == arguments,
{
    ForeignCall { entry: hook.handle().unwrap().entry, arguments }
}

/// Whatever the policy says, a call that is let through carries exactly the
/// arguments that it arrived with.
pub proof fn lemma_call_through_keeps_arguments(
    arguments: CallArguments,
    translation: TranslationView,
)
    ensures
        spec_conclude(arguments, translation) matches VerdictView::CallThrough(forwarded)
            ==> forwarded == arguments,
        translation is NotHandled ==> spec_conclude(arguments, translation)
            == VerdictView::CallThrough(arguments),
{
}

/// The line that records a call names the notification event exactly when
/// the call's identity does: the line break at its end plays no part.
pub proof fn lemma_line_matches_as_identity(identity: Seq<char>)
    ensures
        spec_is_notification_event(spec_log_line(identity)) == spec_is_notification_event(
            identity,
        ),
{
    reveal_strlit("Function SFXGame.SFXOnlineComponentUI.OnDisplayNotification");
    let event = NOTIFICATION_EVENT@;
    let line = spec_log_line(identity);
    if spec_is_notification_event(identity) {
        let at = choose|at: int| spec_occurs_at(identity, event, at);
        assert(line.subrange(at, at + event.len()) =~= identity.subrange(at, at + event.len()));
        assert(spec_occurs_at(line, event, at));
    }
    if spec_is_notification_event(line) {
        let at = choose|at: int| spec_occurs_at(line, event, at);
        if at + event.len() == line.len() {
            assert(line.subrange(at, at + event.len())[event.len() - 1] == '\n');
            assert(event[event.len() - 1] == 'n');
        }
        assert(line.subrange(at, at + event.len()) =~= identity.subrange(at, at + event.len()));
        assert(spec_occurs_at(identity, event, at));
    }
}

} // verus!
