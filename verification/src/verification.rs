//! The verification protocol: a request for approval is put before a human
//! as a prompt with buttons, and the button that was chosen decides the
//! status of the response.

use vstd::prelude::*;
use vstd::string::StringExecFns;
use crate::context::{clone_strings, texts_of};
use crate::manager::ContextManager;
use crate::session::{verification_id_text, SessionModel, SESSION_TTL_SECONDS};
use crate::text::{contains_text, has_substring, lowercase_of, same_text, to_lowercase};

verus! {

/// The context document that came with a request.
#[derive(Debug, PartialEq)]
pub struct RequestContext {
    /// The document as text.
    pub text: String,
    /// The document's task identifier, where it has one that is a text.
    pub task_id: Option<String>,
}

/// A request for approval of an action.
#[derive(Debug, PartialEq)]
pub struct VerificationRequest {
    pub action: String,
    pub reason: String,
    pub context: Option<RequestContext>,
    pub buttons: Option<Vec<String>>,
    /// Accepted, and never consulted: every request is put before the human.
    pub session_id: Option<String>,
}

/// The answer to a request for approval.
#[derive(Debug, PartialEq)]
pub struct VerificationResponse {
    pub status: String,
    pub verification_id: String,
    pub message: Option<String>,
}

/// How a request for approval ended.
#[derive(Debug, Clone, Copy, PartialEq, Eq, Structural)]
pub enum VerificationStatus {
    Rejected,
    Approved,
    ApprovedSession,
    Cancelled,
}

/// What is put before the human.
#[derive(Debug, PartialEq)]
pub struct Prompt {
    pub action: String,
    pub reason: String,
    pub context: String,
    pub buttons: Vec<String>,
    pub task_id: String,
}

/// The word that a response carries for a status.
pub open spec fn status_text(status: VerificationStatus) -> Seq<char> {
    match status {
        VerificationStatus::Rejected => "rejected"@,
        VerificationStatus::Approved => "approved"@,
        VerificationStatus::ApprovedSession => "approved_session"@,
        VerificationStatus::Cancelled => "cancelled"@,
    }
}

impl VerificationStatus {
    /// The word that a response carries for this status.
    pub fn as_str(&self) -> (word: &'static str)
        ensures
            word@ == status_text(*self),
    {
        match self {
            VerificationStatus::Rejected => "rejected",
            VerificationStatus::Approved => "approved",
            VerificationStatus::ApprovedSession => "approved_session",
            VerificationStatus::Cancelled => "cancelled",
        }
    }
}

/// The buttons of a prompt whose request names none.
pub open spec fn default_button_texts() -> Seq<Seq<char>> {
    seq!["Reject"@, "Approve Once"@, "Approve Session"@]
}

/// The buttons of a prompt whose request names none.
pub fn default_buttons() -> (buttons: Vec<String>)
    ensures
        texts_of(buttons@) == default_button_texts(),
{
    let mut buttons: Vec<String> = Vec::new();
    buttons.push(String::from_str("Reject"));
    buttons.push(String::from_str("Approve Once"));
    buttons.push(String::from_str("Approve Session"));
    buttons
}

/// The context text of a prompt: that of the request, or an empty document.
pub open spec fn prompt_context(request: VerificationRequest) -> Seq<char> {
    match request.context {
        Some(context) => context.text@,
        None => "{}"@,
    }
}

/// The buttons of a prompt: those of the request, or the default ones.
pub open spec fn prompt_buttons(request: VerificationRequest) -> Seq<Seq<char>> {
    match request.buttons {
        Some(buttons) => texts_of(buttons@),
        None => default_button_texts(),
    }
}

/// The task identifier of a prompt: that of the request's context, or a
/// fixed one where the request has none.
pub open spec fn prompt_task_id(request: VerificationRequest) -> Seq<char> {
    match request.context {
        Some(RequestContext { task_id: Some(task_id), .. }) => task_id@,
        _ => "CHASE-TASK"@,
    }
}

/// Builds the prompt for a request. The request's session id plays no part:
/// the prompt is built, and the human is asked, whatever it is.
pub fn prepare_prompt(request: &VerificationRequest) -> (prompt: Prompt)
    ensures
        prompt.action@ == request.action@,
        prompt.reason@ == request.reason@,
        prompt.context@ == prompt_context(*request),
        texts_of(prompt.buttons@) == prompt_buttons(*request),
        prompt.task_id@ == prompt_task_id(*request),
{
    let context = match &request.context {
        Some(context) => context.text.clone(),
        None => String::from_str("{}"),
    };
    let buttons = match &request.buttons {
        Some(buttons) => clone_strings(buttons),
        None => default_buttons(),
    };
    let task_id = match &request.context {
        Some(context) => match &context.task_id {
            Some(task_id) => task_id.clone(),
            None => String::from_str("CHASE-TASK"),
        },
        None => String::from_str("CHASE-TASK"),
    };
    Prompt {
        action: request.action.clone(),
        reason: request.reason.clone(),
        context,
        buttons,
        task_id,
    }
}

/// The status that a button stands for, by its label in lower case: a label
/// that holds "session" approves a session, one that holds "approve"
/// approves once, and any other rejects.
pub open spec fn label_status(lowered: Seq<char>) -> VerificationStatus {
    if has_substring(lowered, "session"@) {
        VerificationStatus::ApprovedSession
    } else if has_substring(lowered, "approve"@) {
        VerificationStatus::Approved
    } else {
        VerificationStatus::Rejected
    }
}

/// The status of a selection: that of the chosen button, or cancelled where
/// the selection names no button.
pub open spec fn selection_status(buttons: Seq<Seq<char>>, selected: int) -> VerificationStatus {
    if 0 <= selected < buttons.len() {
        label_status(lowercase_of(buttons[selected]))
    } else {
        VerificationStatus::Cancelled
    }
}

/// Decides `label_status` for a label that is already in lower case.
pub fn status_of_lowered(lowered: &str) -> (status: VerificationStatus)
    ensures
        status == label_status(lowered@),
{
    if contains_text(lowered, "session") {
        VerificationStatus::ApprovedSession
    } else if contains_text(lowered, "approve") {
        VerificationStatus::Approved
    } else {
        VerificationStatus::Rejected
    }
}

/// The status that the button with this label stands for.
pub fn status_of_label(label: &str) -> (status: VerificationStatus)
    ensures
        status == label_status(lowercase_of(label@)),
{
    let lowered = to_lowercase(label);
    status_of_lowered(lowered.as_str())
}

/// The status of a selection among `buttons`.
pub fn status_of_selection(buttons: &Vec<String>, selected: usize) -> (status: VerificationStatus)
    ensures
        status == selection_status(texts_of(buttons@), selected as int),
{
    if selected < buttons.len() {
        status_of_label(buttons[selected].as_str())
    } else {
        VerificationStatus::Cancelled
    }
}

/// Concludes a request once the human has answered: `selected` is the
/// position of the chosen button among `buttons` (any other number where
/// none was chosen or the prompt failed), `message` what the prompt reported,
/// and `now` the current second. The response carries a verification id
/// that differs from every id issued before. Where the selection approves a
/// session, a session with an empty scope is minted under that id, to end
/// one hour later: it is one more session, and every session held before is
/// held as it was. Otherwise the sessions stay as they are. The documents
/// and the store are not touched.
pub fn conclude(
    manager: &mut ContextManager,
    buttons: &Vec<String>,
    selected: usize,
    message: Option<String>,
    now: i64,
) -> (response: VerificationResponse)
    requires
        old(manager).wf(),
        old(manager).serial() < u64::MAX,
        now + SESSION_TTL_SECONDS <= i64::MAX,
    ensures
        final(manager).wf(),
        response.status@ == status_text(selection_status(texts_of(buttons@), selected as int)),
        response.verification_id@ == verification_id_text(now as int, old(manager).serial()),
        !old(manager).issued().contains(response.verification_id@),
        !old(manager).sessions().contains_key(response.verification_id@),
        final(manager).serial() == old(manager).serial() + 1,
        response.message == message,
        final(manager).sessions() == if selection_status(texts_of(buttons@), selected as int)
            == VerificationStatus::ApprovedSession {
            old(manager).sessions().insert(
                response.verification_id@,
                SessionModel {
                    expires_at: now + SESSION_TTL_SECONDS,
                    scope: Seq::<Seq<char>>::empty(),
                },
            )
        } else {
            old(manager).sessions()
        },
        final(manager)@ == old(manager)@,
        final(manager).persisted() == old(manager).persisted(),
        final(manager).location() == old(manager).location(),
{
    let status = status_of_selection(buttons, selected);
    let id = match status {
        VerificationStatus::ApprovedSession => {
            let scope: Vec<String> = Vec::new();
            assert(texts_of(scope@) =~= Seq::<Seq<char>>::empty());
            manager.create_session(scope, now)
        },
        _ => manager.issue_id(now),
    };
    VerificationResponse { status: String::from_str(status.as_str()), verification_id: id, message }
}

/// The button at position `at` is the first of `buttons` with the label
/// `label`.
pub open spec fn is_first_labelled(buttons: Seq<Seq<char>>, label: Seq<char>, at: int) -> bool {
    &&& 0 <= at < buttons.len()
    &&& buttons[at] == label
    &&& forall|j: int| 0 <= j < at ==> #[trigger] buttons[j] != label
}

/// What a prompt reports when the button with this label was chosen.
pub open spec fn selected_message(label: Seq<char>) -> Seq<char> {
    "User selected '"@ + label + "' via ChaseAI"@
}

/// What a prompt reports when its answer names none of its buttons.
pub open spec fn mismatch_message() -> Seq<char> {
    "Verification cancelled or button mismatch"@
}

/// What a prompt reports when it gave no answer.
pub open spec fn failed_message() -> Seq<char> {
    "Verification cancelled or failed"@
}

/// `selected` and `message` are the result of a prompt with these buttons
/// that answered with this label, or with nothing.
pub open spec fn is_selection(
    buttons: Seq<Seq<char>>,
    answer: Option<Seq<char>>,
    selected: int,
    message: Seq<char>,
) -> bool {
    match answer {
        Some(label) => if exists|at: int| is_first_labelled(buttons, label, at) {
            is_first_labelled(buttons, label, selected) && message == selected_message(label)
        } else {
            selected == buttons.len() && message == mismatch_message()
        },
        None => selected == buttons.len() && message == failed_message(),
    }
}

/// The result of a prompt, from the label that it answered with, or from
/// nothing where it gave no answer: the position of the first button with
/// that label and a message that names it, or, where there is no such
/// button or no answer, the number of buttons, which is no position, and a
/// message that says so.
pub fn selection_from_answer(buttons: &Vec<String>, answer: Option<&str>) -> (result: (
    usize,
    Option<String>,
))
    ensures
        result.1 matches Some(message) && is_selection(
            texts_of(buttons@),
            match answer {
                Some(label) => Some(label@),
                None => None,
            },
            result.0 as int,
            message@,
        ),
{
    match answer {
        None => (buttons.len(), Some(String::from_str("Verification cancelled or failed"))),
        Some(label) => {
            let mut i: usize = 0;
            while i < buttons.len()
                invariant
                    answer == Some(label),
                    i <= buttons@.len(),
                    forall|j: int| 0 <= j < i ==> #[trigger] texts_of(buttons@)[j] != label@,
                decreases buttons@.len() - i,
            {
                if same_text(buttons[i].as_str(), label) {
                    let mut message = String::from_str("User selected '");
                    message.append(label);
                    message.append("' via ChaseAI");
                    assert(is_first_labelled(texts_of(buttons@), label@, i as int));
                    return (i, Some(message));
                }
                i += 1;
            }
            (buttons.len(), Some(String::from_str("Verification cancelled or button mismatch")))
        },
    }
}

} // verus!
