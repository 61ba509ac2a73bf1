//! The instruction document that an agent reads from its port, and the rules
//! a document has to meet before it is accepted.

use vstd::prelude::*;
use vstd::string::StringExecFns;
use crate::text::{blank, is_blank};

verus! {

/// The agent-facing instruction document of one port.
#[derive(Debug, PartialEq)]
pub struct InstructionContext {
    /// System identifier.
    pub system: String,
    /// Agent role.
    pub role: String,
    /// Base instruction text defining agent behaviour.
    pub base_instruction: String,
    /// The action types the agent may take, in order.
    pub allowed_actions: Vec<String>,
    /// Whether actions need a human's approval.
    pub verification_required: bool,
}

/// What an instruction document holds, as mathematical values.
pub struct ContextModel {
    pub system: Seq<char>,
    pub role: Seq<char>,
    pub base_instruction: Seq<char>,
    pub allowed_actions: Seq<Seq<char>>,
    pub verification_required: bool,
}

/// The texts of a list of strings.
pub open spec fn texts_of(items: Seq<String>) -> Seq<Seq<char>> {
    Seq::new(items.len(), |i: int| items[i]@)
}

impl View for InstructionContext {
    type V = ContextModel;

    open spec fn view(&self) -> ContextModel {
        ContextModel {
            system: self.system@,
            role: self.role@,
            base_instruction: self.base_instruction@,
            allowed_actions: texts_of(self.allowed_actions@),
            verification_required: self.verification_required,
        }
    }
}

/// Copies a list of strings.
pub fn clone_strings(items: &Vec<String>) -> (copy: Vec<String>)
    ensures
        copy@ == items@,
{
    let mut copy: Vec<String> = Vec::new();
    let mut i: usize = 0;
    while i < items.len()
        invariant
            i <= items@.len(),
            copy@ == items@.take(i as int),
        decreases items@.len() - i,
    {
        copy.push(items[i].clone());
        i += 1;
    }
    copy
}

impl Clone for InstructionContext {
    fn clone(&self) -> (copy: Self)
        ensures
            copy@ == self@,
            copy.allowed_actions@ == self.allowed_actions@,
    {
        InstructionContext {
            system: self.system.clone(),
            role: self.role.clone(),
            base_instruction: self.base_instruction.clone(),
            allowed_actions: clone_strings(&self.allowed_actions),
            verification_required: self.verification_required,
        }
    }
}

/// Why a document was refused.
#[derive(Debug, PartialEq, Eq)]
pub enum ValidationError {
    /// The system identifier is blank.
    EmptySystem,
    /// The agent role is blank.
    EmptyRole,
    /// The base instruction is blank.
    EmptyInstruction,
    /// No action is allowed.
    EmptyActions,
    /// The named action is not a well-formed action name.
    InvalidAction(String),
}

/// What a refusal says, in words.
pub open spec fn validation_message(error: ValidationError) -> Seq<char> {
    match error {
        ValidationError::EmptySystem => "System identifier cannot be empty"@,
        ValidationError::EmptyRole => "Agent role cannot be empty"@,
        ValidationError::EmptyInstruction => "Base instruction cannot be empty"@,
        ValidationError::EmptyActions => "Allowed actions list cannot be empty"@,
        ValidationError::InvalidAction(name) => "Invalid action name '"@ + name@
            + "': must start with a lowercase letter and contain only lowercase letters, numbers, and hyphens"@,
    }
}

impl ValidationError {
    /// What the refusal says, in words.
    pub fn message(&self) -> (text: String)
        ensures
            text@ == validation_message(*self),
    {
        match self {
            ValidationError::EmptySystem => String::from_str("System identifier cannot be empty"),
            ValidationError::EmptyRole => String::from_str("Agent role cannot be empty"),
            ValidationError::EmptyInstruction => String::from_str(
                "Base instruction cannot be empty",
            ),
            ValidationError::EmptyActions => String::from_str(
                "Allowed actions list cannot be empty",
            ),
            ValidationError::InvalidAction(name) => {
                let mut text = String::from_str("Invalid action name '");
                text.append(name.as_str());
                text.append(
                    "': must start with a lowercase letter and contain only lowercase letters, numbers, and hyphens",
                );
                text
            },
        }
    }
}

/// The pattern of an action name: a lower-case letter, then lower-case
/// letters, digits and hyphens.
pub open spec fn action_pattern() -> Seq<char> {
    "^[a-z][a-z0-9-]*$"@
}

/// `c` is one of the letters `a` to `z`.
pub open spec fn is_lower_letter(c: char) -> bool {
    'a' <= c <= 'z'
}

/// `c` may stand in an action name behind its first letter: a lower-case
/// letter, a digit or a hyphen.
pub open spec fn is_name_char(c: char) -> bool {
    is_lower_letter(c) || '0' <= c <= '9' || c == '-'
}

/// A text is an action name when it is not empty, begins with a lower-case
/// letter and goes on with lower-case letters, digits and hyphens only.
pub open spec fn is_action_name(text: Seq<char>) -> bool {
    &&& text.len() > 0
    &&& is_lower_letter(text[0])
    &&& forall|i: int| 1 <= i < text.len() ==> is_name_char(#[trigger] text[i])
}

/// What the regular-expression engine answers for a pattern and a text:
/// whether the text matches, or nothing where the pattern does not compile.
pub uninterp spec fn regex_match(pattern: Seq<char>, text: Seq<char>) -> Option<bool>;

/// Calls `regex::Regex::new` on `pattern` and, where it compiles,
/// `Regex::is_match` on `text`. The contract gives the answer its name: the
/// engine's verdict depends on the pattern and the text alone. Of one
/// pattern it says more, by the syntax that the engine documents: the
/// pattern of an action name compiles, its two anchors tie a match to the
/// whole text, its first class takes one letter `a` to `z`, and its second
/// class, repeated, takes letters `a` to `z`, digits and hyphens. Nothing
/// here is proved: this is what the library takes from the engine.
#[verifier::external_body]
fn regex_is_match(pattern: &str, text: &str) -> (verdict: Option<bool>)
    ensures
        verdict == regex_match(pattern@, text@),
        pattern@ == action_pattern() ==> verdict == Some(is_action_name(text@)),
{
    match regex::Regex::new(pattern) {
        Ok(compiled) => Some(compiled.is_match(text)),
        Err(_) => None,
    }
}

/// The verdict on each action of a list: whether it is an action name.
pub open spec fn action_verdicts(actions: Seq<Seq<char>>) -> Seq<Option<bool>> {
    Seq::new(actions.len(), |i: int| Some(is_action_name(actions[i])))
}

/// Every verdict of the list is a match.
pub open spec fn all_accepted(verdicts: Seq<Option<bool>>) -> bool {
    forall|i: int| 0 <= i < verdicts.len() ==> #[trigger] verdicts[i] == Some(true)
}

/// The verdict at position `at` is the first that is not a match.
pub open spec fn is_first_rejected(verdicts: Seq<Option<bool>>, at: int) -> bool {
    &&& 0 <= at < verdicts.len()
    &&& verdicts[at] != Some(true)
    &&& forall|j: int| 0 <= j < at ==> #[trigger] verdicts[j] == Some(true)
}

/// A document is acceptable, given the verdicts on its actions: its three
/// texts are not blank, it allows at least one action, and every action is a
/// match.
pub open spec fn acceptable(c: ContextModel, verdicts: Seq<Option<bool>>) -> bool {
    &&& !is_blank(c.system)
    &&& !is_blank(c.role)
    &&& !is_blank(c.base_instruction)
    &&& c.allowed_actions.len() > 0
    &&& all_accepted(verdicts)
}

/// The action that an outcome names as refused, if it names one.
pub open spec fn refused_action(outcome: Result<(), ValidationError>) -> Option<Seq<char>> {
    match outcome {
        Err(ValidationError::InvalidAction(name)) => Some(name@),
        _ => None,
    }
}

/// The outcome of validating a document, given the verdicts on its actions.
/// The rules are tried in a fixed order and the first that is broken is
/// reported; of the actions, the first that is refused.
pub open spec fn validation_outcome(
    c: ContextModel,
    verdicts: Seq<Option<bool>>,
    outcome: Result<(), ValidationError>,
) -> bool {
    if is_blank(c.system) {
        outcome == Err::<(), ValidationError>(ValidationError::EmptySystem)
    } else if is_blank(c.role) {
        outcome == Err::<(), ValidationError>(ValidationError::EmptyRole)
    } else if is_blank(c.base_instruction) {
        outcome == Err::<(), ValidationError>(ValidationError::EmptyInstruction)
    } else if c.allowed_actions.len() == 0 {
        outcome == Err::<(), ValidationError>(ValidationError::EmptyActions)
    } else if all_accepted(verdicts) {
        outcome is Ok
    } else {
        exists|at: int| #[trigger]
            is_first_rejected(verdicts, at) && refused_action(outcome) == Some(
                c.allowed_actions[at],
            )
    }
}

/// A document is valid when its system, its role and its base instruction
/// are not blank, it allows at least one action, and every action it allows
/// is an action name.
pub open spec fn is_valid(c: ContextModel) -> bool {
    &&& !is_blank(c.system)
    &&& !is_blank(c.role)
    &&& !is_blank(c.base_instruction)
    &&& c.allowed_actions.len() > 0
    &&& forall|i: int| 0 <= i < c.allowed_actions.len() ==> is_action_name(
        #[trigger] c.allowed_actions[i],
    )
}

/// A document is valid exactly when it is acceptable under the verdicts on
/// its actions.
pub proof fn lemma_valid_is_acceptable(c: ContextModel)
    ensures
        is_valid(c) <==> acceptable(c, action_verdicts(c.allowed_actions)),
{
    let verdicts = action_verdicts(c.allowed_actions);
    if all_accepted(verdicts) {
        assert forall|i: int| 0 <= i < c.allowed_actions.len() implies is_action_name(
            #[trigger] c.allowed_actions[i],
        ) by {
            assert(verdicts[i] == Some(true));
        }
    }
}

impl InstructionContext {
    /// Builds a document from its parts and validates it.
    pub fn new(
        system: String,
        role: String,
        base_instruction: String,
        allowed_actions: Vec<String>,
        verification_required: bool,
    ) -> (made: Result<Self, ValidationError>)
        ensures
            made is Ok <==> is_valid(
                ContextModel {
                    system: system@,
                    role: role@,
                    base_instruction: base_instruction@,
                    allowed_actions: texts_of(allowed_actions@),
                    verification_required,
                },
            ),
            match made {
                Ok(context) => {
                    &&& context.system == system
                    &&& context.role == role
                    &&& context.base_instruction == base_instruction
                    &&& context.allowed_actions == allowed_actions
                    &&& context.verification_required == verification_required
                },
                Err(e) => validation_outcome(
                    ContextModel {
                        system: system@,
                        role: role@,
                        base_instruction: base_instruction@,
                        allowed_actions: texts_of(allowed_actions@),
                        verification_required,
                    },
                    action_verdicts(texts_of(allowed_actions@)),
                    Err(e),
                ),
            },
    {
        let context = InstructionContext {
            system,
            role,
            base_instruction,
            allowed_actions,
            verification_required,
        };
        match context.validate() {
            Ok(()) => Ok(context),
            Err(e) => Err(e),
        }
    }

    /// Asks the engine for its verdict on each allowed action.
    pub fn verdicts(&self) -> (verdicts: Vec<Option<bool>>)
        ensures
            verdicts@ == action_verdicts(self@.allowed_actions),
    {
        let mut verdicts: Vec<Option<bool>> = Vec::new();
        let mut i: usize = 0;
        while i < self.allowed_actions.len()
            invariant
                i <= self.allowed_actions@.len(),
                verdicts@ == action_verdicts(self@.allowed_actions).take(i as int),
            decreases self.allowed_actions@.len() - i,
        {
            let verdict = regex_is_match("^[a-z][a-z0-9-]*$", self.allowed_actions[i].as_str());
            verdicts.push(verdict);
            i += 1;
        }
        assert(action_verdicts(self@.allowed_actions).take(i as int) == action_verdicts(
            self@.allowed_actions,
        ));
        verdicts
    }

    /// Validates the document under given verdicts on its actions, one for
    /// each action and in the same order.
    pub fn validate_with(&self, verdicts: &Vec<Option<bool>>) -> (outcome: Result<
        (),
        ValidationError,
    >)
        requires
            verdicts@.len() == self.allowed_actions@.len(),
        ensures
            validation_outcome(self@, verdicts@, outcome),
            outcome is Ok <==> acceptable(self@, verdicts@),
    {
        if blank(self.system.as_str()) {
            return Err(ValidationError::EmptySystem);
        }
        if blank(self.role.as_str()) {
            return Err(ValidationError::EmptyRole);
        }
        if blank(self.base_instruction.as_str()) {
            return Err(ValidationError::EmptyInstruction);
        }
        if self.allowed_actions.len() == 0 {
            return Err(ValidationError::EmptyActions);
        }
        let mut i: usize = 0;
        while i < verdicts.len()
            invariant
                verdicts@.len() == self.allowed_actions@.len(),
                !is_blank(self@.system),
                !is_blank(self@.role),
                !is_blank(self@.base_instruction),
                self@.allowed_actions.len() > 0,
                i <= verdicts@.len(),
                forall|j: int| 0 <= j < i ==> #[trigger] verdicts@[j] == Some(true),
            decreases verdicts@.len() - i,
        {
            let accepted = match verdicts[i] {
                Some(matched) => matched,
                None => false,
            };
            if !accepted {
                let name = self.allowed_actions[i].clone();
                proof {
                    assert(is_first_rejected(verdicts@, i as int));
                }
                return Err(ValidationError::InvalidAction(name));
            }
            i += 1;
        }
        Ok(())
    }

    /// Validates the document.
    pub fn validate(&self) -> (outcome: Result<(), ValidationError>)
        ensures
            validation_outcome(self@, action_verdicts(self@.allowed_actions), outcome),
            outcome is Ok <==> is_valid(self@),
    {
        proof {
            lemma_valid_is_acceptable(self@);
        }
        let verdicts = self.verdicts();
        self.validate_with(&verdicts)
    }
}

} // verus!
