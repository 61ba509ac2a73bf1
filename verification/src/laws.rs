//! Laws of the library: what holds of its operations on every input, stated
//! over the models that the operations' own contracts use.

use vstd::prelude::*;
use crate::context::{
    action_verdicts, is_action_name, is_valid, lemma_valid_is_acceptable, validation_outcome,
    ContextModel, ValidationError,
};
use crate::manager::{after_delete, after_set, port_refusal, ContextManager};
use crate::network::{
    distinct_ports, is_bound, is_first_binding, is_wanted, PortBinding,
};
use crate::pool::reconciled;
use crate::server::{state_after_stop, ServerState};
use crate::session::{
    issued_below, lemma_id_is_fresh, lemma_ids_differ, session_valid, verification_id_text,
    SessionModel, SESSION_TTL_SECONDS,
};
use crate::storage::WriteOutcome;
use crate::text::is_blank;

verus! {

/// Validation succeeds on exactly the valid documents: those whose system,
/// role and base instruction are not blank, which allow at least one action,
/// and all of whose actions are action names: a lower-case letter, then
/// lower-case letters, digits and hyphens. A document that breaks any one of
/// these rules is refused.
pub proof fn law_validation(c: ContextModel, outcome: Result<(), ValidationError>)
    requires
        validation_outcome(c, action_verdicts(c.allowed_actions), outcome),
    ensures
        outcome is Ok <==> is_valid(c),
        is_blank(c.system) ==> outcome is Err,
        is_blank(c.role) ==> outcome is Err,
        is_blank(c.base_instruction) ==> outcome is Err,
        c.allowed_actions.len() == 0 ==> outcome is Err,
        (exists|i: int|
            0 <= i < c.allowed_actions.len() && !is_action_name(#[trigger] c.allowed_actions[i]))
            ==> outcome is Err,
{
    lemma_valid_is_acceptable(c);
}

/// The configuration refuses a document for a port exactly when no enabled
/// binding names the port: the port is absent from the bindings, or what
/// binds it is disabled. Where no port is bound twice, a bound port is
/// refused exactly when its one binding is disabled.
pub proof fn law_port_refusal(bindings: Seq<PortBinding>, port: u16)
    ensures
        port_refusal(bindings, port) is Some <==> !is_wanted(bindings, port),
        port_refusal(bindings, port) is Some ==> port_refusal(bindings, port)->0.is_configuration(),
        distinct_ports(bindings) && is_bound(bindings, port) ==> (port_refusal(bindings, port)
            is Some <==> exists|at: int|
            is_first_binding(bindings, port, at) && !bindings[at].enabled),
{
    if !is_wanted(bindings, port) && distinct_ports(bindings) && is_bound(bindings, port) {
        let j = choose|j: int| 0 <= j < bindings.len() && (#[trigger] bindings[j]).port == port;
        assert(is_first_binding(bindings, port, j));
    }
}

/// Where some enabled binding names the port, the document is valid and
/// the store was written, `set_context` leaves the port bound to that
/// document; and whatever happens, no other port is touched.
pub proof fn law_set_then_get(
    before: Map<u16, ContextModel>,
    bindings: Seq<PortBinding>,
    port: u16,
    context: ContextModel,
    outcome: WriteOutcome,
    other: u16,
)
    ensures
        is_wanted(bindings, port) && is_valid(context) && outcome == WriteOutcome::Written
            ==> after_set(before, bindings, port, context, outcome) == before.insert(
            port,
            context,
        ),
        port_refusal(bindings, port) is None && is_valid(context) && outcome
            == WriteOutcome::Written ==> after_set(
            before,
            bindings,
            port,
            context,
            outcome,
        ).contains_key(port) && after_set(before, bindings, port, context, outcome)[port]
            == context,
        other != port ==> (after_set(before, bindings, port, context, outcome).contains_key(other)
            <==> before.contains_key(other)),
        other != port && before.contains_key(other) ==> after_set(
            before,
            bindings,
            port,
            context,
            outcome,
        )[other] == before[other],
{
    law_port_refusal(bindings, port);
}

/// After a document was deleted, its port has none, and a fresh manager
/// over the same store finds none either.
pub proof fn law_delete_then_reload(
    before: Map<u16, ContextModel>,
    after: ContextManager,
    fresh: ContextManager,
    port: u16,
)
    requires
        after.wf(),
        after@ == after_delete(before, port, WriteOutcome::Written),
        fresh@ == after.persisted(),
    ensures
        !after@.contains_key(port),
        !fresh@.contains_key(port),
{
    after.lemma_persisted();
}

/// The number of enabled bindings among `bindings`.
pub open spec fn enabled_count(bindings: Seq<PortBinding>) -> nat
    decreases bindings.len(),
{
    if bindings.len() == 0 {
        0
    } else {
        enabled_count(bindings.drop_last()) + if bindings.last().enabled {
            1nat
        } else {
            0nat
        }
    }
}

/// The ports that the bindings want.
pub open spec fn wanted_ports(bindings: Seq<PortBinding>) -> Set<u16> {
    Set::new(|port: u16| is_wanted(bindings, port))
}

/// Where no port is bound twice, there are as many wanted ports as enabled
/// bindings.
pub proof fn lemma_wanted_ports(bindings: Seq<PortBinding>)
    requires
        distinct_ports(bindings),
    ensures
        wanted_ports(bindings).finite(),
        wanted_ports(bindings).len() == enabled_count(bindings),
    decreases bindings.len(),
{
    if bindings.len() == 0 {
        assert(wanted_ports(bindings) =~= Set::<u16>::empty());
    } else {
        let init = bindings.drop_last();
        let last = bindings.last();
        lemma_wanted_ports(init);
        assert forall|port: u16| is_wanted(bindings, port) <==> is_wanted(init, port) || (
        last.enabled && last.port == port) by {
            if is_wanted(bindings, port) {
                let i = choose|i: int|
                    0 <= i < bindings.len() && (#[trigger] bindings[i]).port == port
                        && bindings[i].enabled;
                if i < init.len() {
                    assert(init[i] == bindings[i]);
                }
            }
        }
        if last.enabled {
            assert(wanted_ports(bindings) =~= wanted_ports(init).insert(last.port));
        } else {
            assert(wanted_ports(bindings) =~= wanted_ports(init));
        }
    }
}

/// Where every wanted port can be bound, a reconciliation leaves exactly the
/// wanted ports running, whatever ran before; and where no port is bound
/// twice, that is one server for each enabled binding. So a pool reconciled
/// with N enabled bindings has N servers, with one of them disabled it has
/// N - 1, and with that one enabled again it has N.
pub proof fn law_reconciled_size(before: Set<u16>, bindings: Seq<PortBinding>)
    requires
        distinct_ports(bindings),
    ensures
        reconciled(before, bindings, Set::<u16>::empty()) == wanted_ports(bindings),
        reconciled(before, bindings, Set::<u16>::empty()).finite(),
        reconciled(before, bindings, Set::<u16>::empty()).len() == enabled_count(bindings),
{
    lemma_wanted_ports(bindings);
}

/// Turning the enabled flag of one binding changes the number of enabled
/// bindings by one.
pub proof fn law_toggle_changes_count(bindings: Seq<PortBinding>, at: int, toggled: PortBinding)
    requires
        0 <= at < bindings.len(),
        toggled.enabled != bindings[at].enabled,
    ensures
        bindings[at].enabled ==> enabled_count(bindings.update(at, toggled)) + 1 == enabled_count(
            bindings,
        ),
        !bindings[at].enabled ==> enabled_count(bindings.update(at, toggled)) == enabled_count(
            bindings,
        ) + 1,
    decreases bindings.len(),
{
    let changed = bindings.update(at, toggled);
    if at == bindings.len() - 1 {
        assert(changed.drop_last() == bindings.drop_last());
    } else {
        assert(changed.drop_last() == bindings.drop_last().update(at, toggled));
        law_toggle_changes_count(bindings.drop_last(), at, toggled);
    }
}

/// No two verification ids are the same: ids with different serial numbers
/// differ, whatever their seconds are. So a session that is minted later
/// does not replace one that was minted before, even within one second:
/// both are held, each as it was minted.
pub proof fn law_ids_are_fresh(
    table: Map<Seq<char>, SessionModel>,
    now: int,
    serial: nat,
    first: SessionModel,
    later_now: int,
    later_serial: nat,
    second: SessionModel,
)
    requires
        serial < later_serial,
    ensures
        verification_id_text(now, serial) != verification_id_text(later_now, later_serial),
        !issued_below(verification_id_text(later_now, later_serial), later_serial),
        ({
            let both = table.insert(verification_id_text(now, serial), first).insert(
                verification_id_text(later_now, later_serial),
                second,
            );
            &&& both.contains_key(verification_id_text(now, serial))
            &&& both[verification_id_text(now, serial)] == first
            &&& both[verification_id_text(later_now, later_serial)] == second
        }),
{
    lemma_ids_differ(now, serial, later_now, later_serial);
    lemma_id_is_fresh(later_now, later_serial);
}

/// A session authorises only while it lasts: an id that the table does not
/// hold never authorises, and a session does not authorise from the second
/// at which it ends. A session minted at the second `now` authorises from
/// then until one hour later.
pub proof fn law_session_expiry(
    table: Map<Seq<char>, SessionModel>,
    id: Seq<char>,
    scope: Seq<Seq<char>>,
    now: int,
    at: int,
)
    ensures
        !table.contains_key(id) ==> !session_valid(table, id, at),
        table.contains_key(id) && table[id].expires_at <= at ==> !session_valid(table, id, at),
        session_valid(
            table.insert(id, SessionModel { expires_at: now + SESSION_TTL_SECONDS, scope }),
            id,
            at,
        ) <==> at < now + 3600,
{
}

/// Stopping a server a second time changes nothing: it is as the first stop
/// left it, and it does not run.
pub proof fn law_stop_is_idempotent(state: ServerState)
    ensures
        state_after_stop(state_after_stop(state)) == state_after_stop(state),
        state_after_stop(state) != ServerState::Running,
{
}

} // verus!
