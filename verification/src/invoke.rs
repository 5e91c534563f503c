//! The server's checks before a method invocation is dispatched, and the reply
//! that goes back to the client.
use vstd::prelude::*;
use crate::nooid::NooID;
use crate::value::CborValue;
use crate::client_messages::InvokeIDType;
use crate::component_list::ServerComponentList;
use crate::server_communication::{ExceptionCodes, MethodException, MessageMethodReply};

verus! {

/// The component a method is invoked on.
#[derive(Debug, Clone, Copy, PartialEq, Eq, Structural)]
pub enum InvokeObj {
    Document,
    Entity(NooID),
    Table(NooID),
    Plot(NooID),
}

/// Whether a component's list of methods holds a method.
pub fn find_method_in_state(method: &NooID, state: &Option<Vec<NooID>>) -> (r: bool)
    ensures
        r == (state is Some && state->Some_0@.contains(*method)),
{
    match state {
        None => false,
        Some(x) => {
            let mut i: usize = 0;
            while i < x.len()
                invariant
                    i <= x@.len(),
                    state is Some,
                    state->Some_0@ == x@,
                    forall|j: int| 0 <= j < i ==> x@[j] != *method,
                decreases x.len() - i,
            {
                if x[i] == *method {
                    assert(x@[i as int] == *method);
                    assert(x@.contains(*method));
                    return true;
                }
                i = i + 1;
            }
            false
        },
    }
}

/// The component an invocation names: the document when it names none, else
/// the named entity, table or plot if it is live.
pub open spec fn spec_resolve_context<E, T, P>(
    context: Option<InvokeIDType>,
    entities: Map<NooID, E>,
    tables: Map<NooID, T>,
    plots: Map<NooID, P>,
) -> Option<InvokeObj> {
    match context {
        None => Some(InvokeObj::Document),
        Some(InvokeIDType::Entity(id)) => if entities.contains_key(id) {
            Some(InvokeObj::Entity(id))
        } else {
            None
        },
        Some(InvokeIDType::Table(id)) => if tables.contains_key(id) {
            Some(InvokeObj::Table(id))
        } else {
            None
        },
        Some(InvokeIDType::Plot(id)) => if plots.contains_key(id) {
            Some(InvokeObj::Plot(id))
        } else {
            None
        },
    }
}

/// The component an invocation names, if it is the document or a live component.
pub fn resolve_context<E, T, P>(
    context: &Option<InvokeIDType>,
    entities: &ServerComponentList<E>,
    tables: &ServerComponentList<T>,
    plots: &ServerComponentList<P>,
) -> (r: Option<InvokeObj>)
    requires
        entities.wf(),
        tables.wf(),
        plots.wf(),
    ensures
        r == spec_resolve_context(*context, entities.model().items, tables.model().items, plots.model().items),
{
    match context {
        None => Some(InvokeObj::Document),
        Some(InvokeIDType::Entity(id)) => match entities.resolve(*id) {
            Some(x) => Some(InvokeObj::Entity(x)),
            None => None,
        },
        Some(InvokeIDType::Table(id)) => match tables.resolve(*id) {
            Some(x) => Some(InvokeObj::Table(x)),
            None => None,
        },
        Some(InvokeIDType::Plot(id)) => match plots.resolve(*id) {
            Some(x) => Some(InvokeObj::Plot(x)),
            None => None,
        },
    }
}

/// Check an invocation: the method must be live, the target must be the
/// document or a live component, and the target must list the method.
/// `target_methods` is the list of methods of the resolved target.
pub fn check_invoke<M>(
    method: NooID,
    methods: &ServerComponentList<M>,
    target: Option<InvokeObj>,
    target_methods: &Option<Vec<NooID>>,
) -> (r: Result<InvokeObj, MethodException>)
    requires
        methods.wf(),
    ensures
        match r {
            Ok(t) => {
                &&& methods.model().items.contains_key(method)
                &&& target == Some(t)
                &&& target_methods is Some && target_methods->Some_0@.contains(method)
            },
            Err(e) => {
                &&& e.code == ExceptionCodes::MethodNotFound.spec_code()
                &&& e.message is None
                &&& e.data is None
                &&& !(methods.model().items.contains_key(method) && target is Some && target_methods is Some && target_methods->Some_0@.contains(method))
            },
        },
{
    let not_found = MethodException { code: ExceptionCodes::MethodNotFound.code(), message: None, data: None };
    if methods.resolve(method).is_none() {
        return Err(not_found);
    }
    let t = match target {
        Some(t) => t,
        None => return Err(not_found),
    };
    if !find_method_in_state(&method, target_methods) {
        return Err(not_found);
    }
    Ok(t)
}

/// The reply to an invocation that asked for one: the result, or the exception.
pub fn method_reply(invoke_id: Option<String>, result: Result<Option<CborValue>, MethodException>) -> (r: Option<MessageMethodReply>)
    ensures
        match invoke_id {
            None => r is None,
            Some(id) => r matches Some(reply) && reply.invoke_id == id && match result {
                Ok(v) => reply.result == v && reply.method_exception is None,
                Err(e) => reply.result is None && reply.method_exception == Some(e),
            },
        },
{
    match invoke_id {
        None => None,
        Some(id) => match result {
            Ok(v) => Some(MessageMethodReply { invoke_id: id, result: v, method_exception: None }),
            Err(e) => Some(MessageMethodReply { invoke_id: id, result: None, method_exception: Some(e) }),
        },
    }
}

} // verus!
