//! Whether a handler runs on an event, and with what: a handler names the
//! event type it takes and the context items it needs, and it is called
//! only when the event is one of that type and every item is present.
use vstd::prelude::*;

use crate::cmd::{select_cmd_event, FromEventCmd};
use crate::context::{Context, FromContext};
use crate::event::{Event, FromEvent};

verus! {

/// The arguments of a handler that takes only an event.
pub fn event_args<E: FromEvent>(event: Event) -> (r: Option<E>)
    ensures
        E::from_event_rel(event, r),
{
    E::from_event(event)
}

/// The arguments of a handler that takes an event and one context item.
pub fn event_args1<E: FromEvent, A0: FromContext>(event: Event, ctx: &Context) -> (r: Option<(E, A0)>)
    ensures
        r matches Some((e, a0)) ==> E::from_event_rel(event, Some(e)) && A0::from_ctx_rel(
            *ctx,
            Some(a0),
        ),
        r is None ==> E::from_event_rel(event, None) || A0::from_ctx_rel(*ctx, None),
{
    let e = match E::from_event(event) {
        Some(e) => e,
        None => return None,
    };
    let a0 = match A0::from_ctx(ctx) {
        Some(a) => a,
        None => return None,
    };
    Some((e, a0))
}

/// The arguments of a handler that takes an event and two context items.
pub fn event_args2<E: FromEvent, A0: FromContext, A1: FromContext>(event: Event, ctx: &Context) -> (r:
    Option<(E, A0, A1)>)
    ensures
        r matches Some((e, a0, a1)) ==> {
            &&& E::from_event_rel(event, Some(e))
            &&& A0::from_ctx_rel(*ctx, Some(a0))
            &&& A1::from_ctx_rel(*ctx, Some(a1))
        },
        r is None ==> E::from_event_rel(event, None) || A0::from_ctx_rel(*ctx, None)
            || A1::from_ctx_rel(*ctx, None),
{
    let e = match E::from_event(event) {
        Some(e) => e,
        None => return None,
    };
    let a0 = match A0::from_ctx(ctx) {
        Some(a) => a,
        None => return None,
    };
    let a1 = match A1::from_ctx(ctx) {
        Some(a) => a,
        None => return None,
    };
    Some((e, a0, a1))
}

/// The arguments of a handler registered for command `name` that takes the
/// command event and one context item: the event must be that command,
/// with arguments of the handler's type.
pub fn cmd_args1<E: FromEventCmd, A0: FromContext>(name: &str, event: Event, ctx: &Context) -> (r:
    Option<(E, A0)>)
    ensures
        r matches Some((e, a0)) ==> {
            &&& E::from_event_rel(event, Some(e))
            &&& e.spec_cmd() == name@
            &&& A0::from_ctx_rel(*ctx, Some(a0))
        },
        r is None ==> {
            ||| E::from_event_rel(event, None)
            ||| exists|y: E| E::from_event_rel(event, Some(y)) && y.spec_cmd() != name@
            ||| A0::from_ctx_rel(*ctx, None)
        },
{
    let e = match select_cmd_event::<E>(name, event) {
        Some(e) => e,
        None => return None,
    };
    let a0 = match A0::from_ctx(ctx) {
        Some(a) => a,
        None => return None,
    };
    Some((e, a0))
}

/// The arguments of a handler registered for command `name` that takes the
/// command event and two context items.
pub fn cmd_args2<E: FromEventCmd, A0: FromContext, A1: FromContext>(
    name: &str,
    event: Event,
    ctx: &Context,
) -> (r: Option<(E, A0, A1)>)
    ensures
        r matches Some((e, a0, a1)) ==> {
            &&& E::from_event_rel(event, Some(e))
            &&& e.spec_cmd() == name@
            &&& A0::from_ctx_rel(*ctx, Some(a0))
            &&& A1::from_ctx_rel(*ctx, Some(a1))
        },
        r is None ==> {
            ||| E::from_event_rel(event, None)
            ||| exists|y: E| E::from_event_rel(event, Some(y)) && y.spec_cmd() != name@
            ||| A0::from_ctx_rel(*ctx, None)
            ||| A1::from_ctx_rel(*ctx, None)
        },
{
    let e = match select_cmd_event::<E>(name, event) {
        Some(e) => e,
        None => return None,
    };
    let a0 = match A0::from_ctx(ctx) {
        Some(a) => a,
        None => return None,
    };
    let a1 = match A1::from_ctx(ctx) {
        Some(a) => a,
        None => return None,
    };
    Some((e, a0, a1))
}

} // verus!
