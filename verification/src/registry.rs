//! Actors that were looked up by name.

use ractor::ActorCell;
use vstd::prelude::*;

verus! {

/// `ractor::ActorCell`: a handle to a running actor, carried through unread.
#[verifier::external_type_specification]
#[verifier::external_body]
pub struct ExActorCell(ActorCell);

/// An actor and the name under which it was found. Only [`where_is`] makes
/// one.
#[derive(Debug)]
pub struct RegisteredActor {
    name: String,
    actor: ActorCell,
}

impl RegisteredActor {
    /// The name under which the actor was found.
    pub closed spec fn found_under(self) -> Seq<char> {
        self.name@
    }

    /// The actor that was found.
    pub closed spec fn handle(self) -> ActorCell {
        self.actor
    }

    /// The name under which the actor was found.
    pub fn name(&self) -> (r: &str)
        ensures
            r@ == self.found_under(),
    {
        self.name.as_str()
    }

    /// Gives up the actor that was found.
    pub fn into_actor(self) -> (r: ActorCell)
        ensures
            r == self.handle(),
    {
        self.actor
    }
}

/// `ractor::registry::where_is` looks up the actor that is registered under
/// `name`. An actor that it gives was registered under that name. Whether
/// there is one is up to the process, so nothing is claimed of that.
#[verifier::external_body]
pub(crate) fn where_is(name: &str) -> (r: Option<RegisteredActor>)
    ensures
        r matches Some(found) ==> found.found_under() == name@,
{
    match ractor::registry::where_is(name) {
        Some(actor) => Some(RegisteredActor { name: name.to_string(), actor }),
        None => None,
    }
}

/// The name and the actor that a lookup gave are the ones that are handed out
/// later.
proof fn what_was_found_is_handed_out(found: RegisteredActor, name: &str, actor: ActorCell)
    requires
        call_ensures(RegisteredActor::name, (&found,), name),
        call_ensures(RegisteredActor::into_actor, (found,), actor),
    ensures
        name@ == found.name@,
        actor == found.actor,
{
}

} // verus!
