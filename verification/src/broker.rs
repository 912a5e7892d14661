//! The configuration-request broker: a single-slot, in-process
//! publish/subscribe channel. A caller announces "please collect a value
//! for key K"; whichever listener is registered at that moment receives
//! the payload exactly once, and an announcement with no listener is
//! dropped (at-most-once delivery, no buffering).

use vstd::prelude::*;
use crate::strutil::str_eq;

verus! {

/// An event payload describing which configuration value a UI surface
/// should solicit from the user. Fire-and-forget; never persisted.
pub struct ConfigDialogRequest {
    pub key: String,
    pub title: String,
}

/// A registered listener, modeled by the requests it has received, in
/// delivery order.
pub struct Subscriber {
    pub inbox: Vec<ConfigDialogRequest>,
}

/// The broker itself: at most one listener at a time.
pub struct ConfigRequestBroker {
    pub listener: Option<Subscriber>,
}

impl ConfigRequestBroker {
    /// A broker with no listener registered.
    pub fn new() -> (r: ConfigRequestBroker)
        ensures
            r.listener is None,
    {
        ConfigRequestBroker { listener: None }
    }

    /// Register `handler` as the sole active listener, replacing any
    /// previous one.
    pub fn subscribe(&mut self, handler: Subscriber)
        ensures
            final(self).listener == Some(handler),
    {
        self.listener = Some(handler);
    }

    /// Deliver `request` to the registered listener exactly once; with no
    /// listener registered the announcement is dropped and nothing at all
    /// changes.
    pub fn announce(&mut self, request: ConfigDialogRequest)
        ensures
            old(self).listener is None ==> final(self).listener is None,
            (old(self).listener matches Some(s) ==> final(self).listener matches Some(t)
                && t.inbox@ == s.inbox@.push(request)),
    {
        match &mut self.listener {
            Some(s) => {
                s.inbox.push(request);
            },
            None => {},
        }
    }
}

/// Route a menu action tag to the dialog request it solicits: `base-url`
/// asks for the endpoint base URL, `api-key` for the credential, and any
/// other tag is ignored (it is not an error that aborts the caller).
pub fn route_menu_action(action_type: &str) -> (r: Option<ConfigDialogRequest>)
    ensures
        action_type@ == "base-url"@ ==> (r matches Some(d) && d.key@ == "api_base_url"@
            && d.title@ == "Set API Base URL"@),
        action_type@ == "api-key"@ ==> (r matches Some(d) && d.key@ == "api_key"@ && d.title@
            == "Set API Key"@),
        action_type@ != "base-url"@ && action_type@ != "api-key"@ ==> r is None,
{
    proof {
        reveal_strlit("base-url");
        reveal_strlit("api-key");
        assert("base-url"@.len() == 8);
        assert("api-key"@.len() == 7);
        assert("base-url"@ != "api-key"@);
    }
    if str_eq(action_type, "base-url") {
        Some(
            ConfigDialogRequest {
                key: "api_base_url".to_owned(),
                title: "Set API Base URL".to_owned(),
            },
        )
    } else if str_eq(action_type, "api-key") {
        Some(ConfigDialogRequest { key: "api_key".to_owned(), title: "Set API Key".to_owned() })
    } else {
        None
    }
}

} // verus!
