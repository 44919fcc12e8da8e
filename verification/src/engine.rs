//! Negotiation engine: the per-request state machine. The cryptographic
//! engine that steps a security context is an outside capability; each of
//! its reports arrives here as an event, and `process_request` is verified
//! to do the right thing to the store and to the request's authentication
//! result for every possible event.

use crate::store::ContextStore;
use vstd::prelude::*;

verus! {

/// The identity a completed handshake exposes to the rest of the request's
/// handling. Created unauthenticated at request start and populated only
/// when the engine reports completion within that request.
#[derive(Clone, Debug)]
pub struct GssapiAuth {
    /// Principal the client authenticated to.
    pub target: Option<String>,
    /// Principal the client authenticated as.
    pub source: Option<String>,
    /// Remaining validity of the established context, in whole seconds.
    pub lifetime_secs: Option<u64>,
    /// Whether the handshake completed during this request.
    pub complete: bool,
}

impl GssapiAuth {
    /// The result of a request in which no handshake completed.
    pub open spec fn unauthenticated_spec() -> GssapiAuth {
        GssapiAuth { target: None, source: None, lifetime_secs: None, complete: false }
    }

    /// Builds the unauthenticated result.
    pub fn unauthenticated() -> (r: GssapiAuth)
        ensures
            r == GssapiAuth::unauthenticated_spec(),
    {
        GssapiAuth { target: None, source: None, lifetime_secs: None, complete: false }
    }
}

impl Default for GssapiAuth {
    /// A fresh request starts unauthenticated.
    fn default() -> (r: Self)
        ensures
            r == GssapiAuth::unauthenticated_spec(),
    {
        GssapiAuth::unauthenticated()
    }
}

/// What the cryptographic engine reported for one step call.
pub enum StepOutcome {
    /// The engine rejected the token: a genuine protocol break.
    Failed,
    /// The context is established; the identity data read back from it and
    /// any final output token for the client.
    Complete {
        source: Option<String>,
        target: Option<String>,
        lifetime_secs: Option<u64>,
        output: Option<Vec<u8>>,
    },
    /// More legs are needed; `output` carries the continuation token.
    Incomplete { output: Option<Vec<u8>> },
}

/// Everything that can befall one inbound request, as seen by the state
/// machine. The context type `V` is the engine's lockable context handle,
/// opaque to the library.
pub enum RequestEvent<V> {
    /// No usable token: the header was absent, the client identifier could
    /// not be resolved, or the token was not valid base64.
    NoToken,
    /// A context is stored for this client but its lock was contended by a
    /// concurrent step; the handshake may continue on a retry.
    Contended { client: String },
    /// The engine stepped the context stored for this client.
    SteppedStored { client: String, outcome: StepOutcome },
    /// No context was stored and no local credential could be acquired, so
    /// no negotiation was attempted.
    NoCredential { client: String },
    /// The engine stepped a freshly created context for this client; the
    /// context is handed over so an unfinished handshake can be stored.
    SteppedFresh { client: String, context: V, outcome: StepOutcome },
}

/// The client identifier an event concerns, if any.
pub open spec fn event_client<V>(e: RequestEvent<V>) -> Option<Seq<char>> {
    match e {
        RequestEvent::NoToken => None,
        RequestEvent::Contended { client } => Some(client@),
        RequestEvent::SteppedStored { client, .. } => Some(client@),
        RequestEvent::NoCredential { client } => Some(client@),
        RequestEvent::SteppedFresh { client, .. } => Some(client@),
    }
}

/// Which events can arise against a given store state: stepping a stored
/// context (or contending for its lock) presupposes the entry, and the
/// fresh-context path presupposes its absence.
pub open spec fn event_precondition<V>(e: RequestEvent<V>, m: Map<Seq<char>, V>) -> bool {
    match e {
        RequestEvent::NoToken => true,
        RequestEvent::Contended { client } => m.contains_key(client@),
        RequestEvent::SteppedStored { client, .. } => m.contains_key(client@),
        RequestEvent::NoCredential { client } => !m.contains_key(client@),
        RequestEvent::SteppedFresh { client, .. } => !m.contains_key(client@),
    }
}

/// Whether the step invoked during the request reported completion.
pub open spec fn event_completed<V>(e: RequestEvent<V>) -> bool {
    match e {
        RequestEvent::SteppedStored { outcome, .. } => outcome is Complete,
        RequestEvent::SteppedFresh { outcome, .. } => outcome is Complete,
        _ => false,
    }
}

/// The store contents after a request that saw event `e` against contents
/// `m`: a stored context is removed exactly on completion or on step
/// failure, a fresh context is stored exactly when its first step left the
/// handshake unfinished, and nothing else changes anything.
pub open spec fn store_after<V>(e: RequestEvent<V>, m: Map<Seq<char>, V>) -> Map<Seq<char>, V> {
    match e {
        RequestEvent::NoToken => m,
        RequestEvent::Contended { .. } => m,
        RequestEvent::NoCredential { .. } => m,
        RequestEvent::SteppedStored { client, outcome } => match outcome {
            StepOutcome::Incomplete { .. } => m,
            _ => m.remove(client@),
        },
        RequestEvent::SteppedFresh { client, context, outcome } => match outcome {
            StepOutcome::Incomplete { .. } => m.insert(client@, context),
            _ => m,
        },
    }
}

/// The continuation bytes an outcome carries for the response phase.
pub open spec fn outcome_output(o: StepOutcome) -> Option<Seq<u8>> {
    match o {
        StepOutcome::Failed => None,
        StepOutcome::Complete { output, .. } => match output {
            Some(b) => Some(b@),
            None => None,
        },
        StepOutcome::Incomplete { output } => match output {
            Some(b) => Some(b@),
            None => None,
        },
    }
}

/// The continuation bytes a request caches for its response phase.
pub open spec fn event_continuation<V>(e: RequestEvent<V>) -> Option<Seq<u8>> {
    match e {
        RequestEvent::SteppedStored { outcome, .. } => outcome_output(outcome),
        RequestEvent::SteppedFresh { outcome, .. } => outcome_output(outcome),
        _ => None,
    }
}

/// The authentication result an outcome yields.
pub open spec fn outcome_auth(o: StepOutcome) -> GssapiAuth {
    match o {
        StepOutcome::Complete { source, target, lifetime_secs, .. } => GssapiAuth {
            target,
            source,
            lifetime_secs,
            complete: true,
        },
        _ => GssapiAuth::unauthenticated_spec(),
    }
}

/// The authentication result a request yields: populated exactly when the
/// step invoked during the request reported completion.
pub open spec fn event_auth<V>(e: RequestEvent<V>) -> GssapiAuth {
    match e {
        RequestEvent::SteppedStored { outcome, .. } => outcome_auth(outcome),
        RequestEvent::SteppedFresh { outcome, .. } => outcome_auth(outcome),
        _ => GssapiAuth::unauthenticated_spec(),
    }
}

/// What one request hands to its response phase: the authentication result
/// for this request and the continuation bytes to cache, if any.
pub struct RequestConclusion {
    /// The per-request authentication result.
    pub auth: GssapiAuth,
    /// Continuation bytes cached exactly once for the response phase.
    pub continuation: Option<Vec<u8>>,
}

/// Concludes one inbound request: applies what the event means to the
/// store, and yields the request's authentication result together with the
/// continuation bytes for the response phase. Every failure degrades to an
/// unauthenticated result; none is fatal.
pub fn process_request<V>(store: &mut ContextStore<V>, event: RequestEvent<V>) -> (c:
    RequestConclusion)
    requires
        event_precondition(event, old(store)@),
    ensures
        final(store)@ == store_after(event, old(store)@),
        c.auth == event_auth(event),
        c.auth.complete <==> event_completed(event),
        match c.continuation {
            Some(b) => event_continuation(event) == Some(b@),
            None => event_continuation(event) is None,
        },
{
    match event {
        RequestEvent::NoToken => RequestConclusion {
            auth: GssapiAuth::unauthenticated(),
            continuation: None,
        },
        RequestEvent::Contended { client: _ } => RequestConclusion {
            auth: GssapiAuth::unauthenticated(),
            continuation: None,
        },
        RequestEvent::NoCredential { client: _ } => RequestConclusion {
            auth: GssapiAuth::unauthenticated(),
            continuation: None,
        },
        RequestEvent::SteppedStored { client, outcome } => match outcome {
            StepOutcome::Failed => {
                store.remove(client.as_str());
                RequestConclusion { auth: GssapiAuth::unauthenticated(), continuation: None }
            },
            StepOutcome::Complete { source, target, lifetime_secs, output } => {
                store.remove(client.as_str());
                RequestConclusion {
                    auth: GssapiAuth { target, source, lifetime_secs, complete: true },
                    continuation: output,
                }
            },
            StepOutcome::Incomplete { output } => RequestConclusion {
                auth: GssapiAuth::unauthenticated(),
                continuation: output,
            },
        },
        RequestEvent::SteppedFresh { client, context, outcome } => match outcome {
            StepOutcome::Failed => RequestConclusion {
                auth: GssapiAuth::unauthenticated(),
                continuation: None,
            },
            StepOutcome::Complete { source, target, lifetime_secs, output } => RequestConclusion {
                auth: GssapiAuth { target, source, lifetime_secs, complete: true },
                continuation: output,
            },
            StepOutcome::Incomplete { output } => {
                store.insert(client, context);
                RequestConclusion {
                    auth: GssapiAuth::unauthenticated(),
                    continuation: output,
                }
            },
        },
    }
}

/// No-token idempotence: a request that carried no usable token leaves the
/// context store exactly as it was.
pub proof fn lemma_no_token_idempotence<V>(m: Map<Seq<char>, V>)
    ensures
        store_after(RequestEvent::<V>::NoToken, m) == m,
{
}

/// Single-context removal discipline: an identifier's stored context
/// disappears in a request exactly when that request stepped the stored
/// context and the step completed or failed; lock contention, fresh
/// negotiations and requests for other identifiers never remove it. (At
/// most one context per identifier at any instant is structural: the store
/// is a map.)
pub proof fn lemma_single_context_removal<V>(
    e: RequestEvent<V>,
    m: Map<Seq<char>, V>,
    id: Seq<char>,
)
    requires
        m.contains_key(id),
    ensures
        !store_after(e, m).contains_key(id) <==> (match e {
            RequestEvent::SteppedStored { client, outcome } => client@ == id && !(outcome
                is Incomplete),
            _ => false,
        }),
{
}

/// Client independence: a request whose event concerns one client never
/// changes whether any other identifier has a stored context, nor which
/// context it is.
pub proof fn lemma_client_independence<V>(
    e: RequestEvent<V>,
    m: Map<Seq<char>, V>,
    other: Seq<char>,
)
    requires
        event_client(e) != Some(other),
    ensures
        store_after(e, m).contains_key(other) == m.contains_key(other),
        m.contains_key(other) ==> store_after(e, m)[other] == m[other],
{
}

} // verus!
