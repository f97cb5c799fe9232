use vstd::prelude::*;
use crate::config::{ConnectConfig, ConnectError};
use crate::connector::{is_initial, next, pool_request, Action, Connector, Event, Phase};

verus! {

/// Feeds `es` to `s` in order: the final state and the actions called for.
pub open spec fn run(s: Connector, es: Seq<Event>) -> (Connector, Seq<Action>)
    decreases es.len(),
{
    if es.len() == 0 {
        (s, Seq::empty())
    } else {
        let (s1, a) = next(s, es[0]);
        let (s2, rest) = run(s1, es.drop_first());
        (s2, seq![a] + rest)
    }
}

/// The events of an attempt in which every outside step succeeds.
pub open spec fn connect_events(token: String) -> Seq<Event> {
    seq![Event::Start, Event::CredentialsLoaded, Event::TokenIssued(token), Event::PoolOpened]
}

/// Running two sequences of events one after the other is running their
/// concatenation.
pub proof fn lemma_run_append(s: Connector, es1: Seq<Event>, es2: Seq<Event>)
    ensures
        run(s, es1 + es2).0 == run(run(s, es1).0, es2).0,
        run(s, es1 + es2).1 == run(s, es1).1 + run(run(s, es1).0, es2).1,
    decreases es1.len(),
{
    if es1.len() == 0 {
        assert(es1 + es2 =~= es2);
        assert(run(s, es1).1 + run(s, es2).1 =~= run(s, es2).1);
    } else {
        assert((es1 + es2)[0] == es1[0]);
        assert((es1 + es2).drop_first() =~= es1.drop_first() + es2);
        let s1 = next(s, es1[0]).0;
        let a = next(s, es1[0]).1;
        lemma_run_append(s1, es1.drop_first(), es2);
        let m = run(s1, es1.drop_first());
        let r2 = run(m.0, es2);
        assert(seq![a] + (m.1 + r2.1) =~= (seq![a] + m.1) + r2.1);
    }
}

/// Once an attempt has failed or been closed, no event changes it or calls
/// for anything.
pub proof fn lemma_final_phase_is_inert(s: Connector, es: Seq<Event>)
    requires
        s.phase == Phase::Failed || s.phase == Phase::Closed,
    ensures
        run(s, es).0 == s,
        run(s, es).1.len() == es.len(),
        forall|i: int| 0 <= i < es.len() ==> run(s, es).1[i] is NoOp,
    decreases es.len(),
{
    if es.len() > 0 {
        lemma_final_phase_is_inert(s, es.drop_first());
        let rest = run(s, es.drop_first()).1;
        assert forall|i: int| 0 <= i < es.len() implies run(s, es).1[i] is NoOp by {
            if i > 0 {
                assert(run(s, es).1[i] == rest[i - 1]);
            }
        }
    }
}

/// With valid settings and a non-empty token, an attempt whose outside steps
/// all succeed loads credentials from the configured source, asks for a token scoped to the endpoint and
/// region, opens the pool with that token as the password over a fully
/// verified TLS connection, and ends connected with one open connection.
pub proof fn successful_attempt_connects(s: Connector, c: ConnectConfig, token: String)
    requires
        c.valid(),
        is_initial(s, c),
        token@.len() > 0,
    ensures
        run(s, connect_events(token)).0.config == c,
        run(s, connect_events(token)).0.phase == Phase::Connected,
        run(s, connect_events(token)).0.password == token,
        run(s, connect_events(token)).0.open_connections == 1,
        run(s, connect_events(token)).0.error is None,
        run(s, connect_events(token)).1 == seq![
            Action::LoadCredentials {
                source: c.credentials,
                timeout_secs: c.credential_timeout_secs,
            },
            Action::RequestToken {
                hostname: c.endpoint,
                region: c.region,
                timeout_secs: c.token_timeout_secs,
            },
            Action::OpenPool(pool_request(c, token)),
            Action::Ready,
        ],
        pool_request(c, token).password == token,
        pool_request(c, token).verify_full,
{
    let es = connect_events(token);
    reveal_with_fuel(run, 5);
    assert(es.drop_first() =~= seq![Event::CredentialsLoaded, Event::TokenIssued(token), Event::PoolOpened]);
    assert(es.drop_first().drop_first() =~= seq![Event::TokenIssued(token), Event::PoolOpened]);
    assert(es.drop_first().drop_first().drop_first() =~= seq![Event::PoolOpened]);
    assert(es.drop_first().drop_first().drop_first().drop_first() =~= Seq::<Event>::empty());
    assert(run(s, es).1 =~= seq![
        Action::LoadCredentials {
            source: c.credentials,
            timeout_secs: c.credential_timeout_secs,
        },
        Action::RequestToken {
            hostname: c.endpoint,
            region: c.region,
            timeout_secs: c.token_timeout_secs,
        },
        Action::OpenPool(pool_request(c, token)),
        Action::Ready,
    ]);
}

/// Without credentials an attempt fails with a credential error and never
/// reaches the token service or the database, whatever happens afterwards.
pub proof fn missing_credentials_stay_offline(s: Connector, c: ConnectConfig, rest: Seq<Event>)
    requires
        c.valid(),
        is_initial(s, c),
    ensures
        ({
            let (f, acts) = run(s, seq![Event::Start, Event::CredentialsMissing] + rest);
            &&& f.phase == Phase::Failed
            &&& f.error == Some(ConnectError::CredentialError)
            &&& acts[1] == Action::Fail(ConnectError::CredentialError)
            &&& forall|i: int| 0 <= i < acts.len() ==> !(#[trigger] acts[i]).is_network()
        }),
{
    let pre = seq![Event::Start, Event::CredentialsMissing];
    reveal_with_fuel(run, 3);
    assert(pre.drop_first() =~= seq![Event::CredentialsMissing]);
    assert(pre.drop_first().drop_first() =~= Seq::<Event>::empty());
    lemma_run_append(s, pre, rest);
    let m = run(s, pre);
    lemma_final_phase_is_inert(m.0, rest);
    let acts = run(s, pre + rest).1;
    assert forall|i: int| 0 <= i < acts.len() implies !(#[trigger] acts[i]).is_network() by {
        if i >= 2 {
            assert(acts[i] == run(m.0, rest).1[i - 2]);
        }
    }
}

/// When the token service fails or times out, the attempt fails with a token
/// error and never opens a pool, whatever happens afterwards.
pub proof fn token_failure_never_opens_pool(s: Connector, c: ConnectConfig, rest: Seq<Event>)
    requires
        c.valid(),
        is_initial(s, c),
    ensures
        ({
            let (f, acts) = run(
                s,
                seq![Event::Start, Event::CredentialsLoaded, Event::TokenFailed] + rest,
            );
            &&& f.phase == Phase::Failed
            &&& f.error == Some(ConnectError::TokenGenerationError)
            &&& acts[2] == Action::Fail(ConnectError::TokenGenerationError)
            &&& forall|i: int| 0 <= i < acts.len() ==> !(#[trigger] acts[i] is OpenPool)
        }),
{
    let pre = seq![Event::Start, Event::CredentialsLoaded, Event::TokenFailed];
    reveal_with_fuel(run, 4);
    assert(pre.drop_first() =~= seq![Event::CredentialsLoaded, Event::TokenFailed]);
    assert(pre.drop_first().drop_first() =~= seq![Event::TokenFailed]);
    assert(pre.drop_first().drop_first().drop_first() =~= Seq::<Event>::empty());
    lemma_run_append(s, pre, rest);
    let m = run(s, pre);
    lemma_final_phase_is_inert(m.0, rest);
    let acts = run(s, pre + rest).1;
    assert forall|i: int| 0 <= i < acts.len() implies !(#[trigger] acts[i] is OpenPool) by {
        if i >= 3 {
            assert(acts[i] == run(m.0, rest).1[i - 3]);
        }
    }
}

/// When the database rejects the token, the attempt fails with a connection
/// error and the pool is never handed out, whatever happens afterwards.
pub proof fn rejected_token_never_yields_pool(
    s: Connector,
    c: ConnectConfig,
    token: String,
    rest: Seq<Event>,
)
    requires
        c.valid(),
        is_initial(s, c),
        token@.len() > 0,
    ensures
        ({
            let (f, acts) = run(
                s,
                seq![
                    Event::Start,
                    Event::CredentialsLoaded,
                    Event::TokenIssued(token),
                    Event::PoolRejected,
                ] + rest,
            );
            &&& f.phase == Phase::Failed
            &&& f.error == Some(ConnectError::ConnectionError)
            &&& acts[3] == Action::Fail(ConnectError::ConnectionError)
            &&& forall|i: int| 0 <= i < acts.len() ==> !(#[trigger] acts[i] is Ready)
        }),
{
    let pre = seq![
        Event::Start,
        Event::CredentialsLoaded,
        Event::TokenIssued(token),
        Event::PoolRejected,
    ];
    reveal_with_fuel(run, 5);
    assert(pre.drop_first() =~= seq![
        Event::CredentialsLoaded,
        Event::TokenIssued(token),
        Event::PoolRejected,
    ]);
    assert(pre.drop_first().drop_first() =~= seq![Event::TokenIssued(token), Event::PoolRejected]);
    assert(pre.drop_first().drop_first().drop_first() =~= seq![Event::PoolRejected]);
    assert(pre.drop_first().drop_first().drop_first().drop_first() =~= Seq::<Event>::empty());
    lemma_run_append(s, pre, rest);
    let m = run(s, pre);
    lemma_final_phase_is_inert(m.0, rest);
    let acts = run(s, pre + rest).1;
    assert forall|i: int| 0 <= i < acts.len() implies !(#[trigger] acts[i] is Ready) by {
        if i >= 4 {
            assert(acts[i] == run(m.0, rest).1[i - 4]);
        }
    }
}

/// Two attempts with the same settings and the same outside outcomes end in
/// two equal, separate pools; closing one closes only that one.
pub proof fn attempts_are_independent(
    a: Connector,
    b: Connector,
    c: ConnectConfig,
    token: String,
)
    requires
        c.valid(),
        is_initial(a, c),
        is_initial(b, c),
        token@.len() > 0,
    ensures
        run(a, connect_events(token)) == run(b, connect_events(token)),
        ({
            let pa = run(a, connect_events(token)).0;
            let pb = run(b, connect_events(token)).0;
            let (closed, act) = next(pa, Event::Close);
            &&& act is ClosePool
            &&& closed.phase == Phase::Closed
            &&& closed.open_connections == 0
            &&& pb.phase == Phase::Connected
            &&& pb.open_connections == 1
            &&& pb.password == token
        }),
{
    successful_attempt_connects(a, c, token);
    successful_attempt_connects(b, c, token);
}

} // verus!
