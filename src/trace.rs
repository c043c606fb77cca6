//! Runs of a session over sequences of events, and what holds of them.

use vstd::prelude::*;
use crate::command::{auth_login_line, credential_line, data_line, ehlo_line, mail_from_line, rcpt_to_line};
use crate::reply::{is_accepted, is_completion, is_continuation};
use crate::smtpclient::{
    ActionView, ClientView, EventView, Phase, SMTPClientError, ehlo_reply, holds_connection, next,
    start_connect, start_login, start_send,
};

verus! {

/// The final phase and the actions that a session in state `c` yields when fed `evs`
/// one after another.
pub open spec fn run(c: ClientView, evs: Seq<EventView>) -> (Phase, Seq<ActionView>)
    decreases evs.len(),
{
    if evs.len() == 0 {
        (c.phase, seq![])
    } else {
        let (p, a) = next(c, evs[0]);
        let (q, acts) = run(ClientView { phase: p, ..c }, evs.drop_first());
        (q, seq![a] + acts)
    }
}

/// A reply line whose code lets the exchange go on.
pub open spec fn is_accepted_event(ev: EventView) -> bool {
    match ev {
        EventView::Line(l) => is_accepted(l),
        _ => false,
    }
}

pub open spec fn lines(ls: Seq<Seq<char>>) -> Seq<EventView> {
    ls.map_values(|l: Seq<char>| EventView::Line(l))
}

pub open spec fn receives(n: nat) -> Seq<ActionView> {
    Seq::new(n, |i: int| ActionView::Receive)
}

/// A session that has failed stays failed: every further event, and every further
/// operation, ends at once with an error and asks for no transport work.
pub proof fn lemma_closed_session_is_inert(c: ClientView, evs: Seq<EventView>)
    requires
        c.phase == Phase::Closed,
    ensures
        run(c, evs).0 == Phase::Closed,
        run(c, evs).1.len() == evs.len(),
        forall|i: int|
            0 <= i < evs.len() ==> run(c, evs).1[i] == ActionView::Done(
                Err(SMTPClientError::WrongInit),
            ),
        !holds_connection(c.phase),
        start_connect(c) == (Phase::Closed, ActionView::Done(Err(SMTPClientError::WrongInit))),
        start_login(c) == (Phase::Closed, ActionView::Done(Err(SMTPClientError::AUTHFailed))),
        start_send(c) == (Phase::Closed, ActionView::Done(Err(SMTPClientError::SendEmailFailed))),
    decreases evs.len(),
{
    if evs.len() > 0 {
        lemma_closed_session_is_inert(c, evs.drop_first());
        let rest = run(c, evs.drop_first()).1;
        assert forall|i: int| 0 <= i < evs.len() implies run(c, evs).1[i] == ActionView::Done(
            Err(SMTPClientError::WrongInit),
        ) by {
            if i > 0 {
                assert(run(c, evs).1[i] == rest[i - 1]);
            }
        }
    }
}

/// When the transport cannot be opened (host unreachable, handshake or server name
/// refused), `connect` fails with a transport error and the session holds no connection.
pub proof fn lemma_unreachable_host(c: ClientView, ev: EventView)
    requires
        c.phase == Phase::Idle,
        ev != EventView::Connected,
    ensures
        start_connect(c) == (Phase::Opening, ActionView::Open),
        next(ClientView { phase: Phase::Opening, ..c }, ev) == (
            Phase::Closed,
            ActionView::Done(Err(SMTPClientError::ConnectFailed)),
        ),
        !holds_connection(Phase::Closed),
{
}

proof fn lemma_ehlo_lines(c: ClientView, conts: Seq<Seq<char>>, last: Seq<char>)
    requires
        c.phase == Phase::Ehlo || c.phase == Phase::Capabilities,
        forall|i: int| 0 <= i < conts.len() ==> is_continuation(#[trigger] conts[i]),
    ensures
        run(c, lines(conts).push(EventView::Line(last))) == (
            ehlo_reply(last).0,
            receives(conts.len()).push(ehlo_reply(last).1),
        ),
    decreases conts.len(),
{
    let evs = lines(conts).push(EventView::Line(last));
    let r = ehlo_reply(last);
    let cr = ClientView { phase: r.0, ..c };
    if conts.len() == 0 {
        assert(evs[0] == EventView::Line(last));
        assert(next(c, evs[0]) == r);
        assert(evs.drop_first() =~= seq![]);
        assert(run(cr, evs.drop_first()) == (r.0, Seq::<ActionView>::empty()));
        assert(receives(0).push(r.1) =~= seq![r.1]);
        assert(run(c, evs).1 =~= seq![r.1]);
    } else {
        let c2 = ClientView { phase: Phase::Capabilities, ..c };
        assert(lines(conts)[0] == EventView::Line(conts[0]));
        assert(evs[0] == EventView::Line(conts[0]));
        assert(is_continuation(conts[0]));
        assert(next(c, evs[0]) == (Phase::Capabilities, ActionView::Receive));
        assert(evs.drop_first() =~= lines(conts.drop_first()).push(EventView::Line(last)));
        lemma_ehlo_lines(c2, conts.drop_first(), last);
        let sub = run(c2, evs.drop_first());
        assert(sub == (r.0, receives((conts.len() - 1) as nat).push(r.1)));
        assert(run(c, evs) == (sub.0, seq![ActionView::Receive] + sub.1));
        assert(seq![ActionView::Receive] + receives((conts.len() - 1) as nat).push(r.1)
            =~= receives(conts.len()).push(r.1));
    }
}

/// Connecting to a server whose `EHLO` reply is `n` continuation lines (`250-`) and
/// then a last line succeeds exactly when that last line begins with `250`: the client
/// reads the `n + 1` lines of the reply, the first with the `EHLO` exchange and each
/// other one with a receive of its own, and otherwise fails with `HELOFailed`.
pub proof fn lemma_connect_multiline_ehlo(
    c: ClientView,
    greeting: Seq<char>,
    conts: Seq<Seq<char>>,
    last: Seq<char>,
)
    requires
        c.phase == Phase::Idle,
        forall|i: int| 0 <= i < conts.len() ==> is_continuation(#[trigger] conts[i]),
        !is_continuation(last),
    ensures
        start_connect(c) == (Phase::Opening, ActionView::Open),
        run(
            ClientView { phase: Phase::Opening, ..c },
            seq![EventView::Connected, EventView::Line(greeting)] + lines(conts).push(
                EventView::Line(last),
            ),
        ) == if is_completion(last) {
            (
                Phase::Ready,
                seq![ActionView::Receive, ActionView::Send(ehlo_line(c.domain))] + receives(
                    conts.len(),
                ) + seq![ActionView::Done(Ok(()))],
            )
        } else {
            (
                Phase::Closed,
                seq![ActionView::Receive, ActionView::Send(ehlo_line(c.domain))] + receives(
                    conts.len(),
                ) + seq![ActionView::Done(Err(SMTPClientError::HELOFailed))],
            )
        },
{
    let tail = lines(conts).push(EventView::Line(last));
    let evs = seq![EventView::Connected, EventView::Line(greeting)] + tail;
    let c1 = ClientView { phase: Phase::Opening, ..c };
    let c2 = ClientView { phase: Phase::Greeting, ..c };
    let c3 = ClientView { phase: Phase::Ehlo, ..c };
    assert(evs[0] == EventView::Connected);
    assert(evs.drop_first()[0] == EventView::Line(greeting));
    assert(evs.drop_first().drop_first() =~= tail);
    lemma_ehlo_lines(c3, conts, last);
    let r = ehlo_reply(last);
    let sub = run(c3, tail);
    assert(sub == (r.0, receives(conts.len()).push(r.1)));
    assert(next(c2, EventView::Line(greeting)) == (Phase::Ehlo, ActionView::Send(ehlo_line(c.domain))));
    assert(run(c2, evs.drop_first()) == (r.0, seq![ActionView::Send(ehlo_line(c.domain))] + sub.1));
    assert(run(c1, evs) == (r.0, seq![ActionView::Receive, ActionView::Send(ehlo_line(c.domain))] + sub.1));
    assert(seq![ActionView::Receive, ActionView::Send(ehlo_line(c.domain))] + sub.1
        =~= seq![ActionView::Receive, ActionView::Send(ehlo_line(c.domain))]
        + receives(conts.len()) + seq![r.1]);
}

/// In `AUTH LOGIN`, when the reply to the username is not accepted, login fails there:
/// the password is never sent, nor anything else.
pub proof fn lemma_rejected_username_stops_login(
    c: ClientView,
    first: Seq<char>,
    second: EventView,
    rest: Seq<EventView>,
)
    requires
        c.phase == Phase::Ready,
        is_accepted(first),
        !is_accepted_event(second),
    ensures
        start_login(c) == (Phase::AuthLogin, ActionView::Send(auth_login_line())),
        ({
            let (p, acts) = run(
                ClientView { phase: Phase::AuthLogin, ..c },
                seq![EventView::Line(first), second] + rest,
            );
            &&& p == Phase::Closed
            &&& acts.len() == rest.len() + 2
            &&& acts[0] == ActionView::Send(credential_line(c.user))
            &&& acts[1] == ActionView::Done(Err(SMTPClientError::AUTHFailed))
            &&& forall|i: int|
                2 <= i < acts.len() ==> acts[i] == ActionView::Done(
                    Err(SMTPClientError::WrongInit),
                )
        }),
{
    let evs = seq![EventView::Line(first), second] + rest;
    let c1 = ClientView { phase: Phase::AuthLogin, ..c };
    let c2 = ClientView { phase: Phase::AuthUser, ..c };
    let c3 = ClientView { phase: Phase::Closed, ..c };
    assert(evs[0] == EventView::Line(first));
    assert(evs.drop_first()[0] == second);
    assert(evs.drop_first().drop_first() =~= rest);
    lemma_closed_session_is_inert(c3, rest);
    let tail = run(c3, rest).1;
    let evs1 = evs.drop_first();
    assert(next(c2, second) == (Phase::Closed, ActionView::Done(Err(SMTPClientError::AUTHFailed))));
    assert(run(c2, evs1) == (Phase::Closed, seq![ActionView::Done(Err(SMTPClientError::AUTHFailed))] + tail));
    let acts = run(c1, evs).1;
    assert(acts == seq![ActionView::Send(credential_line(c.user))] + run(c2, evs1).1);
    assert forall|i: int| 2 <= i < acts.len() implies acts[i] == ActionView::Done(
        Err(SMTPClientError::WrongInit),
    ) by {
        assert(acts[i] == tail[i - 2]);
    }
}

/// In a mail transaction, when `RCPT TO` is refused, the transaction fails there:
/// `DATA` is never sent, nor anything else.
pub proof fn lemma_rejected_recipient_stops_send(
    c: ClientView,
    first: Seq<char>,
    second: EventView,
    rest: Seq<EventView>,
)
    requires
        c.phase == Phase::Ready,
        is_accepted(first),
        !is_accepted_event(second),
    ensures
        start_send(c) == (Phase::MailFrom, ActionView::Send(mail_from_line(c.sender))),
        ({
            let (p, acts) = run(
                ClientView { phase: Phase::MailFrom, ..c },
                seq![EventView::Line(first), second] + rest,
            );
            &&& p == Phase::Closed
            &&& acts.len() == rest.len() + 2
            &&& acts[0] == ActionView::Send(rcpt_to_line(c.rcpt))
            &&& acts[0] != ActionView::Send(data_line())
            &&& acts[1] == ActionView::Done(Err(SMTPClientError::SendEmailFailed))
            &&& forall|i: int|
                2 <= i < acts.len() ==> acts[i] == ActionView::Done(
                    Err(SMTPClientError::WrongInit),
                )
        }),
{
    let evs = seq![EventView::Line(first), second] + rest;
    let c1 = ClientView { phase: Phase::MailFrom, ..c };
    let c2 = ClientView { phase: Phase::RcptTo, ..c };
    let c3 = ClientView { phase: Phase::Closed, ..c };
    assert(evs[0] == EventView::Line(first));
    assert(evs.drop_first()[0] == second);
    assert(evs.drop_first().drop_first() =~= rest);
    lemma_closed_session_is_inert(c3, rest);
    let tail = run(c3, rest).1;
    let evs1 = evs.drop_first();
    assert(next(c2, second) == (Phase::Closed, ActionView::Done(Err(SMTPClientError::SendEmailFailed))));
    assert(run(c2, evs1) == (Phase::Closed, seq![ActionView::Done(Err(SMTPClientError::SendEmailFailed))] + tail));
    let acts = run(c1, evs).1;
    assert(acts == seq![ActionView::Send(rcpt_to_line(c.rcpt))] + run(c2, evs1).1);
    assert forall|i: int| 2 <= i < acts.len() implies acts[i] == ActionView::Done(
        Err(SMTPClientError::WrongInit),
    ) by {
        assert(acts[i] == tail[i - 2]);
    }
    reveal_strlit("RCPT TO:<");
    reveal_strlit("DATA");
    assert(rcpt_to_line(c.rcpt)[0] == 'R');
    assert(data_line()[0] == 'D');
}

} // verus!
