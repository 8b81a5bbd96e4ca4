use vstd::prelude::*;
use vstd::string::*;

use crate::oid::{oid_numbers, parse_oid, valid_oid};
use crate::target::{Target, TargetView, target_views};
use crate::text::{decimal, push_decimal};
use crate::value::{Scalar, render_value, value_text};

verus! {

/// The outcome of one GET request.
#[derive(Clone, Debug)]
pub enum Reply {
    /// The agent answered; the first variable binding, if there was one.
    Answer(Option<Scalar>),
    /// The request failed in transport: a timeout, an unreachable agent, a malformed response.
    Failed,
}

/// Why a probe could not start.
#[derive(Debug)]
pub enum ProbeError {
    /// A target's OID has a component that is not a number that fits in 32 bits.
    MalformedOid(String),
}

/// The metric line for one value:
/// `<agent>.snmp.<target>.<nickname> <value> <unix seconds>`.
pub open spec fn metric_line(
    agent_name: Seq<char>,
    target_name: Seq<char>,
    nickname: Seq<char>,
    value: Seq<char>,
    now: nat,
) -> Seq<char> {
    agent_name + ".snmp."@ + target_name + "."@ + nickname + " "@ + value + " "@ + decimal(now)
}

/// Builds a metric line.
pub fn format_metric_line(
    agent_name: &str,
    target_name: &str,
    nickname: &str,
    value: &str,
    now: u64,
) -> (r: String)
    ensures
        r@ == metric_line(agent_name@, target_name@, nickname@, value@, now as nat),
{
    let mut line = agent_name.to_owned();
    line.append(".snmp.");
    line.append(target_name);
    line.append(".");
    line.append(nickname);
    line.append(" ");
    line.append(value);
    line.append(" ");
    push_decimal(&mut line, now);
    line
}

/// The state of one invocation: the targets, which one is next, and whether a
/// transport failure has stopped it.
pub struct Probe {
    agent_name: String,
    nickname: String,
    targets: Vec<Target>,
    oids: Vec<Vec<u32>>,
    next: usize,
    aborted: bool,
}

pub struct ProbeView {
    pub agent_name: Seq<char>,
    pub nickname: Seq<char>,
    pub targets: Seq<TargetView>,
    pub next: nat,
    pub aborted: bool,
}

impl View for Probe {
    type V = ProbeView;

    closed spec fn view(&self) -> ProbeView {
        ProbeView {
            agent_name: self.agent_name@,
            nickname: self.nickname@,
            targets: target_views(self.targets@),
            next: self.next as nat,
            aborted: self.aborted,
        }
    }
}

/// Whether a probe still has a target to query.
pub open spec fn pending(p: ProbeView) -> bool {
    !p.aborted && p.next < p.targets.len()
}

/// The OID numbers that a probe asks for next, if any.
pub open spec fn request_of(p: ProbeView) -> Option<Seq<u32>> {
    if pending(p) {
        Some(oid_numbers(p.targets[p.next as int].oid))
    } else {
        None
    }
}

/// What one reply does: a failure stops the probe; an answer moves on to the next
/// target and yields a line when the current target accepts the value. A probe with
/// nothing pending ignores replies.
pub open spec fn step(p: ProbeView, reply: Reply, now: nat) -> (ProbeView, Option<Seq<char>>) {
    if !pending(p) {
        (p, None)
    } else {
        match reply {
            Reply::Failed => (ProbeView { aborted: true, ..p }, None),
            Reply::Answer(binding) => {
                let t = p.targets[p.next as int];
                let line = match value_text(t.vtype, binding) {
                    Some(v) => Some(metric_line(p.agent_name, t.name, p.nickname, v, now)),
                    None => None,
                };
                (ProbeView { next: p.next + 1, ..p }, line)
            },
        }
    }
}

/// A probe on which no reply has been handled yet.
pub open spec fn started(
    agent_name: Seq<char>,
    nickname: Seq<char>,
    targets: Seq<TargetView>,
) -> ProbeView {
    ProbeView { agent_name, nickname, targets, next: 0, aborted: false }
}

impl Probe {
    pub closed spec fn wf(&self) -> bool {
        &&& self.oids@.len() == self.targets@.len()
        &&& self.next <= self.targets@.len()
        &&& forall|i: int|
            0 <= i < self.targets@.len() ==> valid_oid(#[trigger] self.targets@[i]@.oid)
                && self.oids@[i]@ == oid_numbers(self.targets@[i]@.oid)
    }

    /// Starts a probe; every OID is read before anything is sent, and a malformed
    /// one stops the whole invocation.
    pub fn new(agent_name: &str, nickname: &str, targets: Vec<Target>) -> (r: Result<
        Probe,
        ProbeError,
    >)
        ensures
            r is Ok <==> forall|i: int|
                0 <= i < targets@.len() ==> valid_oid(#[trigger] targets@[i]@.oid),
            r is Ok ==> r->Ok_0.wf() && r->Ok_0@ == started(
                agent_name@,
                nickname@,
                target_views(targets@),
            ),
            r is Err ==> exists|i: int|
                0 <= i < targets@.len() && !valid_oid(#[trigger] targets@[i]@.oid)
                    && r->Err_0->MalformedOid_0@ == targets@[i]@.oid,
    {
        let mut oids: Vec<Vec<u32>> = Vec::new();
        let mut i: usize = 0;
        while i < targets.len()
            invariant
                i <= targets@.len(),
                oids@.len() == i,
                forall|k: int|
                    0 <= k < i ==> valid_oid(#[trigger] targets@[k]@.oid) && oids@[k]@
                        == oid_numbers(targets@[k]@.oid),
            decreases targets@.len() - i,
        {
            match parse_oid(targets[i].oid()) {
                Some(numbers) => {
                    oids.push(numbers);
                },
                None => {
                    return Err(ProbeError::MalformedOid(targets[i].oid().to_owned()));
                },
            }
            i = i + 1;
        }
        let p = Probe {
            agent_name: agent_name.to_owned(),
            nickname: nickname.to_owned(),
            targets,
            oids,
            next: 0,
            aborted: false,
        };
        assert(p@ == started(agent_name@, nickname@, target_views(targets@)));
        Ok(p)
    }

    /// The OID numbers to ask for next; none once every target is done or the probe
    /// has stopped.
    pub fn request(&self) -> (r: Option<&Vec<u32>>)
        requires
            self.wf(),
        ensures
            r is Some <==> request_of(self@) is Some,
            r is Some ==> r->0@ == request_of(self@)->0,
    {
        if !self.aborted && self.next < self.targets.len() {
            Some(&self.oids[self.next])
        } else {
            None
        }
    }

    /// Handles the reply to the last request; `now` is the Unix time in seconds
    /// stamped on the line, if one is made.
    pub fn receive(&mut self, reply: Reply, now: u64) -> (r: Option<String>)
        requires
            old(self).wf(),
        ensures
            final(self).wf(),
            final(self)@ == step(old(self)@, reply, now as nat).0,
            r is Some <==> step(old(self)@, reply, now as nat).1 is Some,
            r is Some ==> r->0@ == step(old(self)@, reply, now as nat).1->0,
    {
        if self.aborted || self.next >= self.targets.len() {
            return None;
        }
        match reply {
            Reply::Failed => {
                self.aborted = true;
                None
            },
            Reply::Answer(binding) => {
                let t = &self.targets[self.next];
                let line = match render_value(t.vtype(), &binding) {
                    Some(v) => Some(
                        format_metric_line(
                            self.agent_name.as_str(),
                            t.name(),
                            self.nickname.as_str(),
                            v.as_str(),
                            now,
                        ),
                    ),
                    None => None,
                };
                self.next = self.next + 1;
                line
            },
        }
    }

    /// Whether a transport failure has stopped the probe.
    pub fn aborted(&self) -> (r: bool)
        ensures
            r == self@.aborted,
    {
        self.aborted
    }
}

/// The lines that a sequence of replies, each with its time, yields from a probe.
pub open spec fn lines_of(p: ProbeView, events: Seq<(Reply, nat)>) -> Seq<Seq<char>>
    decreases events.len(),
{
    if events.len() == 0 {
        Seq::empty()
    } else {
        let (q, line) = step(p, events[0].0, events[0].1);
        let first = match line {
            Some(l) => seq![l],
            None => Seq::empty(),
        };
        first + lines_of(q, events.drop_first())
    }
}

/// The probe after a sequence of replies.
pub open spec fn state_after(p: ProbeView, events: Seq<(Reply, nat)>) -> ProbeView
    decreases events.len(),
{
    if events.len() == 0 {
        p
    } else {
        state_after(step(p, events[0].0, events[0].1).0, events.drop_first())
    }
}

proof fn lemma_stopped_probe_is_silent(p: ProbeView, events: Seq<(Reply, nat)>)
    requires
        p.aborted,
    ensures
        lines_of(p, events) == Seq::<Seq<char>>::empty(),
        state_after(p, events) == p,
    decreases events.len(),
{
    if events.len() > 0 {
        lemma_stopped_probe_is_silent(p, events.drop_first());
        assert(lines_of(p, events) =~= Seq::<Seq<char>>::empty() + lines_of(
            p,
            events.drop_first(),
        ));
    }
}

/// A transport failure stops the probe: it yields no line, the probe asks for nothing
/// more, and whatever replies come later yield no line and leave it as it is.
pub proof fn lemma_failure_ends_probe(p: ProbeView, failed_at: nat, later: Seq<(Reply, nat)>)
    requires
        pending(p),
    ensures
        step(p, Reply::Failed, failed_at).1 is None,
        request_of(step(p, Reply::Failed, failed_at).0) is None,
        lines_of(step(p, Reply::Failed, failed_at).0, later) == Seq::<Seq<char>>::empty(),
        state_after(step(p, Reply::Failed, failed_at).0, later) == step(
            p,
            Reply::Failed,
            failed_at,
        ).0,
{
    lemma_stopped_probe_is_silent(step(p, Reply::Failed, failed_at).0, later);
}

} // verus!
