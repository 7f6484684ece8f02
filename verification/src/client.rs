//! The session state machine: one owner of the append-only session log and
//! the url input buffer.  Every mutation flows through `update`, which
//! consumes one action and says whether a request must be dispatched; the
//! pure projection into a display tree is `view_nodes`.

use vstd::multiset::Multiset;
use vstd::prelude::*;
use vstd::string::*;

use crate::log::{spec_log_view, spec_outcome_entry, spec_toggled, LogView, Msg, SessionLog};
use crate::message::{outcome_view, Message, ProtocolError};
use crate::view::{view_trees, ViewNode, ViewTree};

verus! {

broadcast use {crate::view::lemma_view_trees_elementwise, vstd::multiset::group_multiset_axioms};

/// The wire-level tag of the one action the networked presentation layer
/// submits by name.
#[derive(Copy, Clone, Debug, PartialEq, Eq)]
pub enum ActionTag {
    SubmitUrl,
}

/// The closed set of actions the session consumes: keystrokes into the url
/// field, a submission of the buffered url, the completion of a dispatched
/// request, and a toggle addressed to one log entry.
#[derive(Debug, PartialEq, Eq)]
pub enum StateMessage {
    SubmitUrl,
    UrlChange(String),
    Response { request: String, response: Result<Message, ProtocolError> },
    LogMsg { index: usize, msg: Msg },
}

/// The session state: the ordered history of entries and the input buffer.
pub struct State {
    session_log: Vec<SessionLog>,
    url: String,
}

/// The mathematical content of the session state.
pub struct StateView {
    pub session_log: Seq<LogView>,
    pub url: Seq<char>,
}

impl View for State {
    type V = StateView;

    closed spec fn view(&self) -> StateView {
        StateView {
            session_log: Seq::new(self.session_log@.len(), |i: int| self.session_log@[i]@),
            url: self.url@,
        }
    }
}

/// What `update` asks of its surroundings: whether to deliver a fresh render
/// (always, for every action), and the url of a request to dispatch, if the
/// action was a submission.
pub struct Effect {
    pub should_render: bool,
    pub dispatch: Option<String>,
}

/// The state after one action: a submission appends a request entry for the
/// buffered url; a keystroke replaces the buffer; a completion appends the
/// outcome entry; a toggle changes one response entry's display mode and
/// nothing else.  Total: every action is handled.
pub open spec fn spec_update(s: StateView, m: StateMessage) -> StateView {
    match m {
        StateMessage::SubmitUrl => StateView {
            session_log: s.session_log.push(LogView::Request { url: s.url }),
            ..s
        },
        StateMessage::UrlChange(u) => StateView { url: u@, ..s },
        StateMessage::Response { request, response } => StateView {
            session_log: s.session_log.push(
                spec_outcome_entry(request@, outcome_view(response)),
            ),
            ..s
        },
        StateMessage::LogMsg { index, msg } => {
            if index < s.session_log.len() {
                StateView {
                    session_log: s.session_log.update(
                        index as int,
                        spec_toggled(s.session_log[index as int], msg),
                    ),
                    ..s
                }
            } else {
                s
            }
        },
    }
}

/// The url `update` asks to have dispatched: the buffered url on a
/// submission, nothing otherwise.
pub open spec fn spec_dispatch(s: StateView, m: StateMessage) -> Option<Seq<char>> {
    match m {
        StateMessage::SubmitUrl => Option::Some(s.url),
        _ => Option::None,
    }
}

/// Whether an optional dispatched url carries exactly the optional url the
/// specification asks for.
pub open spec fn dispatch_matches(d: Option<String>, s: Option<Seq<char>>) -> bool {
    match (d, s) {
        (Option::Some(u), Option::Some(su)) => u@ == su,
        (Option::None, Option::None) => true,
        _ => false,
    }
}

/// How many entries of the log are request entries.
pub open spec fn count_requests(log: Seq<LogView>) -> nat
    decreases log.len(),
{
    if log.len() == 0 {
        0
    } else {
        count_requests(log.drop_last()) + (if log.last() is Request {
            1nat
        } else {
            0nat
        })
    }
}

/// How many entries of the log are request entries for this url.
pub open spec fn count_requests_for(log: Seq<LogView>, url: Seq<char>) -> nat
    decreases log.len(),
{
    if log.len() == 0 {
        0
    } else {
        count_requests_for(log.drop_last(), url) + (if log.last() matches LogView::Request {
            url: u,
        } && u == url {
            1nat
        } else {
            0nat
        })
    }
}

/// How many entries of the log are outcome entries (success or failure)
/// correlated to this url.
pub open spec fn count_outcomes_for(log: Seq<LogView>, url: Seq<char>) -> nat
    decreases log.len(),
{
    if log.len() == 0 {
        0
    } else {
        count_outcomes_for(log.drop_last(), url) + (if entry_answers(log.last(), url) {
            1nat
        } else {
            0nat
        })
    }
}

/// Whether a log entry is an outcome entry correlated to this url.
pub open spec fn entry_answers(v: LogView, url: Seq<char>) -> bool {
    match v {
        LogView::Request { .. } => false,
        LogView::Response(r) => r.request == url,
        LogView::Error(e) => e.request == url,
    }
}

impl core::default::Default for State {
    /// The session starts with an empty history and an empty input buffer.
    fn default() -> (s: State)
        ensures
            s@.session_log.len() == 0,
            s@.url.len() == 0,
    {
        State { session_log: Vec::new(), url: String::new() }
    }
}

impl State {
    /// Consumes one action.  A completion may only be fed back for a url
    /// with a pending request entry, and a toggle only addressed to an
    /// existing response entry: breaking either is a caller defect surfaced
    /// as a broken contract, not swallowed.  Every action asks for a render;
    /// only a submission asks for a dispatch.
    pub fn update(&mut self, msg: StateMessage) -> (e: Effect)
        requires
            msg matches StateMessage::LogMsg { index, .. } ==> index < old(
                self,
            )@.session_log.len() && old(self)@.session_log[index as int] is Response,
            msg matches StateMessage::Response { request, .. } ==> count_outcomes_for(
                old(self)@.session_log,
                request@,
            ) < count_requests_for(old(self)@.session_log, request@),
        ensures
            final(self)@ == spec_update(old(self)@, msg),
            e.should_render == true,
            dispatch_matches(e.dispatch, spec_dispatch(old(self)@, msg)),
    {
        match msg {
            StateMessage::UrlChange(url) => {
                self.url = url;
                proof {
                    assert(self@.session_log =~= old(self)@.session_log);
                }
                Effect { should_render: true, dispatch: Option::None }
            },
            StateMessage::SubmitUrl => {
                let url = self.url.clone();
                let dispatch_url = self.url.clone();
                self.session_log.push(SessionLog::Request { url });
                proof {
                    assert(self@.session_log =~= spec_update(old(self)@, msg).session_log);
                }
                Effect { should_render: true, dispatch: Option::Some(dispatch_url) }
            },
            StateMessage::Response { request, response } => {
                let entry = SessionLog::response(request, response);
                self.session_log.push(entry);
                proof {
                    assert(self@.session_log =~= spec_update(old(self)@, msg).session_log);
                }
                Effect { should_render: true, dispatch: Option::None }
            },
            StateMessage::LogMsg { index, msg: inner } => {
                let entry = &mut self.session_log[index];
                entry.update(inner);
                proof {
                    assert(self@.session_log =~= spec_update(old(self)@, msg).session_log);
                }
                Effect { should_render: true, dispatch: Option::None }
            },
        }
    }

    /// Whether the entry at `index` is a response entry — what a toggle
    /// action may address.
    pub fn entry_is_response(&self, index: usize) -> (r: bool)
        requires
            index < self@.session_log.len(),
        ensures
            r == self@.session_log[index as int] is Response,
    {
        match &self.session_log[index] {
            SessionLog::Response(_) => true,
            _ => false,
        }
    }

    /// Whether this url still has a request entry without a correlated
    /// outcome entry — the condition under which a completion may be fed
    /// back for it.
    pub fn has_pending_request(&self, url: &String) -> (r: bool)
        ensures
            r == (count_outcomes_for(self@.session_log, url@) < count_requests_for(
                self@.session_log,
                url@,
            )),
    {
        let n = self.session_log.len();
        let mut requests: usize = 0;
        let mut outcomes: usize = 0;
        let mut k: usize = 0;
        while k < n
            invariant
                n == self@.session_log.len(),
                k <= n,
                requests == count_requests_for(self@.session_log.take(k as int), url@),
                outcomes == count_outcomes_for(self@.session_log.take(k as int), url@),
                outcomes <= k,
                requests <= k,
            decreases n - k,
        {
            let ghost pre = self@.session_log.take(k as int);
            let ghost post = self@.session_log.take(k as int + 1);
            proof {
                assert(post.drop_last() =~= pre);
                assert(post.last() == self@.session_log[k as int]);
            }
            match &self.session_log[k] {
                SessionLog::Request { url: u } => {
                    if u.eq(url) {
                        requests = requests + 1;
                    }
                },
                SessionLog::Response(r) => {
                    if r.request_url().eq(url) {
                        outcomes = outcomes + 1;
                    }
                },
                SessionLog::Error(e) => {
                    if e.request_url().eq(url) {
                        outcomes = outcomes + 1;
                    }
                },
            }
            k = k + 1;
        }
        proof {
            assert(self@.session_log.take(n as int) =~= self@.session_log);
        }
        outcomes < requests
    }

    /// The url currently in the input buffer.
    pub fn url(&self) -> (r: &String)
        ensures
            r@ == self@.url,
    {
        &self.url
    }

    /// How many entries the session log holds.
    pub fn log_len(&self) -> (n: usize)
        ensures
            n == self@.session_log.len(),
    {
        self.session_log.len()
    }

    /// The display tree of the session: the url input field above the log
    /// entries, newest first, uniformly.
    pub fn view_nodes(&self) -> (t: ViewNode<StateMessage>)
        ensures
            t@ == spec_state_view(self@),
    {
        let mut children: Vec<ViewNode<StateMessage>> = Vec::new();
        children.push(ViewNode::Input { value: self.url.clone() });
        let n = self.session_log.len();
        let mut k: usize = 0;
        while k < n
            invariant
                n == self.session_log@.len(),
                k <= n,
                children@.len() == k + 1,
                children@[0].view_tree() == (ViewTree::Input::<StateMessage> { value: self@.url }),
                forall|j: int|
                    1 <= j < k + 1 ==> (#[trigger] children@[j].view_tree()) == spec_log_view(
                        self@.session_log[n - j],
                        (n - j) as usize,
                    ),
            decreases n - k,
        {
            let index = n - 1 - k;
            let node = self.session_log[index].view_nodes(index);
            children.push(node);
            k = k + 1;
        }
        let t = ViewNode::Container { class: "session".to_owned(), children };
        proof {
            assert(view_trees(children@) =~= seq![
                ViewTree::Input::<StateMessage> { value: self@.url },
            ].add(
                Seq::new(
                    self@.session_log.len(),
                    |j: int|
                        spec_log_view(
                            self@.session_log[self@.session_log.len() - 1 - j],
                            (self@.session_log.len() - 1 - j) as usize,
                        ),
                ),
            ));
            assert(t@ == spec_state_view(self@));
        }
        t
    }
}

/// The session state at startup: an empty history and an empty buffer.
pub open spec fn spec_initial() -> StateView {
    StateView { session_log: Seq::empty(), url: Seq::empty() }
}

/// The state after a sequence of actions, applied strictly in arrival order.
pub open spec fn spec_run(s: StateView, msgs: Seq<StateMessage>) -> StateView
    decreases msgs.len(),
{
    if msgs.len() == 0 {
        s
    } else {
        spec_update(spec_run(s, msgs.drop_last()), msgs.last())
    }
}

/// How many of the actions are submissions.
pub open spec fn count_submits(msgs: Seq<StateMessage>) -> nat
    decreases msgs.len(),
{
    if msgs.len() == 0 {
        0
    } else {
        count_submits(msgs.drop_last()) + (if msgs.last() is SubmitUrl {
            1nat
        } else {
            0nat
        })
    }
}

/// The url a single log entry contributes to the request tally.
pub open spec fn req_contrib(e: LogView) -> Multiset<Seq<char>> {
    match e {
        LogView::Request { url } => Multiset::singleton(url),
        _ => Multiset::empty(),
    }
}

/// The url a single log entry contributes to the outcome tally.
pub open spec fn out_contrib(e: LogView) -> Multiset<Seq<char>> {
    match e {
        LogView::Response(r) => Multiset::singleton(r.request),
        LogView::Error(er) => Multiset::singleton(er.request),
        _ => Multiset::empty(),
    }
}

/// The urls of all request entries of the log, with multiplicity.
pub open spec fn request_urls(log: Seq<LogView>) -> Multiset<Seq<char>>
    decreases log.len(),
{
    if log.len() == 0 {
        Multiset::empty()
    } else {
        request_urls(log.drop_last()).add(req_contrib(log.last()))
    }
}

/// The urls all outcome entries of the log are correlated to, with
/// multiplicity.
pub open spec fn outcome_urls(log: Seq<LogView>) -> Multiset<Seq<char>>
    decreases log.len(),
{
    if log.len() == 0 {
        Multiset::empty()
    } else {
        outcome_urls(log.drop_last()).add(out_contrib(log.last()))
    }
}

/// The url one action asks to have dispatched, as a tally contribution.
pub open spec fn dispatch_contrib(s: StateView, m: StateMessage) -> Multiset<Seq<char>> {
    match spec_dispatch(s, m) {
        Option::Some(u) => Multiset::singleton(u),
        Option::None => Multiset::empty(),
    }
}

/// The urls of every request the run of `msgs` from `s` asks to have
/// dispatched, with multiplicity.
pub open spec fn dispatched_urls(s: StateView, msgs: Seq<StateMessage>) -> Multiset<Seq<char>>
    decreases msgs.len(),
{
    if msgs.len() == 0 {
        Multiset::empty()
    } else {
        dispatched_urls(s, msgs.drop_last()).add(
            dispatch_contrib(spec_run(s, msgs.drop_last()), msgs.last()),
        )
    }
}

/// The urls of every completion fed back among the actions, with
/// multiplicity.
pub open spec fn delivered_urls(msgs: Seq<StateMessage>) -> Multiset<Seq<char>>
    decreases msgs.len(),
{
    if msgs.len() == 0 {
        Multiset::empty()
    } else {
        delivered_urls(msgs.drop_last()).add(
            match msgs.last() {
                StateMessage::Response { request, .. } => Multiset::singleton(request@),
                _ => Multiset::empty(),
            },
        )
    }
}

/// Appending one entry adds exactly that entry's contributions to the
/// tallies.
proof fn lemma_urls_push(log: Seq<LogView>, e: LogView)
    ensures
        count_requests(log.push(e)) == count_requests(log) + (if e is Request {
            1nat
        } else {
            0nat
        }),
        request_urls(log.push(e)) == request_urls(log).add(req_contrib(e)),
        outcome_urls(log.push(e)) == outcome_urls(log).add(out_contrib(e)),
{
    assert(log.push(e).drop_last() =~= log);
    assert(log.push(e).last() == e);
}

/// A display toggle changes no tally: it keeps every entry's kind and
/// correlated url.
proof fn lemma_urls_update_toggled(log: Seq<LogView>, i: int, m: Msg)
    requires
        0 <= i < log.len(),
    ensures
        count_requests(log.update(i, spec_toggled(log[i], m))) == count_requests(log),
        request_urls(log.update(i, spec_toggled(log[i], m))) == request_urls(log),
        outcome_urls(log.update(i, spec_toggled(log[i], m))) == outcome_urls(log),
    decreases log.len(),
{
    let v = spec_toggled(log[i], m);
    let log2 = log.update(i, v);
    if i == log.len() - 1 {
        assert(log2.drop_last() =~= log.drop_last());
        assert(log2.last() == v);
        assert(req_contrib(v) == req_contrib(log.last()));
        assert(out_contrib(v) == out_contrib(log.last()));
    } else {
        assert(log2.drop_last() =~= log.drop_last().update(i, v));
        assert(log.drop_last()[i] == log[i]);
        lemma_urls_update_toggled(log.drop_last(), i, m);
        assert(log2.last() == log.last());
    }
}

/// For any sequence of actions, the log gains exactly one request entry per
/// submission: the count of request entries equals the count of submissions.
pub proof fn lemma_requests_match_submissions(s: StateView, msgs: Seq<StateMessage>)
    ensures
        count_requests(spec_run(s, msgs).session_log) == count_requests(s.session_log)
            + count_submits(msgs),
    decreases msgs.len(),
{
    if msgs.len() > 0 {
        lemma_requests_match_submissions(s, msgs.drop_last());
        let prev = spec_run(s, msgs.drop_last());
        match msgs.last() {
            StateMessage::SubmitUrl => {
                lemma_urls_push(prev.session_log, LogView::Request { url: prev.url });
            },
            StateMessage::UrlChange(_) => {},
            StateMessage::Response { request, response } => {
                lemma_urls_push(
                    prev.session_log,
                    spec_outcome_entry(request@, outcome_view(response)),
                );
            },
            StateMessage::LogMsg { index, msg } => {
                if index < prev.session_log.len() {
                    lemma_urls_update_toggled(prev.session_log, index as int, msg);
                }
            },
        }
    }
}

/// Over any run, the request entries grow exactly by the dispatched urls and
/// the outcome entries exactly by the delivered completions, url for url
/// with multiplicity — whatever order the completions interleave in.
pub proof fn lemma_run_correlation(s: StateView, msgs: Seq<StateMessage>)
    ensures
        request_urls(spec_run(s, msgs).session_log) == request_urls(s.session_log).add(
            dispatched_urls(s, msgs),
        ),
        outcome_urls(spec_run(s, msgs).session_log) == outcome_urls(s.session_log).add(
            delivered_urls(msgs),
        ),
    decreases msgs.len(),
{
    if msgs.len() == 0 {
        assert(request_urls(s.session_log).add(Multiset::empty()) =~= request_urls(
            s.session_log,
        ));
        assert(outcome_urls(s.session_log).add(Multiset::empty()) =~= outcome_urls(
            s.session_log,
        ));
    } else {
        lemma_run_correlation(s, msgs.drop_last());
        let prev = spec_run(s, msgs.drop_last());
        let dc = dispatch_contrib(prev, msgs.last());
        match msgs.last() {
            StateMessage::SubmitUrl => {
                lemma_urls_push(prev.session_log, LogView::Request { url: prev.url });
            },
            StateMessage::UrlChange(_) => {},
            StateMessage::Response { request, response } => {
                lemma_urls_push(
                    prev.session_log,
                    spec_outcome_entry(request@, outcome_view(response)),
                );
            },
            StateMessage::LogMsg { index, msg } => {
                if index < prev.session_log.len() {
                    lemma_urls_update_toggled(prev.session_log, index as int, msg);
                }
            },
        }
        assert(request_urls(spec_run(s, msgs).session_log) =~= request_urls(s.session_log).add(
            dispatched_urls(s, msgs),
        ));
        assert(outcome_urls(spec_run(s, msgs).session_log) =~= outcome_urls(s.session_log).add(
            delivered_urls(msgs),
        ));
    }
}

/// Every submission eventually yields exactly one correlated outcome row:
/// when the surroundings feed back exactly one completion per dispatched
/// url — what the dispatcher owes — the outcome entries of the final log
/// match its request entries url for url, with multiplicity, regardless of
/// the order the completions arrived in.
pub proof fn lemma_each_request_answered(msgs: Seq<StateMessage>)
    requires
        delivered_urls(msgs) == dispatched_urls(spec_initial(), msgs),
    ensures
        outcome_urls(spec_run(spec_initial(), msgs).session_log) == request_urls(
            spec_run(spec_initial(), msgs).session_log,
        ),
{
    lemma_run_correlation(spec_initial(), msgs);
    assert(request_urls(spec_initial().session_log).add(dispatched_urls(spec_initial(), msgs))
        =~= outcome_urls(spec_initial().session_log).add(delivered_urls(msgs)));
}

/// One dispatch per submission: over any run, exactly as many requests are
/// asked to be dispatched as there are submission actions.
pub proof fn lemma_one_dispatch_per_submission(s: StateView, msgs: Seq<StateMessage>)
    ensures
        dispatched_urls(s, msgs).len() == count_submits(msgs),
    decreases msgs.len(),
{
    if msgs.len() > 0 {
        lemma_one_dispatch_per_submission(s, msgs.drop_last());
    }
}

/// The log is append-only: one action never removes or reorders an entry,
/// and changes an existing one at most in its display mode.
pub open spec fn same_core(a: LogView, b: LogView) -> bool {
    match (a, b) {
        (LogView::Request { url: u1 }, LogView::Request { url: u2 }) => u1 == u2,
        (LogView::Response(r1), LogView::Response(r2)) => r1.request == r2.request && r1.message
            == r2.message,
        (LogView::Error(e1), LogView::Error(e2)) => e1 == e2,
        _ => false,
    }
}

/// One action only appends: every entry that was in the log is still there,
/// at its position, with its url, outcome and message unchanged.
pub proof fn lemma_log_append_only(s: StateView, m: StateMessage)
    ensures
        spec_update(s, m).session_log.len() >= s.session_log.len(),
        forall|i: int|
            0 <= i < s.session_log.len() ==> same_core(
                s.session_log[i],
                #[trigger] spec_update(s, m).session_log[i],
            ),
{
    assert forall|i: int| 0 <= i < s.session_log.len() implies same_core(
        s.session_log[i],
        #[trigger] spec_update(s, m).session_log[i],
    ) by {
        let e = s.session_log[i];
        assert(same_core(e, e));
        match m {
            StateMessage::LogMsg { index, msg } => {
                assert(same_core(e, spec_toggled(e, msg)));
            },
            _ => {},
        }
    }
}

/// Rendering is pure: renders of equal session states are equal trees, so
/// two calls of `view_nodes` on identical state yield identical output.
pub proof fn lemma_render_pure(
    s1: StateView,
    s2: StateView,
    t1: ViewTree<StateMessage>,
    t2: ViewTree<StateMessage>,
)
    requires
        s1 == s2,
        t1 == spec_state_view(s1),
        t2 == spec_state_view(s2),
    ensures
        t1 == t2,
{
}

/// The display tree of the whole session state: the input field carrying the
/// buffer, then every log entry, newest first.
pub open spec fn spec_state_view(s: StateView) -> ViewTree<StateMessage> {
    ViewTree::Container {
        class: "session"@,
        children: seq![ViewTree::Input { value: s.url }].add(
            Seq::new(
                s.session_log.len(),
                |j: int|
                    spec_log_view(
                        s.session_log[s.session_log.len() - 1 - j],
                        (s.session_log.len() - 1 - j) as usize,
                    ),
            ),
        ),
    }
}

} // verus!
