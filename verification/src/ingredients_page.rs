//! The ingredient list page: the fetched collection of ingredient records,
//! the fetch state machine, and the pure filter projection applied on every
//! render.

use vstd::prelude::*;
use vstd::string::StrSliceExecFns;

use crate::task::TaskSlot;
use crate::text::{chars_contain, contains_seq, lower_chars, lower_seq};

verus! {

/// One ingredient record as the backend serves it. The searchable fields are
/// `name` and `food_group`; the rest ride along for display. On the wire the
/// description travels under a misspelled key; the serialization layer keeps
/// that alias while this struct uses the corrected name.
pub struct IIngredient {
    pub id: i32,
    pub name: String,
    pub name_scientific: Option<String>,
    pub description: Option<String>,
    pub food_group: Option<String>,
    pub food_subgroup: Option<String>,
}

fn clone_opt_string(s: &Option<String>) -> (r: Option<String>)
    ensures
        r == *s,
{
    match s {
        Some(x) => Some(x.clone()),
        None => None,
    }
}

impl Clone for IIngredient {
    fn clone(&self) -> (r: Self)
        ensures
            r == *self,
    {
        IIngredient {
            id: self.id,
            name: self.name.clone(),
            name_scientific: clone_opt_string(&self.name_scientific),
            description: clone_opt_string(&self.description),
            food_group: clone_opt_string(&self.food_group),
            food_subgroup: clone_opt_string(&self.food_subgroup),
        }
    }
}

/// The text the group field contributes to matching: a record without a
/// group offers nothing to match against.
pub open spec fn group_chars(r: IIngredient) -> Seq<char> {
    match r.food_group {
        Some(g) => g@,
        None => Seq::empty(),
    }
}

/// A record matches a query when the case-folded query occurs in its
/// case-folded name or group field.
pub open spec fn record_matches(r: IIngredient, q: Seq<char>) -> bool {
    contains_seq(lower_seq(r.name@), lower_seq(q)) || contains_seq(
        lower_seq(group_chars(r)),
        lower_seq(q),
    )
}

/// Queries shorter than this many characters are considered too noisy to
/// filter by: below the threshold every record passes.
pub const MIN_FILTER_CHARS: usize = 3;

/// What the filter projection returns: the whole collection for a short
/// query, otherwise exactly the matching records in their original order.
pub open spec fn spec_filter(list: Seq<IIngredient>, q: Seq<char>, min_chars: nat) -> Seq<
    IIngredient,
> {
    if q.len() < min_chars {
        list
    } else {
        list.filter(|r: IIngredient| record_matches(r, q))
    }
}

/// Does one record match the query? Case folding is applied to both sides.
pub fn ingredient_matches(r: &IIngredient, query: &str) -> (b: bool)
    ensures
        b == record_matches(*r, query@),
{
    let q = lower_chars(query);
    let name = lower_chars(self_name(r));
    if chars_contain(&name, &q) {
        return true;
    }
    match &r.food_group {
        Some(g) => {
            proof {
                assert(group_chars(*r) == g@);
            }
            let gl = lower_chars(g.as_str());
            chars_contain(&gl, &q)
        },
        None => {
            proof {
                // An empty query would already have matched the name, so here
                // the query is non-empty and cannot occur in an absent group.
                if lower_seq(query@).len() == 0 {
                    assert(lower_seq(r.name@).subrange(0, 0) =~= lower_seq(query@));
                    assert(crate::text::occurs_at(lower_seq(r.name@), lower_seq(query@), 0));
                }
                assert(lower_seq(group_chars(*r)) =~= Seq::<char>::empty());
            }
            false
        },
    }
}

fn self_name(r: &IIngredient) -> (s: &str)
    ensures
        s@ == r.name@,
{
    r.name.as_str()
}

/// The filter projection with an explicit threshold. Pure: the collection
/// and the query are left untouched, and the order of the survivors is the
/// order of the collection.
pub fn filter_ingredients_with(list: &Vec<IIngredient>, query: &str, min_chars: usize) -> (out: Vec<
    IIngredient,
>)
    ensures
        out@ == spec_filter(list@, query@, min_chars as nat),
{
    let qlen = query.unicode_len();
    if qlen < min_chars {
        return clone_records(list);
    }
    let ghost pred = |r: IIngredient| record_matches(r, query@);
    let mut out: Vec<IIngredient> = Vec::new();
    let mut i: usize = 0;
    while i < list.len()
        invariant
            i <= list.len(),
            pred == (|r: IIngredient| record_matches(r, query@)),
            out@ == list@.take(i as int).filter(pred),
        decreases list.len() - i,
    {
        proof {
            reveal(Seq::filter);
            assert(list@.take(i + 1).drop_last() =~= list@.take(i as int));
            assert(list@.take(i + 1).last() == list@[i as int]);
        }
        if ingredient_matches(&list[i], query) {
            out.push(list[i].clone());
        }
        i += 1;
    }
    proof {
        assert(list@.take(list@.len() as int) =~= list@);
    }
    out
}

/// The filter projection at the default threshold.
pub fn filter_ingredients(list: &Vec<IIngredient>, query: &str) -> (out: Vec<IIngredient>)
    ensures
        out@ == spec_filter(list@, query@, MIN_FILTER_CHARS as nat),
{
    filter_ingredients_with(list, query, MIN_FILTER_CHARS)
}

fn clone_records(list: &Vec<IIngredient>) -> (out: Vec<IIngredient>)
    ensures
        out@ == list@,
{
    let mut out: Vec<IIngredient> = Vec::new();
    let mut i: usize = 0;
    while i < list.len()
        invariant
            i <= list.len(),
            out@ == list@.take(i as int),
        decreases list.len() - i,
    {
        out.push(list[i].clone());
        proof {
            assert(list@.take(i + 1) =~= list@.take(i as int).push(list@[i as int]));
        }
        i += 1;
    }
    proof {
        assert(list@.take(list@.len() as int) =~= list@);
    }
    out
}

/// Short queries filter nothing: the projection returns the collection
/// unchanged, whatever it holds.
pub proof fn lemma_short_query_passes_all(list: Seq<IIngredient>, q: Seq<char>, min_chars: nat)
    requires
        q.len() < min_chars,
    ensures
        spec_filter(list, q, min_chars) == list,
{
}

/// At or above the threshold the projection is exact: every survivor
/// matches the query, every matching record of the collection survives, and
/// no record that fails the query is kept.
pub proof fn lemma_filter_exact(list: Seq<IIngredient>, q: Seq<char>, min_chars: nat)
    requires
        q.len() >= min_chars,
    ensures
        forall|i: int|
            0 <= i < spec_filter(list, q, min_chars).len() ==> record_matches(
                #[trigger] spec_filter(list, q, min_chars)[i],
                q,
            ),
        forall|i: int|
            0 <= i < list.len() && record_matches(#[trigger] list[i], q) ==> spec_filter(
                list,
                q,
                min_chars,
            ).contains(list[i]),
{
    let pred = |r: IIngredient| record_matches(r, q);
    assert forall|i: int| 0 <= i < spec_filter(list, q, min_chars).len() implies record_matches(
        #[trigger] spec_filter(list, q, min_chars)[i],
        q,
    ) by {
        list.lemma_filter_pred(pred, i);
    }
    assert forall|i: int|
        0 <= i < list.len() && record_matches(#[trigger] list[i], q) implies spec_filter(
        list,
        q,
        min_chars,
    ).contains(list[i]) by {
        list.lemma_filter_contains(pred, i);
    }
}

/// The fetch flow of the list page.
pub enum States {
    Initial,
    Fetching,
    Success { ingredients: Vec<IIngredient> },
    Error(String),
}

/// Messages the list page reacts to. The two completion variants are fed in
/// by [`IngredientsPage::complete`] once the transport resolves.
pub enum Msg {
    FetchIngredients,
    FetchIngredientsSuccess(Vec<IIngredient>),
    FetchIngredientsError(String),
    UpdateFilter(String),
}

/// A declarative request handed back by dispatch; the surrounding program
/// issues the network call and reports back under the given handle.
pub enum Action {
    StartFetch(u64),
}

/// One mounted list page: its fetch state, the live filter string, and the
/// slot owning at most one in-flight fetch.
pub struct IngredientsPage {
    pub state: States,
    pub current_filter: String,
    pub fetch_task: TaskSlot,
}

/// What one transition yields: the new page, an optional self-enqueued
/// follow-up message, an optional request to start, and whether a re-render
/// is due.
pub struct StepOut {
    pub page: IngredientsPage,
    pub enqueued: Option<Msg>,
    pub action: Option<Action>,
    pub render: bool,
}

pub open spec fn no_op(p: IngredientsPage) -> StepOut {
    StepOut { page: p, enqueued: None, action: None, render: false }
}

/// The transition table of the list page, mode-gated on the current state:
/// a fetch may start only from `Initial`; completions count only while
/// `Fetching`; the filter is editable once records are shown; from `Error` a
/// retry passes through `Initial` and re-enqueues the fetch.
pub open spec fn spec_step(p: IngredientsPage, m: Msg) -> StepOut {
    match p.state {
        States::Initial => match m {
            Msg::FetchIngredients => {
                let (slot, h) = p.fetch_task.spec_start();
                StepOut {
                    page: IngredientsPage {
                        state: States::Fetching,
                        current_filter: p.current_filter,
                        fetch_task: slot,
                    },
                    enqueued: None,
                    action: Some(Action::StartFetch(h)),
                    render: true,
                }
            },
            _ => no_op(p),
        },
        States::Fetching => match m {
            Msg::FetchIngredientsSuccess(data) => StepOut {
                page: IngredientsPage {
                    state: States::Success { ingredients: data },
                    current_filter: p.current_filter,
                    fetch_task: p.fetch_task,
                },
                enqueued: None,
                action: None,
                render: true,
            },
            Msg::FetchIngredientsError(e) => StepOut {
                page: IngredientsPage {
                    state: States::Error(e),
                    current_filter: p.current_filter,
                    fetch_task: p.fetch_task.spec_clear(),
                },
                enqueued: None,
                action: None,
                render: true,
            },
            _ => no_op(p),
        },
        States::Success { .. } => match m {
            Msg::UpdateFilter(v) => StepOut {
                page: IngredientsPage {
                    state: p.state,
                    current_filter: v,
                    fetch_task: p.fetch_task,
                },
                enqueued: None,
                action: None,
                render: true,
            },
            _ => no_op(p),
        },
        States::Error(_) => match m {
            Msg::FetchIngredients => StepOut {
                page: IngredientsPage {
                    state: States::Initial,
                    current_filter: p.current_filter,
                    fetch_task: p.fetch_task,
                },
                enqueued: Some(Msg::FetchIngredients),
                action: None,
                render: true,
            },
            _ => no_op(p),
        },
    }
}

pub open spec fn opt_action_seq(a: Option<Action>) -> Seq<Action> {
    match a {
        Some(x) => seq![x],
        None => Seq::empty(),
    }
}

/// One delivery run to completion: the message is applied, and the single
/// follow-up it may enqueue is applied after it. No follow-up enqueues
/// further ([`lemma_chain_stops`]), so the queue is empty again here.
pub open spec fn spec_dispatch(p: IngredientsPage, m: Msg) -> (IngredientsPage, Seq<Action>, bool) {
    let s1 = spec_step(p, m);
    match s1.enqueued {
        None => (s1.page, opt_action_seq(s1.action), s1.render),
        Some(m2) => {
            let s2 = spec_step(s1.page, m2);
            (
                s2.page,
                opt_action_seq(s1.action) + opt_action_seq(s2.action),
                s1.render || s2.render,
            )
        },
    }
}

/// A self-enqueued message never enqueues another: every dispatch chain has
/// length at most two.
pub proof fn lemma_chain_stops(p: IngredientsPage, m: Msg)
    ensures
        spec_step(p, m).enqueued matches Some(m2) ==> spec_step(
            spec_step(p, m).page,
            m2,
        ).enqueued is None,
{
}

impl IngredientsPage {
    /// The slot's bookkeeping is sound.
    pub open spec fn wf(self) -> bool {
        self.fetch_task.wf()
    }

    /// A freshly mounted page: nothing fetched, empty filter, no task.
    pub fn create() -> (p: IngredientsPage)
        ensures
            p.wf(),
            p.state is Initial,
            p.current_filter@ == Seq::<char>::empty(),
            p.fetch_task.current is None,
            p.fetch_task.next == 0,
    {
        IngredientsPage {
            state: States::Initial,
            current_filter: String::new(),
            fetch_task: TaskSlot::new(),
        }
    }

    /// Apply one message to the current state, as the transition table says.
    pub fn update(&mut self, msg: Msg) -> (out: (bool, Option<Msg>, Option<Action>))
        requires
            old(self).wf(),
            old(self).fetch_task.next < u64::MAX,
        ensures
            final(self).wf(),
            final(self).fetch_task.next <= old(self).fetch_task.next + 1,
            *final(self) == spec_step(*old(self), msg).page,
            out.0 == spec_step(*old(self), msg).render,
            out.1 == spec_step(*old(self), msg).enqueued,
            out.2 == spec_step(*old(self), msg).action,
    {
        match (&self.state, msg) {
            (States::Initial, Msg::FetchIngredients) => {
                let h = self.fetch_task.start();
                self.state = States::Fetching;
                (true, None, Some(Action::StartFetch(h)))
            },
            (States::Fetching, Msg::FetchIngredientsSuccess(data)) => {
                self.state = States::Success { ingredients: data };
                (true, None, None)
            },
            (States::Fetching, Msg::FetchIngredientsError(e)) => {
                self.state = States::Error(e);
                self.fetch_task.clear();
                (true, None, None)
            },
            (States::Success { .. }, Msg::UpdateFilter(v)) => {
                self.current_filter = v;
                (true, None, None)
            },
            (States::Error(_), Msg::FetchIngredients) => {
                self.state = States::Initial;
                (true, Some(Msg::FetchIngredients), None)
            },
            (_, _) => (false, None, None),
        }
    }

    /// The dispatch loop for one delivered message: apply it, then drain
    /// whatever it enqueued. Messages are handled one at a time, strictly in
    /// order; the proven two-step bound on chains is what empties the queue.
    pub fn dispatch(&mut self, msg: Msg) -> (out: (bool, Vec<Action>))
        requires
            old(self).wf(),
            old(self).fetch_task.next + 1 < u64::MAX,
        ensures
            final(self).wf(),
            final(self).fetch_task.next <= old(self).fetch_task.next + 2,
            *final(self) == spec_dispatch(*old(self), msg).0,
            out.1@ == spec_dispatch(*old(self), msg).1,
            out.0 == spec_dispatch(*old(self), msg).2,
    {
        let ghost p0 = *self;
        let (render1, enqueued, action1) = self.update(msg);
        let mut actions: Vec<Action> = Vec::new();
        if let Some(a) = action1 {
            actions.push(a);
        }
        match enqueued {
            Some(m2) => {
                proof {
                    lemma_chain_stops(p0, msg);
                }
                let (render2, enqueued2, action2) = self.update(m2);
                if let Some(a) = action2 {
                    actions.push(a);
                }
                (render1 || render2, actions)
            },
            None => (render1, actions),
        }
    }

    /// Feed a transport completion back in. It is applied only when `handle`
    /// is the one currently owned; a stale completion — its task superseded
    /// or cleared — changes nothing at all.
    pub fn complete(&mut self, handle: u64, result: Result<Vec<IIngredient>, String>) -> (out: (
        bool,
        Vec<Action>,
    ))
        requires
            old(self).wf(),
            old(self).fetch_task.next + 1 < u64::MAX,
        ensures
            final(self).wf(),
            final(self).fetch_task.next <= old(self).fetch_task.next + 2,
            !old(self).fetch_task.owns(handle) ==> *final(self) == *old(self),
            *final(self) == spec_complete(*old(self), handle, result).0,
            out.1@ == spec_complete(*old(self), handle, result).1,
            out.0 == spec_complete(*old(self), handle, result).2,
    {
        if !self.fetch_task.accepts(handle) {
            return (false, Vec::new());
        }
        self.fetch_task.clear();
        let msg = match result {
            Ok(data) => Msg::FetchIngredientsSuccess(data),
            Err(e) => Msg::FetchIngredientsError(e),
        };
        self.dispatch(msg)
    }

    /// The render hook: exactly the first paint kicks off the initial fetch;
    /// later paints never do.
    pub fn rendered(&mut self, first_render: bool) -> (out: (bool, Vec<Action>))
        requires
            old(self).wf(),
            old(self).fetch_task.next + 1 < u64::MAX,
        ensures
            final(self).wf(),
            final(self).fetch_task.next <= old(self).fetch_task.next + 2,
            first_render ==> *final(self) == spec_dispatch(*old(self), Msg::FetchIngredients).0
                && out.1@ == spec_dispatch(*old(self), Msg::FetchIngredients).1 && out.0
                == spec_dispatch(*old(self), Msg::FetchIngredients).2,
            !first_render ==> *final(self) == *old(self) && out.0 == false && out.1@ == Seq::<
                Action,
            >::empty(),
    {
        if first_render {
            self.dispatch(Msg::FetchIngredients)
        } else {
            (false, Vec::new())
        }
    }
}

/// The page left by a completion: gated on ownership of the handle, then the
/// task slot is freed and the matching message dispatched.
pub open spec fn spec_complete(
    p: IngredientsPage,
    h: u64,
    result: Result<Vec<IIngredient>, String>,
) -> (IngredientsPage, Seq<Action>, bool) {
    if p.fetch_task.owns(h) {
        spec_dispatch(with_cleared_task(p), completion_msg(result))
    } else {
        (p, Seq::empty(), false)
    }
}

pub open spec fn with_cleared_task(p: IngredientsPage) -> IngredientsPage {
    IngredientsPage {
        state: p.state,
        current_filter: p.current_filter,
        fetch_task: p.fetch_task.spec_clear(),
    }
}

pub open spec fn completion_msg(result: Result<Vec<IIngredient>, String>) -> Msg {
    match result {
        Ok(data) => Msg::FetchIngredientsSuccess(data),
        Err(e) => Msg::FetchIngredientsError(e),
    }
}

/// Law (error retry): from `Error`, a fetch message passes through
/// `Initial`, lands in `Fetching`, and starts exactly one request.
pub proof fn lemma_error_retry_starts_once(p: IngredientsPage)
    requires
        p.wf(),
        p.state is Error,
        p.fetch_task.next < u64::MAX,
    ensures
        spec_dispatch(p, Msg::FetchIngredients).0.state is Fetching,
        spec_dispatch(p, Msg::FetchIngredients).1 =~= seq![Action::StartFetch(p.fetch_task.next)],
        spec_dispatch(p, Msg::FetchIngredients).0.fetch_task.owns(p.fetch_task.next),
{
}

/// One external stimulus to a page instance: a delivered message, a
/// transport completion, or a paint.
pub enum Event {
    Deliver(Msg),
    Completion(u64, Result<Vec<IIngredient>, String>),
    Rendered(bool),
}

/// The page after one event, exactly as the exec entry points leave it.
pub open spec fn apply_event(p: IngredientsPage, e: Event) -> IngredientsPage {
    match e {
        Event::Deliver(m) => spec_dispatch(p, m).0,
        Event::Completion(h, result) => spec_complete(p, h, result).0,
        Event::Rendered(first) => if first {
            spec_dispatch(p, Msg::FetchIngredients).0
        } else {
            p
        },
    }
}

/// The page after a whole sequence of events, first to last.
pub open spec fn run_events(p: IngredientsPage, es: Seq<Event>) -> IngredientsPage
    decreases es.len(),
{
    if es.len() == 0 {
        p
    } else {
        run_events(apply_event(p, es[0]), es.drop_first())
    }
}

proof fn lemma_step_bounds(p: IngredientsPage, m: Msg)
    requires
        p.wf(),
        p.fetch_task.next < u64::MAX,
    ensures
        spec_step(p, m).page.wf(),
        p.fetch_task.next <= spec_step(p, m).page.fetch_task.next,
        spec_step(p, m).page.fetch_task.next <= p.fetch_task.next + 1,
{
}

proof fn lemma_dispatch_bounds(p: IngredientsPage, m: Msg)
    requires
        p.wf(),
        p.fetch_task.next + 1 < u64::MAX,
    ensures
        spec_dispatch(p, m).0.wf(),
        p.fetch_task.next <= spec_dispatch(p, m).0.fetch_task.next,
        spec_dispatch(p, m).0.fetch_task.next <= p.fetch_task.next + 2,
{
    lemma_step_bounds(p, m);
    match spec_step(p, m).enqueued {
        Some(m2) => lemma_step_bounds(spec_step(p, m).page, m2),
        None => (),
    }
}

proof fn lemma_event_bounds(p: IngredientsPage, e: Event)
    requires
        p.wf(),
        p.fetch_task.next + 1 < u64::MAX,
    ensures
        apply_event(p, e).wf(),
        p.fetch_task.next <= apply_event(p, e).fetch_task.next,
        apply_event(p, e).fetch_task.next <= p.fetch_task.next + 2,
{
    match e {
        Event::Deliver(m) => lemma_dispatch_bounds(p, m),
        Event::Completion(h, result) => {
            if p.fetch_task.owns(h) {
                lemma_dispatch_bounds(with_cleared_task(p), completion_msg(result));
            }
        },
        Event::Rendered(first) => {
            if first {
                lemma_dispatch_bounds(p, Msg::FetchIngredients);
            }
        },
    }
}

/// Law: however a page instance is driven — deliveries, completions, paints,
/// in any order — it keeps at most one task handle alive at every point
/// along the way, and its handle bookkeeping stays sound.
pub proof fn lemma_at_most_one_task(p: IngredientsPage, es: Seq<Event>)
    requires
        p.wf(),
        p.fetch_task.next + 2 * es.len() <= u64::MAX,
    ensures
        forall|i: int|
            0 <= i <= es.len() ==> #[trigger] run_events(p, es.take(i)).wf() && run_events(
                p,
                es.take(i),
            ).fetch_task.alive() <= 1,
    decreases es.len(),
{
    assert(es.take(0) =~= Seq::<Event>::empty());
    if es.len() > 0 {
        lemma_event_bounds(p, es[0]);
        let p1 = apply_event(p, es[0]);
        lemma_at_most_one_task(p1, es.drop_first());
        assert forall|i: int| 0 <= i <= es.len() implies #[trigger] run_events(p, es.take(i)).wf()
            && run_events(p, es.take(i)).fetch_task.alive() <= 1 by {
            if i > 0 {
                assert(es.take(i)[0] == es[0]);
                assert(es.take(i).drop_first() =~= es.drop_first().take(i - 1));
                assert(run_events(p1, es.drop_first().take(i - 1)).wf());
            }
        }
    }
}

/// Law: a completion carrying a handle the page does not currently own
/// mutates nothing — no state change, no action, no re-render.
pub proof fn lemma_stale_completion_ignored(
    p: IngredientsPage,
    h: u64,
    result: Result<Vec<IIngredient>, String>,
)
    requires
        !p.fetch_task.owns(h),
    ensures
        apply_event(p, Event::Completion(h, result)) == p,
        spec_complete(p, h, result).1 == Seq::<Action>::empty(),
        spec_complete(p, h, result).2 == false,
{
}

proof fn lemma_event_keeps_stale(p: IngredientsPage, e: Event, h: u64)
    requires
        p.wf(),
        p.fetch_task.next + 1 < u64::MAX,
        !p.fetch_task.owns(h),
        h < p.fetch_task.next,
    ensures
        !apply_event(p, e).fetch_task.owns(h),
        h < apply_event(p, e).fetch_task.next,
{
    lemma_event_bounds(p, e);
}

/// Law: a superseded handle stays dead. Once the page no longer owns a
/// handle it had issued, no later event can make it owned again, so its
/// completion is dropped whenever it arrives.
pub proof fn lemma_superseded_stays_stale(p: IngredientsPage, h: u64, es: Seq<Event>)
    requires
        p.wf(),
        !p.fetch_task.owns(h),
        h < p.fetch_task.next,
        p.fetch_task.next + 2 * es.len() <= u64::MAX,
    ensures
        forall|i: int|
            0 <= i <= es.len() ==> !(#[trigger] run_events(p, es.take(i))).fetch_task.owns(h),
    decreases es.len(),
{
    assert(es.take(0) =~= Seq::<Event>::empty());
    if es.len() > 0 {
        lemma_event_bounds(p, es[0]);
        lemma_event_keeps_stale(p, es[0], h);
        let p1 = apply_event(p, es[0]);
        lemma_superseded_stays_stale(p1, h, es.drop_first());
        assert forall|i: int| 0 <= i <= es.len() implies !(#[trigger] run_events(
            p,
            es.take(i),
        )).fetch_task.owns(h) by {
            if i > 0 {
                assert(es.take(i)[0] == es[0]);
                assert(es.take(i).drop_first() =~= es.drop_first().take(i - 1));
                assert(!run_events(p1, es.drop_first().take(i - 1)).fetch_task.owns(h));
            }
        }
    }
}

} // verus!

