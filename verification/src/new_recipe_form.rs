//! The create-recipe form: editable fields, trim-based validation, the
//! two-phase submit with an explicit `StartSubmit` second phase, and the
//! completion handling that clears the form on success.

use vstd::prelude::*;

use crate::task::TaskSlot;
use crate::text::{is_blank, str_is_blank};

verus! {

/// The fields of the form. Only `name` is required; `url` points at a
/// photo, `link` at the recipe on an external site.
pub struct FormData {
    pub name: String,
    pub description: Option<String>,
    pub link: Option<String>,
    pub url: Option<String>,
}

/// Which field an input event edits.
#[derive(Clone, Copy, PartialEq, Eq, Debug)]
pub enum FormFieldName {
    Name,
    Description,
    Url,
    Link,
}

/// The submit flow of the form.
pub enum States {
    Initial,
    Invalid,
    Submitting,
    Success,
    Error(String),
}

/// Messages the form reacts to. `Submit` validates; `StartSubmit`,
/// enqueued by a successful validation, issues the request.
pub enum Msg {
    UpdateFormField(FormFieldName, String),
    Submit,
    StartSubmit,
    SubmitSuccess,
    SubmitError(String),
}

/// A declarative request handed back by dispatch: post this payload,
/// reporting back under this handle.
pub enum Action {
    StartPost(FormData, u64),
}

/// One mounted create-recipe form.
pub struct NewRecipesForm {
    pub form_data: FormData,
    pub state: States,
    pub fetch_task: TaskSlot,
}

/// The form fields as character sequences.
pub struct FormDataV {
    pub name: Seq<char>,
    pub description: Option<Seq<char>>,
    pub link: Option<Seq<char>>,
    pub url: Option<Seq<char>>,
}

/// The submit flow over views.
pub enum StatesV {
    Initial,
    Invalid,
    Submitting,
    Success,
    Error(Seq<char>),
}

/// Messages over views.
pub enum MsgV {
    UpdateFormField(FormFieldName, Seq<char>),
    Submit,
    StartSubmit,
    SubmitSuccess,
    SubmitError(Seq<char>),
}

/// Requests over views.
pub enum ActionV {
    StartPost(FormDataV, u64),
}

/// One form instance over views: what the contracts speak about.
pub struct FormV {
    pub form_data: FormDataV,
    pub state: StatesV,
    pub fetch_task: TaskSlot,
}

pub open spec fn opt_view(s: Option<String>) -> Option<Seq<char>> {
    match s {
        Some(x) => Some(x@),
        None => None,
    }
}

impl View for FormData {
    type V = FormDataV;

    open spec fn view(&self) -> FormDataV {
        FormDataV {
            name: self.name@,
            description: opt_view(self.description),
            link: opt_view(self.link),
            url: opt_view(self.url),
        }
    }
}

impl View for States {
    type V = StatesV;

    open spec fn view(&self) -> StatesV {
        match self {
            States::Initial => StatesV::Initial,
            States::Invalid => StatesV::Invalid,
            States::Submitting => StatesV::Submitting,
            States::Success => StatesV::Success,
            States::Error(e) => StatesV::Error(e@),
        }
    }
}

impl View for Msg {
    type V = MsgV;

    open spec fn view(&self) -> MsgV {
        match self {
            Msg::UpdateFormField(f, v) => MsgV::UpdateFormField(*f, v@),
            Msg::Submit => MsgV::Submit,
            Msg::StartSubmit => MsgV::StartSubmit,
            Msg::SubmitSuccess => MsgV::SubmitSuccess,
            Msg::SubmitError(e) => MsgV::SubmitError(e@),
        }
    }
}

impl View for Action {
    type V = ActionV;

    open spec fn view(&self) -> ActionV {
        match self {
            Action::StartPost(d, h) => ActionV::StartPost(d@, *h),
        }
    }
}

impl View for NewRecipesForm {
    type V = FormV;

    open spec fn view(&self) -> FormV {
        FormV { form_data: self.form_data@, state: self.state@, fetch_task: self.fetch_task }
    }
}

pub open spec fn opt_action_view(a: Option<Action>) -> Option<ActionV> {
    match a {
        Some(x) => Some(x@),
        None => None,
    }
}

/// An empty recipe form. The description starts out present and empty; the
/// two address fields start out absent.
pub open spec fn default_form_data() -> FormDataV {
    FormDataV { name: Seq::empty(), description: Some(Seq::empty()), link: None, url: None }
}

/// One field replaced by fresh input. Optional fields become present once
/// edited.
pub open spec fn set_field(d: FormDataV, f: FormFieldName, v: Seq<char>) -> FormDataV {
    match f {
        FormFieldName::Name => FormDataV { name: v, ..d },
        FormFieldName::Description => FormDataV { description: Some(v), ..d },
        FormFieldName::Url => FormDataV { url: Some(v), ..d },
        FormFieldName::Link => FormDataV { link: Some(v), ..d },
    }
}

/// The form may go to the network only when the required name is non-empty
/// after trimming.
pub open spec fn submittable(d: FormDataV) -> bool {
    !is_blank(d.name)
}

/// States in which the user can edit fields and trigger a submit.
pub open spec fn editable(s: StatesV) -> bool {
    s is Initial || s is Invalid || s is Error
}

/// What one transition yields over views.
pub struct StepOutV {
    pub form: FormV,
    pub enqueued: Option<MsgV>,
    pub action: Option<ActionV>,
    pub render: bool,
}

pub open spec fn no_op(f: FormV) -> StepOutV {
    StepOutV { form: f, enqueued: None, action: None, render: false }
}

/// The transition table of the form. Editing and submitting are gated to the
/// editable states; validation decides between the observable `Submitting`
/// frame (with `StartSubmit` enqueued) and `Invalid`, which never touches
/// the network; `StartSubmit` issues the request; completions count only
/// while `Submitting`; and from `Success` the next message finds the form
/// cleared, back in `Initial`.
pub open spec fn spec_step(f: FormV, m: MsgV) -> StepOutV {
    match f.state {
        StatesV::Initial | StatesV::Invalid | StatesV::Error(_) => match m {
            MsgV::UpdateFormField(field, v) => StepOutV {
                form: FormV {
                    form_data: set_field(f.form_data, field, v),
                    state: f.state,
                    fetch_task: f.fetch_task,
                },
                enqueued: None,
                action: None,
                render: true,
            },
            MsgV::Submit => {
                if submittable(f.form_data) {
                    StepOutV {
                        form: FormV {
                            form_data: f.form_data,
                            state: StatesV::Submitting,
                            fetch_task: f.fetch_task,
                        },
                        enqueued: Some(MsgV::StartSubmit),
                        action: None,
                        render: true,
                    }
                } else {
                    StepOutV {
                        form: FormV {
                            form_data: f.form_data,
                            state: StatesV::Invalid,
                            fetch_task: f.fetch_task,
                        },
                        enqueued: None,
                        action: None,
                        render: true,
                    }
                }
            },
            _ => no_op(f),
        },
        StatesV::Submitting => match m {
            MsgV::StartSubmit => {
                let (slot, h) = f.fetch_task.spec_start();
                StepOutV {
                    form: FormV {
                        form_data: f.form_data,
                        state: StatesV::Submitting,
                        fetch_task: slot,
                    },
                    enqueued: None,
                    action: Some(ActionV::StartPost(f.form_data, h)),
                    render: false,
                }
            },
            MsgV::SubmitSuccess => StepOutV {
                form: FormV {
                    form_data: f.form_data,
                    state: StatesV::Success,
                    fetch_task: f.fetch_task.spec_clear(),
                },
                enqueued: None,
                action: None,
                render: true,
            },
            MsgV::SubmitError(e) => StepOutV {
                form: FormV {
                    form_data: f.form_data,
                    state: StatesV::Error(e),
                    fetch_task: f.fetch_task.spec_clear(),
                },
                enqueued: None,
                action: None,
                render: true,
            },
            _ => no_op(f),
        },
        StatesV::Success => StepOutV {
            form: FormV {
                form_data: default_form_data(),
                state: StatesV::Initial,
                fetch_task: f.fetch_task,
            },
            enqueued: None,
            action: None,
            render: true,
        },
    }
}

pub open spec fn opt_action_seq(a: Option<ActionV>) -> Seq<ActionV> {
    match a {
        Some(x) => seq![x],
        None => Seq::empty(),
    }
}

/// One delivery run to completion: the message is applied, and the single
/// follow-up it may enqueue is applied after it.
pub open spec fn spec_dispatch(f: FormV, m: MsgV) -> (FormV, Seq<ActionV>, bool) {
    let s1 = spec_step(f, m);
    match s1.enqueued {
        None => (s1.form, opt_action_seq(s1.action), s1.render),
        Some(m2) => {
            let s2 = spec_step(s1.form, m2);
            (
                s2.form,
                opt_action_seq(s1.action) + opt_action_seq(s2.action),
                s1.render || s2.render,
            )
        },
    }
}

/// A self-enqueued message never enqueues another: every dispatch chain has
/// length at most two.
pub proof fn lemma_chain_stops(f: FormV, m: MsgV)
    ensures
        spec_step(f, m).enqueued matches Some(m2) ==> spec_step(
            spec_step(f, m).form,
            m2,
        ).enqueued is None,
{
}

fn clone_opt_string(s: &Option<String>) -> (r: Option<String>)
    ensures
        r == *s,
{
    match s {
        Some(x) => Some(x.clone()),
        None => None,
    }
}

impl Clone for FormData {
    fn clone(&self) -> (r: Self)
        ensures
            r == *self,
    {
        FormData {
            name: self.name.clone(),
            description: clone_opt_string(&self.description),
            link: clone_opt_string(&self.link),
            url: clone_opt_string(&self.url),
        }
    }
}

/// Is the required name non-blank?
pub fn form_valid(d: &FormData) -> (r: bool)
    ensures
        r == submittable(d@),
{
    !str_is_blank(d.name.as_str())
}

fn empty_form_data() -> (d: FormData)
    ensures
        d@ == default_form_data(),
{
    FormData { name: String::new(), description: Some(String::new()), link: None, url: None }
}

impl NewRecipesForm {
    pub open spec fn wf(self) -> bool {
        self.fetch_task.wf()
    }

    /// A freshly mounted form: empty fields, nothing in flight.
    pub fn create() -> (f: NewRecipesForm)
        ensures
            f.wf(),
            f@.form_data == default_form_data(),
            f@.state is Initial,
            f.fetch_task.current is None,
            f.fetch_task.next == 0,
    {
        NewRecipesForm {
            form_data: empty_form_data(),
            state: States::Initial,
            fetch_task: TaskSlot::new(),
        }
    }

    /// Apply one message to the current state, as the transition table says.
    pub fn update(&mut self, msg: Msg) -> (out: (bool, Option<Msg>, Option<Action>))
        requires
            old(self).wf(),
            old(self).fetch_task.next < u64::MAX,
        ensures
            final(self).wf(),
            final(self).fetch_task.next <= old(self).fetch_task.next + 1,
            final(self)@ == spec_step(old(self)@, msg@).form,
            out.0 == spec_step(old(self)@, msg@).render,
            (match out.1 {
                Some(m) => spec_step(old(self)@, msg@).enqueued == Some(m@),
                None => spec_step(old(self)@, msg@).enqueued is None,
            }),
            opt_action_view(out.2) == spec_step(old(self)@, msg@).action,
    {
        match (&self.state, msg) {
            (States::Initial | States::Invalid | States::Error(_), Msg::UpdateFormField(f, v)) => {
                match f {
                    FormFieldName::Name => self.form_data.name = v,
                    FormFieldName::Description => self.form_data.description = Some(v),
                    FormFieldName::Url => self.form_data.url = Some(v),
                    FormFieldName::Link => self.form_data.link = Some(v),
                }
                (true, None, None)
            },
            (States::Initial | States::Invalid | States::Error(_), Msg::Submit) => {
                if form_valid(&self.form_data) {
                    self.state = States::Submitting;
                    (true, Some(Msg::StartSubmit), None)
                } else {
                    self.state = States::Invalid;
                    (true, None, None)
                }
            },
            (States::Submitting, Msg::StartSubmit) => {
                let h = self.fetch_task.start();
                (false, None, Some(Action::StartPost(self.form_data.clone(), h)))
            },
            (States::Submitting, Msg::SubmitSuccess) => {
                self.state = States::Success;
                self.fetch_task.clear();
                (true, None, None)
            },
            (States::Submitting, Msg::SubmitError(e)) => {
                self.state = States::Error(e);
                self.fetch_task.clear();
                (true, None, None)
            },
            (States::Success, _) => {
                self.form_data = empty_form_data();
                self.state = States::Initial;
                (true, None, None)
            },
            (_, _) => (false, None, None),
        }
    }

    /// The dispatch loop for one delivered message: apply it, then drain
    /// whatever it enqueued; chains provably stop after the second step.
    pub fn dispatch(&mut self, msg: Msg) -> (out: (bool, Vec<Action>))
        requires
            old(self).wf(),
            old(self).fetch_task.next + 1 < u64::MAX,
        ensures
            final(self).wf(),
            final(self).fetch_task.next <= old(self).fetch_task.next + 2,
            final(self)@ == spec_dispatch(old(self)@, msg@).0,
            out.1@.map_values(|a: Action| a@) == spec_dispatch(old(self)@, msg@).1,
            out.0 == spec_dispatch(old(self)@, msg@).2,
    {
        let ghost f0 = self@;
        let (render1, enqueued, action1) = self.update(msg);
        let mut actions: Vec<Action> = Vec::new();
        if let Some(a) = action1 {
            actions.push(a);
        }
        match enqueued {
            Some(m2) => {
                proof {
                    lemma_chain_stops(f0, msg@);
                }
                let (render2, _enqueued2, action2) = self.update(m2);
                if let Some(a) = action2 {
                    actions.push(a);
                }
                proof {
                    assert(actions@.map_values(|a: Action| a@) =~= spec_dispatch(f0, msg@).1);
                }
                (render1 || render2, actions)
            },
            None => {
                proof {
                    assert(actions@.map_values(|a: Action| a@) =~= spec_dispatch(f0, msg@).1);
                }
                (render1, actions)
            },
        }
    }

    /// Feed a transport completion back in. It is applied only when `handle`
    /// is the one currently owned; a stale completion changes nothing.
    pub fn complete(&mut self, handle: u64, result: Result<String, String>) -> (out: (
        bool,
        Vec<Action>,
    ))
        requires
            old(self).wf(),
            old(self).fetch_task.next + 1 < u64::MAX,
        ensures
            final(self).wf(),
            final(self).fetch_task.next <= old(self).fetch_task.next + 2,
            !old(self).fetch_task.owns(handle) ==> *final(self) == *old(self),
            final(self)@ == spec_complete(old(self)@, handle, result_view(result)).0,
            out.1@.map_values(|a: Action| a@) == spec_complete(
                old(self)@,
                handle,
                result_view(result),
            ).1,
            out.0 == spec_complete(old(self)@, handle, result_view(result)).2,
    {
        if !self.fetch_task.accepts(handle) {
            proof {
                assert(Seq::<Action>::empty().map_values(|a: Action| a@) =~= Seq::<
                    ActionV,
                >::empty());
            }
            return (false, Vec::new());
        }
        self.fetch_task.clear();
        let msg = match result {
            Ok(_) => Msg::SubmitSuccess,
            Err(e) => Msg::SubmitError(e),
        };
        self.dispatch(msg)
    }
}

pub open spec fn result_view(result: Result<String, String>) -> Result<Seq<char>, Seq<char>> {
    match result {
        Ok(s) => Ok(s@),
        Err(e) => Err(e@),
    }
}

/// The form left by a completion: gated on ownership of the handle, then the
/// slot is freed and the matching message dispatched.
pub open spec fn spec_complete(f: FormV, h: u64, result: Result<Seq<char>, Seq<char>>) -> (
    FormV,
    Seq<ActionV>,
    bool,
) {
    if f.fetch_task.owns(h) {
        spec_dispatch(with_cleared_task(f), completion_msg(result))
    } else {
        (f, Seq::empty(), false)
    }
}

pub open spec fn with_cleared_task(f: FormV) -> FormV {
    FormV { form_data: f.form_data, state: f.state, fetch_task: f.fetch_task.spec_clear() }
}

pub open spec fn completion_msg(result: Result<Seq<char>, Seq<char>>) -> MsgV {
    match result {
        Ok(_) => MsgV::SubmitSuccess,
        Err(e) => MsgV::SubmitError(e),
    }
}

/// Law (validation): submitting from any editable state with the required
/// name blank lands in `Invalid` and neither starts a request nor consumes
/// the network slot.
pub proof fn lemma_submit_invalid(f: FormV)
    requires
        editable(f.state),
        !submittable(f.form_data),
    ensures
        spec_dispatch(f, MsgV::Submit).0.state is Invalid,
        spec_dispatch(f, MsgV::Submit).1 == Seq::<ActionV>::empty(),
        spec_dispatch(f, MsgV::Submit).0.fetch_task == f.fetch_task,
        spec_dispatch(f, MsgV::Submit).0.form_data == f.form_data,
{
}

/// Law (two-phase submit): submitting from any editable state with the
/// required name filled passes through the observable `Submitting` frame and
/// ends with exactly one started request carrying the form data, now owned
/// by the task slot.
pub proof fn lemma_submit_valid(f: FormV)
    requires
        editable(f.state),
        submittable(f.form_data),
        f.fetch_task.wf(),
        f.fetch_task.next < u64::MAX,
    ensures
        spec_dispatch(f, MsgV::Submit).0.state is Submitting,
        spec_dispatch(f, MsgV::Submit).1 =~= seq![
            ActionV::StartPost(f.form_data, f.fetch_task.next),
        ],
        spec_dispatch(f, MsgV::Submit).0.fetch_task.owns(f.fetch_task.next),
        spec_dispatch(f, MsgV::Submit).0.form_data == f.form_data,
{
}

/// Law (form reset): from `Success`, the next message — whatever it is —
/// finds the form cleared to its defaults and back in `Initial`.
pub proof fn lemma_success_resets(f: FormV, m: MsgV)
    requires
        f.state is Success,
    ensures
        spec_step(f, m).form.form_data == default_form_data(),
        spec_step(f, m).form.state is Initial,
        spec_step(f, m).action is None,
{
}

/// One external stimulus to a form instance over views.
pub enum EventV {
    Deliver(MsgV),
    Completion(u64, Result<Seq<char>, Seq<char>>),
}

pub open spec fn apply_event(f: FormV, e: EventV) -> FormV {
    match e {
        EventV::Deliver(m) => spec_dispatch(f, m).0,
        EventV::Completion(h, result) => spec_complete(f, h, result).0,
    }
}

pub open spec fn run_events(f: FormV, es: Seq<EventV>) -> FormV
    decreases es.len(),
{
    if es.len() == 0 {
        f
    } else {
        run_events(apply_event(f, es[0]), es.drop_first())
    }
}

pub open spec fn form_wf(f: FormV) -> bool {
    f.fetch_task.wf()
}

proof fn lemma_step_bounds(f: FormV, m: MsgV)
    requires
        form_wf(f),
        f.fetch_task.next < u64::MAX,
    ensures
        form_wf(spec_step(f, m).form),
        f.fetch_task.next <= spec_step(f, m).form.fetch_task.next,
        spec_step(f, m).form.fetch_task.next <= f.fetch_task.next + 1,
{
}

proof fn lemma_dispatch_bounds(f: FormV, m: MsgV)
    requires
        form_wf(f),
        f.fetch_task.next + 1 < u64::MAX,
    ensures
        form_wf(spec_dispatch(f, m).0),
        f.fetch_task.next <= spec_dispatch(f, m).0.fetch_task.next,
        spec_dispatch(f, m).0.fetch_task.next <= f.fetch_task.next + 2,
{
    lemma_step_bounds(f, m);
    match spec_step(f, m).enqueued {
        Some(m2) => lemma_step_bounds(spec_step(f, m).form, m2),
        None => (),
    }
}

proof fn lemma_event_bounds(f: FormV, e: EventV)
    requires
        form_wf(f),
        f.fetch_task.next + 1 < u64::MAX,
    ensures
        form_wf(apply_event(f, e)),
        f.fetch_task.next <= apply_event(f, e).fetch_task.next,
        apply_event(f, e).fetch_task.next <= f.fetch_task.next + 2,
{
    match e {
        EventV::Deliver(m) => lemma_dispatch_bounds(f, m),
        EventV::Completion(h, result) => {
            if f.fetch_task.owns(h) {
                lemma_dispatch_bounds(with_cleared_task(f), completion_msg(result));
            }
        },
    }
}

/// Law: however a form instance is driven, it keeps at most one task handle
/// alive at every point along the way, and its handle bookkeeping stays
/// sound.
pub proof fn lemma_at_most_one_task(f: FormV, es: Seq<EventV>)
    requires
        form_wf(f),
        f.fetch_task.next + 2 * es.len() <= u64::MAX,
    ensures
        forall|i: int|
            0 <= i <= es.len() ==> form_wf(#[trigger] run_events(f, es.take(i))) && run_events(
                f,
                es.take(i),
            ).fetch_task.alive() <= 1,
    decreases es.len(),
{
    assert(es.take(0) =~= Seq::<EventV>::empty());
    if es.len() > 0 {
        lemma_event_bounds(f, es[0]);
        let f1 = apply_event(f, es[0]);
        lemma_at_most_one_task(f1, es.drop_first());
        assert forall|i: int| 0 <= i <= es.len() implies form_wf(#[trigger] run_events(
            f,
            es.take(i),
        )) && run_events(f, es.take(i)).fetch_task.alive() <= 1 by {
            if i > 0 {
                assert(es.take(i)[0] == es[0]);
                assert(es.take(i).drop_first() =~= es.drop_first().take(i - 1));
                assert(form_wf(run_events(f1, es.drop_first().take(i - 1))));
            }
        }
    }
}

/// Law: a completion carrying a handle the form does not currently own
/// mutates nothing — no state change, no action, no re-render.
pub proof fn lemma_stale_completion_ignored(f: FormV, h: u64, result: Result<Seq<char>, Seq<char>>)
    requires
        !f.fetch_task.owns(h),
    ensures
        apply_event(f, EventV::Completion(h, result)) == f,
        spec_complete(f, h, result).1 == Seq::<ActionV>::empty(),
        spec_complete(f, h, result).2 == false,
{
}

/// Law: a superseded handle stays dead: no later event can make it owned
/// again, so its completion is dropped whenever it arrives.
pub proof fn lemma_superseded_stays_stale(f: FormV, h: u64, es: Seq<EventV>)
    requires
        form_wf(f),
        !f.fetch_task.owns(h),
        h < f.fetch_task.next,
        f.fetch_task.next + 2 * es.len() <= u64::MAX,
    ensures
        forall|i: int|
            0 <= i <= es.len() ==> !(#[trigger] run_events(f, es.take(i))).fetch_task.owns(h),
    decreases es.len(),
{
    assert(es.take(0) =~= Seq::<EventV>::empty());
    if es.len() > 0 {
        lemma_event_bounds(f, es[0]);
        let f1 = apply_event(f, es[0]);
        lemma_superseded_stays_stale(f1, h, es.drop_first());
        assert forall|i: int| 0 <= i <= es.len() implies !(#[trigger] run_events(
            f,
            es.take(i),
        )).fetch_task.owns(h) by {
            if i > 0 {
                assert(es.take(i)[0] == es[0]);
                assert(es.take(i).drop_first() =~= es.drop_first().take(i - 1));
                assert(!run_events(f1, es.drop_first().take(i - 1)).fetch_task.owns(h));
            }
        }
    }
}

} // verus!
