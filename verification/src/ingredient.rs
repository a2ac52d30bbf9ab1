//! One ingredient row: its expand/collapse toggle, the delete flow state
//! machine, and the food-group-to-emoji rendering map.
//!
//! A successful delete marks this one row `Deleted` and the row renders as
//! removed; the fetched collection itself is never patched. That is the one
//! deletion policy this library implements.

use vstd::prelude::*;

use crate::task::TaskSlot;
use crate::text::str_eq;

verus! {

/// The immutable data one row is mounted with.
pub struct Props {
    pub id: i32,
    pub name: String,
    pub group: String,
    pub description: Option<String>,
}

fn clone_opt_string(s: &Option<String>) -> (r: Option<String>)
    ensures
        r == *s,
{
    match s {
        Some(x) => Some(x.clone()),
        None => None,
    }
}

impl Clone for Props {
    fn clone(&self) -> (r: Self)
        ensures
            r == *self,
    {
        Props {
            id: self.id,
            name: self.name.clone(),
            group: self.group.clone(),
            description: clone_opt_string(&self.description),
        }
    }
}

/// The delete flow of one row.
pub enum States {
    Initial,
    Deleting,
    Deleted,
}

/// Messages one row reacts to. The two completion variants are fed in by
/// [`Ingredient::complete`] once the transport resolves.
pub enum Msg {
    Toggle,
    DeleteIngredient,
    DeleteSuccess,
    DeleteError,
}

/// A declarative request handed back by dispatch: delete the record with
/// this id, reporting back under this handle.
pub enum Action {
    StartDelete(i32, u64),
}

/// One mounted ingredient row.
pub struct Ingredient {
    pub props: Props,
    pub is_open: bool,
    pub state: States,
    pub fetch_task: TaskSlot,
}

/// What one transition yields: the new row, an optional request to start,
/// and whether a re-render is due. Nothing in this machine self-enqueues.
pub struct StepOut {
    pub row: Ingredient,
    pub action: Option<Action>,
    pub render: bool,
}

pub open spec fn no_op(c: Ingredient) -> StepOut {
    StepOut { row: c, action: None, render: false }
}

/// The transition table of one row. `Toggle` flips the details fold in every
/// state alike; a delete may start only from `Initial`; a second delete
/// request while `Deleting` is a no-op; a failed delete returns the row to
/// `Initial` so it can be retried; `Deleted` is terminal.
pub open spec fn spec_step(c: Ingredient, m: Msg) -> StepOut {
    match m {
        Msg::Toggle => StepOut {
            row: Ingredient {
                props: c.props,
                is_open: !c.is_open,
                state: c.state,
                fetch_task: c.fetch_task,
            },
            action: None,
            render: true,
        },
        Msg::DeleteIngredient => match c.state {
            States::Initial => {
                let (slot, h) = c.fetch_task.spec_start();
                StepOut {
                    row: Ingredient {
                        props: c.props,
                        is_open: c.is_open,
                        state: States::Deleting,
                        fetch_task: slot,
                    },
                    action: Some(Action::StartDelete(c.props.id, h)),
                    render: true,
                }
            },
            _ => no_op(c),
        },
        Msg::DeleteSuccess => match c.state {
            States::Initial | States::Deleting => StepOut {
                row: Ingredient {
                    props: c.props,
                    is_open: c.is_open,
                    state: States::Deleted,
                    fetch_task: c.fetch_task.spec_clear(),
                },
                action: None,
                render: true,
            },
            _ => no_op(c),
        },
        Msg::DeleteError => match c.state {
            States::Deleting => StepOut {
                row: Ingredient {
                    props: c.props,
                    is_open: c.is_open,
                    state: States::Initial,
                    fetch_task: c.fetch_task.spec_clear(),
                },
                action: None,
                render: true,
            },
            _ => no_op(c),
        },
    }
}

impl Ingredient {
    pub open spec fn wf(self) -> bool {
        self.fetch_task.wf()
    }

    /// A freshly mounted row: folded, nothing in flight, not deleted.
    pub fn create(props: Props) -> (c: Ingredient)
        ensures
            c.wf(),
            c.props == props,
            c.is_open == false,
            c.state is Initial,
            c.fetch_task.current is None,
            c.fetch_task.next == 0,
    {
        Ingredient { props, is_open: false, state: States::Initial, fetch_task: TaskSlot::new() }
    }

    /// Apply one message, as the transition table says. This machine never
    /// self-enqueues, so one step is a whole dispatch.
    pub fn update(&mut self, msg: Msg) -> (out: (bool, Option<Action>))
        requires
            old(self).wf(),
            old(self).fetch_task.next < u64::MAX,
        ensures
            final(self).wf(),
            final(self).fetch_task.next <= old(self).fetch_task.next + 1,
            *final(self) == spec_step(*old(self), msg).row,
            out.0 == spec_step(*old(self), msg).render,
            out.1 == spec_step(*old(self), msg).action,
    {
        match msg {
            Msg::Toggle => {
                self.is_open = !self.is_open;
                (true, None)
            },
            Msg::DeleteIngredient => match &self.state {
                States::Initial => {
                    let h = self.fetch_task.start();
                    self.state = States::Deleting;
                    (true, Some(Action::StartDelete(self.props.id, h)))
                },
                _ => (false, None),
            },
            Msg::DeleteSuccess => match &self.state {
                States::Initial | States::Deleting => {
                    self.state = States::Deleted;
                    self.fetch_task.clear();
                    (true, None)
                },
                _ => (false, None),
            },
            Msg::DeleteError => match &self.state {
                States::Deleting => {
                    self.state = States::Initial;
                    self.fetch_task.clear();
                    (true, None)
                },
                _ => (false, None),
            },
        }
    }

    /// Feed a transport completion back in. It is applied only when `handle`
    /// is the one currently owned; a stale completion changes nothing.
    pub fn complete(&mut self, handle: u64, result: Result<String, String>) -> (out: (
        bool,
        Option<Action>,
    ))
        requires
            old(self).wf(),
            old(self).fetch_task.next < u64::MAX,
        ensures
            final(self).wf(),
            final(self).fetch_task.next <= old(self).fetch_task.next + 1,
            !old(self).fetch_task.owns(handle) ==> *final(self) == *old(self),
            *final(self) == spec_complete(*old(self), handle, result).0,
            out.0 == spec_complete(*old(self), handle, result).1,
            out.1 == spec_complete(*old(self), handle, result).2,
    {
        if !self.fetch_task.accepts(handle) {
            return (false, None);
        }
        self.fetch_task.clear();
        let msg = match result {
            Ok(_) => Msg::DeleteSuccess,
            Err(_) => Msg::DeleteError,
        };
        self.update(msg)
    }
}

/// The row left by a completion: gated on ownership of the handle, then the
/// slot is freed and the matching message applied.
pub open spec fn spec_complete(c: Ingredient, h: u64, result: Result<String, String>) -> (
    Ingredient,
    bool,
    Option<Action>,
) {
    if c.fetch_task.owns(h) {
        let cleared = Ingredient {
            props: c.props,
            is_open: c.is_open,
            state: c.state,
            fetch_task: c.fetch_task.spec_clear(),
        };
        let s = spec_step(cleared, completion_msg(result));
        (s.row, s.render, s.action)
    } else {
        (c, false, None)
    }
}

pub open spec fn completion_msg(result: Result<String, String>) -> Msg {
    match result {
        Ok(_) => Msg::DeleteSuccess,
        Err(_) => Msg::DeleteError,
    }
}

/// One external stimulus to a row: a delivered message or a completion.
pub enum Event {
    Deliver(Msg),
    Completion(u64, Result<String, String>),
}

pub open spec fn apply_event(c: Ingredient, e: Event) -> Ingredient {
    match e {
        Event::Deliver(m) => spec_step(c, m).row,
        Event::Completion(h, result) => spec_complete(c, h, result).0,
    }
}

pub open spec fn run_events(c: Ingredient, es: Seq<Event>) -> Ingredient
    decreases es.len(),
{
    if es.len() == 0 {
        c
    } else {
        run_events(apply_event(c, es[0]), es.drop_first())
    }
}

proof fn lemma_event_bounds(c: Ingredient, e: Event)
    requires
        c.wf(),
        c.fetch_task.next < u64::MAX,
    ensures
        apply_event(c, e).wf(),
        c.fetch_task.next <= apply_event(c, e).fetch_task.next,
        apply_event(c, e).fetch_task.next <= c.fetch_task.next + 1,
{
}

/// Law: however a row is driven, it keeps at most one task handle alive at
/// every point along the way, and its handle bookkeeping stays sound.
pub proof fn lemma_at_most_one_task(c: Ingredient, es: Seq<Event>)
    requires
        c.wf(),
        c.fetch_task.next + es.len() <= u64::MAX,
    ensures
        forall|i: int|
            0 <= i <= es.len() ==> #[trigger] run_events(c, es.take(i)).wf() && run_events(
                c,
                es.take(i),
            ).fetch_task.alive() <= 1,
    decreases es.len(),
{
    assert(es.take(0) =~= Seq::<Event>::empty());
    if es.len() > 0 {
        lemma_event_bounds(c, es[0]);
        let c1 = apply_event(c, es[0]);
        lemma_at_most_one_task(c1, es.drop_first());
        assert forall|i: int| 0 <= i <= es.len() implies #[trigger] run_events(c, es.take(i)).wf()
            && run_events(c, es.take(i)).fetch_task.alive() <= 1 by {
            if i > 0 {
                assert(es.take(i)[0] == es[0]);
                assert(es.take(i).drop_first() =~= es.drop_first().take(i - 1));
                assert(run_events(c1, es.drop_first().take(i - 1)).wf());
            }
        }
    }
}

/// Law: a completion carrying a handle the row does not currently own
/// mutates nothing — no state change, no action, no re-render.
pub proof fn lemma_stale_completion_ignored(c: Ingredient, h: u64, result: Result<String, String>)
    requires
        !c.fetch_task.owns(h),
    ensures
        apply_event(c, Event::Completion(h, result)) == c,
        spec_complete(c, h, result).1 == false,
        spec_complete(c, h, result).2 == None::<Action>,
{
}

/// Law: a superseded handle stays dead: no later event can make it owned
/// again, so its completion is dropped whenever it arrives.
pub proof fn lemma_superseded_stays_stale(c: Ingredient, h: u64, es: Seq<Event>)
    requires
        c.wf(),
        !c.fetch_task.owns(h),
        h < c.fetch_task.next,
        c.fetch_task.next + es.len() <= u64::MAX,
    ensures
        forall|i: int|
            0 <= i <= es.len() ==> !(#[trigger] run_events(c, es.take(i))).fetch_task.owns(h),
    decreases es.len(),
{
    assert(es.take(0) =~= Seq::<Event>::empty());
    if es.len() > 0 {
        lemma_event_bounds(c, es[0]);
        let c1 = apply_event(c, es[0]);
        lemma_superseded_stays_stale(c1, h, es.drop_first());
        assert forall|i: int| 0 <= i <= es.len() implies !(#[trigger] run_events(
            c,
            es.take(i),
        )).fetch_task.owns(h) by {
            if i > 0 {
                assert(es.take(i)[0] == es[0]);
                assert(es.take(i).drop_first() =~= es.drop_first().take(i - 1));
                assert(!run_events(c1, es.drop_first().take(i - 1)).fetch_task.owns(h));
            }
        }
    }
}

/// The closed set of food groups a row knows an emoji for, with a fallback
/// tag for everything else.
#[derive(Clone, Copy, PartialEq, Eq, Debug)]
pub enum FoodGroup {
    Fruits,
    Vegetables,
    HerbsAndSpices,
    Nuts,
    Cereals,
    Gourds,
    Soy,
    Pulses,
    AquaticFoods,
    AnimalFoods,
    Beverages,
    Confectioneries,
    BakingGoods,
    MilkProducts,
    FatsAndOils,
    Cocoa,
    Dishes,
    SnackFoods,
    Teas,
    Eggs,
    BabyFoods,
    Coffee,
    Other,
}

/// Which tag a group name denotes; unknown names fall back to `Other`.
pub open spec fn spec_group_tag(g: Seq<char>) -> FoodGroup {
    if g == "Fruits"@ {
        FoodGroup::Fruits
    } else if g == "Vegetables"@ {
        FoodGroup::Vegetables
    } else if g == "Herbs and Spices"@ {
        FoodGroup::HerbsAndSpices
    } else if g == "Nuts"@ {
        FoodGroup::Nuts
    } else if g == "Cereals and cereal products"@ {
        FoodGroup::Cereals
    } else if g == "Gourds"@ {
        FoodGroup::Gourds
    } else if g == "Soy"@ {
        FoodGroup::Soy
    } else if g == "Pulses"@ {
        FoodGroup::Pulses
    } else if g == "Aquatic foods"@ {
        FoodGroup::AquaticFoods
    } else if g == "Animal foods"@ {
        FoodGroup::AnimalFoods
    } else if g == "Beverages"@ {
        FoodGroup::Beverages
    } else if g == "Confectioneries"@ {
        FoodGroup::Confectioneries
    } else if g == "Baking goods"@ {
        FoodGroup::BakingGoods
    } else if g == "Milk and milk products"@ {
        FoodGroup::MilkProducts
    } else if g == "Fats and oils"@ {
        FoodGroup::FatsAndOils
    } else if g == "Cocoa and cocoa products"@ {
        FoodGroup::Cocoa
    } else if g == "Dishes"@ {
        FoodGroup::Dishes
    } else if g == "Snack foods"@ {
        FoodGroup::SnackFoods
    } else if g == "Teas"@ {
        FoodGroup::Teas
    } else if g == "Eggs"@ {
        FoodGroup::Eggs
    } else if g == "Baby foods"@ {
        FoodGroup::BabyFoods
    } else if g == "Coffee and coffee products"@ {
        FoodGroup::Coffee
    } else {
        FoodGroup::Other
    }
}

/// The emoji each tag renders as; `Other` gets the explicit fallback.
pub open spec fn spec_emoji(t: FoodGroup) -> Seq<char> {
    match t {
        FoodGroup::Fruits => "\u{1F34C}"@,
        FoodGroup::Vegetables => "\u{1F966}"@,
        FoodGroup::HerbsAndSpices => "\u{1F9C2}"@,
        FoodGroup::Nuts => "\u{1F95C}"@,
        FoodGroup::Cereals => "\u{1F33E}"@,
        FoodGroup::Gourds => "\u{1F952}"@,
        FoodGroup::Soy => "\u{1F33E}"@,
        FoodGroup::Pulses => "\u{1F33E}"@,
        FoodGroup::AquaticFoods => "\u{1F41F}"@,
        FoodGroup::AnimalFoods => "\u{1F969}"@,
        FoodGroup::Beverages => "\u{1F379}"@,
        FoodGroup::Confectioneries => "\u{1F36C}"@,
        FoodGroup::BakingGoods => "\u{1F370}"@,
        FoodGroup::MilkProducts => "\u{1F9C0}"@,
        FoodGroup::FatsAndOils => "\u{1F6E2}"@,
        FoodGroup::Cocoa => "\u{1F36B}"@,
        FoodGroup::Dishes => "\u{1F374}"@,
        FoodGroup::SnackFoods => "\u{1F371}"@,
        FoodGroup::Teas => "\u{2615}"@,
        FoodGroup::Eggs => "\u{1F95A}"@,
        FoodGroup::BabyFoods => "\u{1F476}"@,
        FoodGroup::Coffee => "\u{2615}"@,
        FoodGroup::Other => "\u{274C}"@,
    }
}

/// Parse a group name into its tag.
pub fn group_tag(g: &str) -> (t: FoodGroup)
    ensures
        t == spec_group_tag(g@),
{
    if str_eq(g, "Fruits") {
        FoodGroup::Fruits
    } else if str_eq(g, "Vegetables") {
        FoodGroup::Vegetables
    } else if str_eq(g, "Herbs and Spices") {
        FoodGroup::HerbsAndSpices
    } else if str_eq(g, "Nuts") {
        FoodGroup::Nuts
    } else if str_eq(g, "Cereals and cereal products") {
        FoodGroup::Cereals
    } else if str_eq(g, "Gourds") {
        FoodGroup::Gourds
    } else if str_eq(g, "Soy") {
        FoodGroup::Soy
    } else if str_eq(g, "Pulses") {
        FoodGroup::Pulses
    } else if str_eq(g, "Aquatic foods") {
        FoodGroup::AquaticFoods
    } else if str_eq(g, "Animal foods") {
        FoodGroup::AnimalFoods
    } else if str_eq(g, "Beverages") {
        FoodGroup::Beverages
    } else if str_eq(g, "Confectioneries") {
        FoodGroup::Confectioneries
    } else if str_eq(g, "Baking goods") {
        FoodGroup::BakingGoods
    } else if str_eq(g, "Milk and milk products") {
        FoodGroup::MilkProducts
    } else if str_eq(g, "Fats and oils") {
        FoodGroup::FatsAndOils
    } else if str_eq(g, "Cocoa and cocoa products") {
        FoodGroup::Cocoa
    } else if str_eq(g, "Dishes") {
        FoodGroup::Dishes
    } else if str_eq(g, "Snack foods") {
        FoodGroup::SnackFoods
    } else if str_eq(g, "Teas") {
        FoodGroup::Teas
    } else if str_eq(g, "Eggs") {
        FoodGroup::Eggs
    } else if str_eq(g, "Baby foods") {
        FoodGroup::BabyFoods
    } else if str_eq(g, "Coffee and coffee products") {
        FoodGroup::Coffee
    } else {
        FoodGroup::Other
    }
}

/// The rendering value of one tag.
pub fn emoji(t: FoodGroup) -> (e: &'static str)
    ensures
        e@ == spec_emoji(t),
{
    match t {
        FoodGroup::Fruits => "\u{1F34C}",
        FoodGroup::Vegetables => "\u{1F966}",
        FoodGroup::HerbsAndSpices => "\u{1F9C2}",
        FoodGroup::Nuts => "\u{1F95C}",
        FoodGroup::Cereals => "\u{1F33E}",
        FoodGroup::Gourds => "\u{1F952}",
        FoodGroup::Soy => "\u{1F33E}",
        FoodGroup::Pulses => "\u{1F33E}",
        FoodGroup::AquaticFoods => "\u{1F41F}",
        FoodGroup::AnimalFoods => "\u{1F969}",
        FoodGroup::Beverages => "\u{1F379}",
        FoodGroup::Confectioneries => "\u{1F36C}",
        FoodGroup::BakingGoods => "\u{1F370}",
        FoodGroup::MilkProducts => "\u{1F9C0}",
        FoodGroup::FatsAndOils => "\u{1F6E2}",
        FoodGroup::Cocoa => "\u{1F36B}",
        FoodGroup::Dishes => "\u{1F374}",
        FoodGroup::SnackFoods => "\u{1F371}",
        FoodGroup::Teas => "\u{2615}",
        FoodGroup::Eggs => "\u{1F95A}",
        FoodGroup::BabyFoods => "\u{1F476}",
        FoodGroup::Coffee => "\u{2615}",
        FoodGroup::Other => "\u{274C}",
    }
}

/// The emoji a group name renders as.
pub fn food_emoji(g: &str) -> (e: &'static str)
    ensures
        e@ == spec_emoji(spec_group_tag(g@)),
{
    emoji(group_tag(g))
}

} // verus!
