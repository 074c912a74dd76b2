use vstd::prelude::*;
use crate::builder::{name_or_empty, no_nul, opt_view, str_or_empty, CanBeAddedToModel};
use crate::model::{Model, ProblemCreated};
use crate::pricer::IncludedPricer;
use crate::result::scip_bool;
use crate::scip::{c_string_ok, CallView};

verus! {

/// A builder for easily creating pricers. It can be created using the
/// `pricer` function. `P` is the pricer, whose callbacks the runtime attaches.
pub struct PricerBuilder<P> {
    name: Option<String>,
    desc: Option<String>,
    priority: i32,
    delay: bool,
    pricer: P,
}

impl<P> PricerBuilder<P> {
    /// The name set so far, if any.
    pub closed spec fn name_view(&self) -> Option<Seq<char>> {
        opt_view(self.name)
    }

    /// The description set so far, if any.
    pub closed spec fn desc_view(&self) -> Option<Seq<char>> {
        opt_view(self.desc)
    }

    /// The priority.
    pub closed spec fn priority_view(&self) -> i32 {
        self.priority
    }

    /// Whether the pricer is delayed.
    pub closed spec fn delay_view(&self) -> bool {
        self.delay
    }

    /// The pricer being built.
    pub closed spec fn pricer_view(&self) -> P {
        self.pricer
    }

    /// Creates a new `PricerBuilder` with the given pricer.
    ///
    /// Defaults:
    /// - `priority`: 0
    /// - `delay`: false
    pub fn new(pricer: P) -> (b: Self)
        ensures
            b.name_view() is None,
            b.desc_view() is None,
            b.priority_view() == 0,
            !b.delay_view(),
            b.pricer_view() == pricer,
    {
        PricerBuilder { name: None, desc: None, priority: 0, delay: false, pricer }
    }

    /// Sets the name of the pricer.
    pub fn name(self, name: &str) -> (b: Self)
        ensures
            b.name_view() == Some(name@),
            b.desc_view() == self.desc_view(),
            b.priority_view() == self.priority_view(),
            b.delay_view() == self.delay_view(),
            b.pricer_view() == self.pricer_view(),
    {
        PricerBuilder { name: Some(name.to_owned()), ..self }
    }

    /// Sets the description of the pricer.
    pub fn desc(self, desc: &str) -> (b: Self)
        ensures
            b.desc_view() == Some(desc@),
            b.name_view() == self.name_view(),
            b.priority_view() == self.priority_view(),
            b.delay_view() == self.delay_view(),
            b.pricer_view() == self.pricer_view(),
    {
        PricerBuilder { desc: Some(desc.to_owned()), ..self }
    }

    /// Sets the priority of the pricer.
    ///
    /// When SCIP decides which pricer to call, it considers their
    /// priorities. A higher value indicates a higher priority.
    pub fn priority(self, priority: i32) -> (b: Self)
        ensures
            b.priority_view() == priority,
            b.name_view() == self.name_view(),
            b.desc_view() == self.desc_view(),
            b.delay_view() == self.delay_view(),
            b.pricer_view() == self.pricer_view(),
    {
        PricerBuilder { priority, ..self }
    }

    /// Sets whether the pricer should be delayed.
    ///
    /// If true, the pricer is only called when no other pricers or already
    /// existing problem variables with negative reduced costs are found.
    pub fn delay(self, delay: bool) -> (b: Self)
        ensures
            b.delay_view() == delay,
            b.name_view() == self.name_view(),
            b.desc_view() == self.desc_view(),
            b.priority_view() == self.priority_view(),
            b.pricer_view() == self.pricer_view(),
    {
        PricerBuilder { delay, ..self }
    }
}

/// Creates a new default `PricerBuilder` from a pricer.
pub fn pricer<P>(p: P) -> (b: PricerBuilder<P>)
    ensures
        b.name_view() is None,
        b.desc_view() is None,
        b.priority_view() == 0,
        !b.delay_view(),
        b.pricer_view() == p,
{
    PricerBuilder::new(p)
}

impl<P> CanBeAddedToModel for PricerBuilder<P> {
    type Return = IncludedPricer<P>;

    /// The name and description can be handed to SCIP.
    open spec fn can_be_added(&self) -> bool {
        c_string_ok(name_or_empty(self.name_view())) && c_string_ok(name_or_empty(self.desc_view()))
    }

    /// Includes and activates the pricer in the model with the settings made
    /// (empty strings where no name or description was set), and hands the
    /// pricer back paired with the name it was included under, for its
    /// callbacks to be attached.
    open spec fn hands_back(&self, r: Self::Return) -> bool {
        r.name() == name_or_empty(self.name_view()) && r.pricer() == self.pricer_view()
    }

    open spec fn add_calls(&self) -> Seq<CallView> {
        seq![
            CallView::IncludePricer {
                name: name_or_empty(self.name_view()),
                desc: name_or_empty(self.desc_view()),
                priority: self.priority_view(),
                delay: scip_bool(self.delay_view()),
            },
            CallView::ActivatePricer { name: name_or_empty(self.name_view()) },
        ]
    }

    fn addable(&self) -> (b: bool) {
        no_nul(str_or_empty(&self.name)) && no_nul(str_or_empty(&self.desc))
    }

    fn add(self, model: &mut Model<ProblemCreated>) -> (p: IncludedPricer<P>)
        ensures
            p.name() == name_or_empty(self.name_view()),
            p.pricer() == self.pricer_view(),
            final(model).handle() == old(model).handle(),
            final(model).owns_instance() == old(model).owns_instance(),
            final(model).log() == old(model).log().push(
                CallView::IncludePricer {
                    name: name_or_empty(self.name_view()),
                    desc: name_or_empty(self.desc_view()),
                    priority: self.priority_view(),
                    delay: scip_bool(self.delay_view()),
                },
            ).push(CallView::ActivatePricer { name: name_or_empty(self.name_view()) }),
    {
        let ghost before = model.log();
        let p = model.include_pricer(
            str_or_empty(&self.name),
            str_or_empty(&self.desc),
            self.priority,
            self.delay,
            self.pricer,
        );
        assert(model.log() =~= before + self.add_calls());
        p
    }
}

} // verus!
