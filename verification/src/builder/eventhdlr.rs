use vstd::prelude::*;
use crate::builder::{name_or_empty, no_nul, opt_view, str_or_empty, CanBeAddedToModel};
use crate::eventhdlr::Eventhdlr;
use crate::model::{Model, ProblemCreated};
use crate::scip::{c_string_ok, CallView};

verus! {

/// A builder for easily creating event handlers. It can be created using the
/// `eventhdlr` function.
pub struct EventHdlrBuilder<E: Eventhdlr> {
    name: Option<String>,
    desc: Option<String>,
    eventhdlr: E,
}

impl<E: Eventhdlr> EventHdlrBuilder<E> {
    /// The name set so far, if any.
    pub closed spec fn name_view(&self) -> Option<Seq<char>> {
        opt_view(self.name)
    }

    /// The description set so far, if any.
    pub closed spec fn desc_view(&self) -> Option<Seq<char>> {
        opt_view(self.desc)
    }

    /// The event handler being built.
    pub closed spec fn handler(&self) -> E {
        self.eventhdlr
    }

    /// Creates a new `EventHdlrBuilder` with the given event handler.
    ///
    /// # Defaults
    /// - `name`: empty string
    /// - `desc`: empty string
    pub fn new(eventhdlr: E) -> (b: Self)
        ensures
            b.name_view() is None,
            b.desc_view() is None,
            b.handler() == eventhdlr,
    {
        EventHdlrBuilder { name: None, desc: None, eventhdlr }
    }

    /// Sets the name of the event handler.
    pub fn name(self, name: &str) -> (b: Self)
        ensures
            b.name_view() == Some(name@),
            b.desc_view() == self.desc_view(),
            b.handler() == self.handler(),
    {
        EventHdlrBuilder { name: Some(name.to_owned()), desc: self.desc, eventhdlr: self.eventhdlr }
    }

    /// Sets the description of the event handler.
    pub fn desc(self, desc: &str) -> (b: Self)
        ensures
            b.desc_view() == Some(desc@),
            b.name_view() == self.name_view(),
            b.handler() == self.handler(),
    {
        EventHdlrBuilder { name: self.name, desc: Some(desc.to_owned()), eventhdlr: self.eventhdlr }
    }
}

/// Creates a new default `EventHdlrBuilder` from an event handler.
pub fn eventhdlr<E: Eventhdlr>(ev: E) -> (b: EventHdlrBuilder<E>)
    ensures
        b.name_view() is None,
        b.desc_view() is None,
        b.handler() == ev,
{
    EventHdlrBuilder::new(ev)
}

impl<E: Eventhdlr> CanBeAddedToModel for EventHdlrBuilder<E> {
    type Return = E;

    /// Includes the event handler in the model, named and described as set
    /// (empty strings where nothing was set), and hands the handler back for
    /// its callbacks to be attached.
    open spec fn can_be_added(&self) -> bool {
        c_string_ok(name_or_empty(self.name_view())) && c_string_ok(name_or_empty(self.desc_view()))
    }

    open spec fn hands_back(&self, r: Self::Return) -> bool {
        r == self.handler()
    }

    open spec fn add_calls(&self) -> Seq<CallView> {
        seq![
            CallView::IncludeEventhdlr {
                name: name_or_empty(self.name_view()),
                desc: name_or_empty(self.desc_view()),
            },
        ]
    }

    fn addable(&self) -> (b: bool) {
        no_nul(str_or_empty(&self.name)) && no_nul(str_or_empty(&self.desc))
    }

    fn add(self, model: &mut Model<ProblemCreated>) -> (e: E)
        ensures
            e == self.handler(),
            final(model).handle() == old(model).handle(),
            final(model).owns_instance() == old(model).owns_instance(),
            final(model).log() == old(model).log().push(
                CallView::IncludeEventhdlr {
                    name: name_or_empty(self.name_view()),
                    desc: name_or_empty(self.desc_view()),
                },
            ),
    {
        let ghost before = model.log();
        model.include_eventhdlr(str_or_empty(&self.name), str_or_empty(&self.desc));
        assert(model.log() =~= before + self.add_calls());
        self.eventhdlr
    }
}

} // verus!
