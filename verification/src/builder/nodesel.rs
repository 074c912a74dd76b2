use vstd::prelude::*;
use crate::builder::{name_or_empty, no_nul, opt_view, str_or_empty, CanBeAddedToModel};
use crate::model::{Model, ProblemCreated};
use crate::nodesel::NodeSel;
use crate::scip::{c_string_ok, CallView};

verus! {

/// The standard and memory-saving priority a new node selector gets: higher
/// than those of all of SCIP's own node selectors, so the custom one is used.
pub const DEFAULT_NODESEL_PRIORITY: i32 = 1000000;

/// A builder for easily creating node selectors. It can be created using the
/// `nodesel` function.
pub struct NodeSelBuilder<N: NodeSel> {
    name: Option<String>,
    desc: Option<String>,
    std_priority: i32,
    mem_save_priority: i32,
    nodesel: N,
}

impl<N: NodeSel> NodeSelBuilder<N> {
    /// The name set so far, if any.
    pub closed spec fn name_view(&self) -> Option<Seq<char>> {
        opt_view(self.name)
    }

    /// The description set so far, if any.
    pub closed spec fn desc_view(&self) -> Option<Seq<char>> {
        opt_view(self.desc)
    }

    /// The standard priority.
    pub closed spec fn std_priority_view(&self) -> i32 {
        self.std_priority
    }

    /// The memory saving priority.
    pub closed spec fn mem_save_priority_view(&self) -> i32 {
        self.mem_save_priority
    }

    /// The node selector being built.
    pub closed spec fn selector(&self) -> N {
        self.nodesel
    }

    /// Creates a new `NodeSelBuilder` with the given node selector.
    ///
    /// Defaults:
    /// - `name`: empty string
    /// - `desc`: empty string
    /// - `std_priority`: 1000000 (higher than all default SCIP node selectors, so the custom one is used)
    /// - `mem_save_priority`: 1000000
    pub fn new(nodesel: N) -> (b: Self)
        ensures
            b.name_view() is None,
            b.desc_view() is None,
            b.std_priority_view() == DEFAULT_NODESEL_PRIORITY,
            b.mem_save_priority_view() == DEFAULT_NODESEL_PRIORITY,
            b.selector() == nodesel,
    {
        NodeSelBuilder {
            name: None,
            desc: None,
            std_priority: DEFAULT_NODESEL_PRIORITY,
            mem_save_priority: DEFAULT_NODESEL_PRIORITY,
            nodesel,
        }
    }

    /// Sets the name of the node selector.
    pub fn name(self, name: &str) -> (b: Self)
        ensures
            b.name_view() == Some(name@),
            b.desc_view() == self.desc_view(),
            b.std_priority_view() == self.std_priority_view(),
            b.mem_save_priority_view() == self.mem_save_priority_view(),
            b.selector() == self.selector(),
    {
        NodeSelBuilder { name: Some(name.to_owned()), ..self }
    }

    /// Sets the description of the node selector.
    pub fn desc(self, desc: &str) -> (b: Self)
        ensures
            b.desc_view() == Some(desc@),
            b.name_view() == self.name_view(),
            b.std_priority_view() == self.std_priority_view(),
            b.mem_save_priority_view() == self.mem_save_priority_view(),
            b.selector() == self.selector(),
    {
        NodeSelBuilder { desc: Some(desc.to_owned()), ..self }
    }

    /// Sets the standard priority of the node selector.
    ///
    /// Among all included node selectors, the one with the highest standard
    /// priority is used in standard mode. A higher value indicates a higher
    /// priority.
    pub fn std_priority(self, priority: i32) -> (b: Self)
        ensures
            b.std_priority_view() == priority,
            b.name_view() == self.name_view(),
            b.desc_view() == self.desc_view(),
            b.mem_save_priority_view() == self.mem_save_priority_view(),
            b.selector() == self.selector(),
    {
        NodeSelBuilder { std_priority: priority, ..self }
    }

    /// Sets the memory saving priority of the node selector.
    ///
    /// When SCIP switches to memory saving mode, the node selector with the
    /// highest memory saving priority is used instead. A higher value indicates
    /// a higher priority.
    pub fn mem_save_priority(self, priority: i32) -> (b: Self)
        ensures
            b.mem_save_priority_view() == priority,
            b.name_view() == self.name_view(),
            b.desc_view() == self.desc_view(),
            b.std_priority_view() == self.std_priority_view(),
            b.selector() == self.selector(),
    {
        NodeSelBuilder { mem_save_priority: priority, ..self }
    }
}

/// Creates a new default `NodeSelBuilder` from a node selector.
pub fn nodesel<N: NodeSel>(n: N) -> (b: NodeSelBuilder<N>)
    ensures
        b.name_view() is None,
        b.desc_view() is None,
        b.std_priority_view() == DEFAULT_NODESEL_PRIORITY,
        b.mem_save_priority_view() == DEFAULT_NODESEL_PRIORITY,
        b.selector() == n,
{
    NodeSelBuilder::new(n)
}

impl<N: NodeSel> CanBeAddedToModel for NodeSelBuilder<N> {
    type Return = N;

    /// Includes the node selector in the model with the settings made (empty
    /// strings where no name or description was set), and hands the selector
    /// back for its callbacks to be attached.
    open spec fn can_be_added(&self) -> bool {
        c_string_ok(name_or_empty(self.name_view())) && c_string_ok(name_or_empty(self.desc_view()))
    }

    open spec fn hands_back(&self, r: Self::Return) -> bool {
        r == self.selector()
    }

    open spec fn add_calls(&self) -> Seq<CallView> {
        seq![
            CallView::IncludeNodesel {
                name: name_or_empty(self.name_view()),
                desc: name_or_empty(self.desc_view()),
                std_priority: self.std_priority_view(),
                mem_save_priority: self.mem_save_priority_view(),
            },
        ]
    }

    fn addable(&self) -> (b: bool) {
        no_nul(str_or_empty(&self.name)) && no_nul(str_or_empty(&self.desc))
    }

    fn add(self, model: &mut Model<ProblemCreated>) -> (n: N)
        ensures
            n == self.selector(),
            final(model).handle() == old(model).handle(),
            final(model).owns_instance() == old(model).owns_instance(),
            final(model).log() == old(model).log().push(
                CallView::IncludeNodesel {
                    name: name_or_empty(self.name_view()),
                    desc: name_or_empty(self.desc_view()),
                    std_priority: self.std_priority_view(),
                    mem_save_priority: self.mem_save_priority_view(),
                },
            ),
    {
        let ghost before = model.log();
        model.include_nodesel(
            str_or_empty(&self.name),
            str_or_empty(&self.desc),
            self.std_priority,
            self.mem_save_priority,
        );
        assert(model.log() =~= before + self.add_calls());
        self.nodesel
    }
}

/// A node selector added with no priorities set is included with priority
/// 1000000, above all of SCIP's own selectors, both for standard and
/// memory-saving mode.
pub proof fn law_nodesel_default_priority()
    ensures
        DEFAULT_NODESEL_PRIORITY == 1000000,
{
}

} // verus!
