//! The component stack of the container example: the render graph of each
//! component, at the index that the component remembers.
use vstd::prelude::*;

verus! {

/// The render graphs of the components, in drawing order; `G` is the graph type.
pub struct GlobalState<G> {
    pub comp_grap_stack: Vec<G>,
}

impl<G> GlobalState<G> {
    /// An empty stack.
    pub fn new() -> (s: Self)
        ensures
            s.comp_grap_stack@ == Seq::<G>::empty(),
    {
        GlobalState { comp_grap_stack: Vec::new() }
    }

    /// Adds the graph of a component that remembers `index` (if it was added
    /// before). The first graph and the graph of a component without an index
    /// go on top and the component learns its index, which is returned. A
    /// component with an index has its graph inserted at that index, and
    /// keeps it (`None` is returned). The index must not be past the top.
    pub fn add_comp(&mut self, index: Option<usize>, graph: G) -> (new_index: Option<usize>)
        requires
            old(self).comp_grap_stack@.len() > 0 && index is Some ==> index.unwrap()
                <= old(self).comp_grap_stack@.len(),
        ensures
            old(self).comp_grap_stack@.len() == 0 ==> final(self).comp_grap_stack@ == seq![graph]
                && new_index == Some(0usize),
            old(self).comp_grap_stack@.len() > 0 && index is Some ==> final(self).comp_grap_stack@
                == old(self).comp_grap_stack@.insert(index.unwrap() as int, graph) && new_index
                is None,
            old(self).comp_grap_stack@.len() > 0 && index is None ==> final(self).comp_grap_stack@
                == old(self).comp_grap_stack@.push(graph) && new_index == Some(
                old(self).comp_grap_stack@.len() as usize,
            ),
    {
        if self.comp_grap_stack.len() == 0 {
            self.comp_grap_stack.push(graph);
            assert(self.comp_grap_stack@ =~= seq![graph]);
            Some(self.comp_grap_stack.len() - 1)
        } else {
            match index {
                Some(i) => {
                    self.comp_grap_stack.insert(i, graph);
                    None
                },
                None => {
                    self.comp_grap_stack.push(graph);
                    Some(self.comp_grap_stack.len() - 1)
                },
            }
        }
    }
}

} // verus!
