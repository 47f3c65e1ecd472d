//! The pipeline layout: the descriptor set layouts that the pipeline sees.

use vstd::prelude::*;
use crate::handle_list::{LayoutList, layout_list_as_slice, layout_list_items, layout_list_len,
    layout_list_new, layout_list_push};

verus! {

/// Everything that the creation of the pipeline layout is told.
pub struct PipelineLayout {
    pub set_layout_count: u32,
    /// The descriptor set layouts, in the order of their set numbers.
    pub set_layouts: LayoutList,
    pub push_constant_range_count: u32,
}

impl PipelineLayout {
    /// The descriptor set layouts of the pipeline layout.
    pub open spec fn set_layouts_view(&self) -> Seq<u64> {
        layout_list_items(self.set_layouts)
    }

    /// Describes a pipeline layout over the given descriptor set layout, or
    /// over none, without push constants.
    pub fn new(descriptor_set_layout: Option<u64>) -> (layout: PipelineLayout)
        ensures
            layout.set_layouts_view() == (match descriptor_set_layout {
                Some(handle) => seq![handle],
                None => Seq::<u64>::empty(),
            }),
            layout.set_layout_count == layout.set_layouts_view().len(),
            layout.push_constant_range_count == 0,
    {
        let mut layouts = layout_list_new();
        match descriptor_set_layout {
            Some(handle) => {
                layout_list_push(&mut layouts, handle);
            },
            None => {},
        }
        let count = layout_list_len(&layouts);
        proof {
            if descriptor_set_layout is Some {
                assert(layout_list_items(layouts) =~= seq![descriptor_set_layout->Some_0]);
            }
        }
        PipelineLayout {
            set_layout_count: count as u32,
            set_layouts: layouts,
            push_constant_range_count: 0,
        }
    }

    /// The descriptor set layouts, in the order of their set numbers.
    pub fn set_layouts(&self) -> (layouts: &[u64])
        ensures
            layouts@ == self.set_layouts_view(),
    {
        layout_list_as_slice(&self.set_layouts)
    }
}

} // verus!
