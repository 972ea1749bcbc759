use vstd::prelude::*;

use crate::anim::InkAnimSequence;
use crate::layout::Flags;
use crate::scalar::{CName, HandleId, ResourcePath};
use crate::tree::{
    classname_from, indices_from, inkWidgetLibraryItemInstance, names_from, TreeError, WidgetTree,
};
use crate::widget::{InkWrapper, Widget};

verus! {

broadcast use vstd::std_specs::vec::group_vec_axioms;

/// versioned contents of an exported document
#[derive(Debug)]
pub struct Data<T> {
    pub version: usize,
    pub build_version: usize,
    pub root_chunk: T,
}

/// contents of a library item's package
#[derive(Debug)]
pub struct PackageData {
    pub file: Data<inkWidgetLibraryItemInstance>,
}

/// package of a library item
#[derive(Debug)]
pub struct Package {
    pub data: PackageData,
}

/// see [NativeDB](https://nativedb.red4ext.com/inkWidgetLibraryItem)
#[allow(non_camel_case_types)]
#[derive(Debug)]
pub struct inkWidgetLibraryItem {
    pub name: CName,
    pub package: Package,
}

/// see [NativeDB](https://nativedb.red4ext.com/inkanimAnimationLibraryResource)
#[allow(non_camel_case_types)]
#[derive(Debug)]
pub struct inkanimAnimationLibraryResource {
    pub depot_path: ResourcePath,
    pub flags: Flags,
}

/// see [NativeDB](https://nativedb.red4ext.com/inkWidgetLibraryResource)
#[allow(non_camel_case_types)]
#[derive(Debug)]
pub struct inkWidgetLibraryResource {
    pub animation_library_res_ref: inkanimAnimationLibraryResource,
    pub library_items: Vec<inkWidgetLibraryItem>,
}

impl inkWidgetLibraryResource {
    /// The first library item, the one that holds the root widget.
    pub fn root(&self) -> (r: &inkWidgetLibraryItem)
        requires
            self.library_items@.len() > 0,
        ensures
            *r == self.library_items@[0],
    {
        &self.library_items[0]
    }

    /// The widget tree of the first library item.
    pub fn root_chunk(&self) -> (r: &inkWidgetLibraryItemInstance)
        requires
            self.library_items@.len() > 0,
        ensures
            *r == self.library_items@[0].package.data.file.root_chunk,
    {
        &self.root().package.data.file.root_chunk
    }
}

impl WidgetTree for inkWidgetLibraryResource {
    open spec fn spec_tree_root(&self) -> Option<Widget> {
        if self.library_items@.len() > 0 {
            Some(self.library_items@[0].package.data.file.root_chunk.root_widget.data)
        } else {
            None
        }
    }

    fn get_widget_classname(&self, path: &[usize]) -> (r: Result<Option<String>, TreeError>) {
        if self.library_items.len() == 0 {
            return Err(TreeError::MissingRoot);
        }
        classname_from(&self.root_chunk().root_widget.data, path)
    }

    fn get_path_names(&self, path: &[usize]) -> (r: Result<Option<Vec<String>>, TreeError>) {
        if self.library_items.len() == 0 {
            return Err(TreeError::MissingRoot);
        }
        names_from(&self.root_chunk().root_widget.data, path)
    }

    fn get_path_indexes(&self, path: &[String]) -> (r: Result<Option<Vec<usize>>, TreeError>) {
        if self.library_items.len() == 0 {
            return Err(TreeError::MissingRoot);
        }
        indices_from(&self.root_chunk().root_widget.data, path)
    }
}

/// widget aggregated informations summary
#[allow(non_snake_case)]
#[derive(Debug)]
pub struct WidgetSummary {
    /// unique handle ID
    pub HandleId: HandleId,
    /// widget name
    pub Name: CName,
}

/// The handle IDs and names of the named children among `cs[0..n]`.
pub open spec fn named_children(cs: Seq<InkWrapper<Widget>>, n: int) -> Seq<(HandleId, Seq<char>)>
    decreases n,
{
    if n <= 0 {
        Seq::empty()
    } else {
        let rest = named_children(cs, n - 1);
        match cs[n - 1].data.spec_name() {
            Some(name) => rest.push((cs[n - 1].handle_id, name)),
            None => rest,
        }
    }
}

/// The contents of widget summaries.
pub open spec fn summaries_of(v: Seq<WidgetSummary>) -> Seq<(HandleId, Seq<char>)> {
    v.map_values(|s: WidgetSummary| (s.HandleId, s.Name.0@))
}

/// Summaries of the children of a widget.
pub trait Leaves {
    spec fn spec_leaves(&self) -> Seq<(HandleId, Seq<char>)>;

    /// The handle ID and name of each named child, in declaration order.
    fn leaves(&self) -> (r: Vec<WidgetSummary>)
        ensures
            summaries_of(r@) == self.spec_leaves(),
    ;
}

impl Leaves for Widget {
    open spec fn spec_leaves(&self) -> Seq<(HandleId, Seq<char>)> {
        named_children(self.spec_children(), self.spec_children().len() as int)
    }

    fn leaves(&self) -> (r: Vec<WidgetSummary>) {
        let mut out: Vec<WidgetSummary> = Vec::new();
        let cs = match self.children() {
            None => {
                return out;
            },
            Some(cs) => cs,
        };
        let mut i: usize = 0;
        while i < cs.len()
            invariant
                i <= cs@.len(),
                cs@ == self.spec_children(),
                summaries_of(out@) == named_children(cs@, i as int),
            decreases cs@.len() - i,
        {
            let ghost before = out@;
            match cs[i].data.name_string() {
                Some(name) => {
                    out.push(WidgetSummary { HandleId: cs[i].handle_id, Name: CName(name.clone()) });
                    assert(summaries_of(out@) =~= summaries_of(before).push(
                        (cs@[i as int].handle_id, name@),
                    ));
                },
                None => {},
            }
            i = i + 1;
        }
        out
    }
}

impl InkAnimSequence {
    /// Definitions and targets pair up by position: there are as many of each.
    pub fn is_well_formed(&self) -> (r: bool)
        ensures
            r == (self.definitions@.len() == self.targets@.len()),
    {
        self.definitions.len() == self.targets.len()
    }
}

/// How results are written out.
#[derive(Debug, Clone, Copy, PartialEq, Eq)]
pub enum Output {
    Table,
    Json,
    Reds,
}

} // verus!
