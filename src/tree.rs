use vstd::prelude::*;

use crate::scalar::lines_view;
use crate::widget::{InkWrapper, Widget};

verus! {

broadcast use vstd::std_specs::vec::group_vec_axioms;

/// A document that breaks the shape the tree model relies on: the fatal
/// class of failures, kept apart from a path that is merely not found
/// (`Ok(None)`). The library never panics; a caller that meets one of these
/// aborts its processing of the document.
#[derive(Debug, Clone, Copy, PartialEq, Eq)]
pub enum TreeError {
    /// The wrapper of children stands, at this index, where a named widget
    /// was expected.
    UnexpectedMultiChildren(usize),
    /// The widget library holds no item, so there is no root widget.
    MissingRoot,
}

impl Widget {
    /// The children of the widget, seen through the wrapper of a compound
    /// widget; a leaf has none.
    pub open spec fn spec_children(&self) -> Seq<InkWrapper<Widget>> {
        match *self {
            Widget::inkMultiChildren(m) => m.children@,
            _ => match self.spec_compound() {
                Some(c) => c.children.data.children@,
                None => Seq::empty(),
            },
        }
    }

    /// The wrapper of children, which has no name of its own.
    pub open spec fn spec_is_wrapper(&self) -> bool {
        *self is inkMultiChildren
    }

    /// A compound widget owns children behind a wrapper.
    pub open spec fn spec_is_compound(&self) -> bool {
        self.spec_compound() is Some
    }

    /// The declared name, empty for the wrapper of children.
    pub open spec fn spec_name_text(&self) -> Seq<char> {
        match self.spec_name() {
            Some(n) => n,
            None => Seq::empty(),
        }
    }

    /// The declared name; the wrapper of children has none.
    pub fn name(&self) -> (r: Option<&str>)
        ensures
            r is None <==> self.spec_name() is None,
            r matches Some(s) ==> self.spec_name() == Some(s@),
    {
        match self.name_string() {
            Some(n) => Some(n.as_str()),
            None => None,
        }
    }

    pub fn is_leaf(&self) -> (r: bool)
        ensures
            r == self.spec_is_leaf(),
    {
        match self {
            Widget::inkMultiChildren(_) => false,
            _ => self.as_compound().is_none(),
        }
    }

    pub fn is_compound(&self) -> (r: bool)
        ensures
            r == self.spec_is_compound(),
    {
        self.as_compound().is_some()
    }

    pub fn is_wrapper(&self) -> (r: bool)
        ensures
            r == self.spec_is_wrapper(),
    {
        matches!(self, Widget::inkMultiChildren(_))
    }

    /// The children of a compound widget or of the wrapper; `None` for a leaf.
    pub fn children(&self) -> (r: Option<&Vec<InkWrapper<Widget>>>)
        ensures
            r is None <==> self.spec_is_leaf(),
            r matches Some(v) ==> v@ == self.spec_children(),
    {
        match self {
            Widget::inkMultiChildren(m) => Some(&m.children),
            _ => match self.as_compound() {
                Some(c) => Some(&c.children.data.children),
                None => None,
            },
        }
    }

    /// The child at a structural position; not found when the index is out
    /// of range or the widget is a leaf.
    pub fn by_index(&self, idx: usize) -> (r: Option<&Widget>)
        ensures
            self.spec_is_leaf() ==> r is None,
            !self.spec_is_leaf() ==> (r is Some <==> idx < self.spec_children().len()),
            !self.spec_is_leaf() && idx < self.spec_children().len() ==> r == Some(
                &self.spec_children()[idx as int].data,
            ),
    {
        match self.children() {
            None => None,
            Some(cs) => if idx < cs.len() {
                Some(&cs[idx].data)
            } else {
                None
            },
        }
    }

    /// The first child whose declared name is `name`, with its index.
    pub fn by_name(&self, name: &String) -> (r: Result<Option<(usize, &Widget)>, TreeError>)
        ensures
            match first_named(self.spec_children(), name@, 0) {
                Ok(Some(i)) => r matches Ok(Some((j, w))) && j == i && i < self.spec_children().len()
                    && *w == self.spec_children()[i as int].data && !w.spec_is_wrapper()
                    && w.spec_name_text() == name@,
                Ok(None) => r matches Ok(None),
                Err(e) => r == Err::<Option<(usize, &Widget)>, TreeError>(e),
            },
    {
        match self.children() {
            None => {
                assert(self.spec_children() =~= Seq::<InkWrapper<Widget>>::empty());
                Ok(None)
            },
            Some(cs) => match find_named(cs, name) {
                Ok(Some(i)) => {
                    proof {
                        lemma_first_named_found(cs@, name@, 0);
                    }
                    Ok(Some((i, &cs[i].data)))
                },
                Ok(None) => Ok(None),
                Err(e) => Err(e),
            },
        }
    }
}

pub proof fn lemma_child_decreases(w: Widget, i: int)
    requires
        0 <= i < w.spec_children().len(),
    ensures
        decreases_to!(w => w.spec_children()[i].data),
{
    let cs = w.spec_children();
    match w {
        Widget::inkMultiChildren(m) => {
            assert(decreases_to!(w => w->inkMultiChildren_0));
            assert(decreases_to!(m => m.children));
            assert(decreases_to!(m.children => m.children@));
            assert(decreases_to!(m.children@ => m.children@[i]));
            assert(decreases_to!(m.children@[i] => m.children@[i].data));
        },
        _ => {
            let c = w.spec_compound()->Some_0;
            assert(decreases_to!(c => c.children));
            assert(decreases_to!(c.children => c.children.data));
            assert(decreases_to!(c.children.data => c.children.data.children));
            assert(decreases_to!(c.children.data.children => c.children.data.children@));
            assert(decreases_to!(c.children.data.children@ => c.children.data.children@[i]));
            assert(decreases_to!(c.children.data.children@[i] => c.children.data.children@[i].data));
            match w {
                Widget::inkCanvasWidget(x) => assert(decreases_to!(w => w->inkCanvasWidget_0)),
                Widget::inkHorizontalPanelWidget(x) => assert(decreases_to!(w => w->inkHorizontalPanelWidget_0)),
                Widget::inkVerticalPanelWidget(x) => assert(decreases_to!(w => w->inkVerticalPanelWidget_0)),
                Widget::inkScrollAreaWidget(x) => assert(decreases_to!(w => w->inkScrollAreaWidget_0)),
                Widget::inkUniformGridWidget(x) => assert(decreases_to!(w => w->inkUniformGridWidget_0)),
                Widget::inkVirtualCompoundWidget(x) => assert(decreases_to!(w => w->inkVirtualCompoundWidget_0)),
                Widget::inkFlexWidget(x) => assert(decreases_to!(w => w->inkFlexWidget_0)),
                Widget::inkCacheWidget(x) => assert(decreases_to!(w => w->inkCacheWidget_0)),
                _ => {},
            }
        },
    }
}

/// Index of the first child, from `from` on, whose declared name is `name`;
/// the wrapper of children met before it is an error. (An index past
/// `usize::MAX` cannot stand in a list held in memory.)
pub open spec fn first_named(cs: Seq<InkWrapper<Widget>>, name: Seq<char>, from: nat) -> Result<
    Option<usize>,
    TreeError,
>
    decreases cs.len() - from,
{
    if from >= cs.len() || from > usize::MAX {
        Ok(None)
    } else if cs[from as int].data.spec_is_wrapper() {
        Err(TreeError::UnexpectedMultiChildren(from as usize))
    } else if cs[from as int].data.spec_name_text() == name {
        Ok(Some(from as usize))
    } else {
        first_named(cs, name, from + 1)
    }
}

pub proof fn lemma_first_named_found(cs: Seq<InkWrapper<Widget>>, name: Seq<char>, from: nat)
    requires
        first_named(cs, name, from) matches Ok(Some(_)),
    ensures
        first_named(cs, name, from) matches Ok(Some(i)) && from <= i < cs.len()
            && !cs[i as int].data.spec_is_wrapper() && cs[i as int].data.spec_name_text() == name,
    decreases cs.len() - from,
{
    if from < cs.len() && from <= usize::MAX && !cs[from as int].data.spec_is_wrapper()
        && cs[from as int].data.spec_name_text() != name {
        lemma_first_named_found(cs, name, from + 1);
    }
}

/// Scans the children for the first whose declared name is `name`.
pub fn find_named(cs: &Vec<InkWrapper<Widget>>, name: &String) -> (r: Result<Option<usize>, TreeError>)
    ensures
        r == first_named(cs@, name@, 0),
{
    let mut j: usize = 0;
    while j < cs.len()
        invariant
            j <= cs@.len(),
            first_named(cs@, name@, 0) == first_named(cs@, name@, j as nat),
        decreases cs@.len() - j,
    {
        let child = &cs[j].data;
        match child.name_string() {
            None => {
                return Err(TreeError::UnexpectedMultiChildren(j));
            },
            Some(n) => {
                if *n == *name {
                    return Ok(Some(j));
                }
            },
        }
        j = j + 1;
    }
    Ok(None)
}

/// The node an index path reaches from `node`; a leaf absorbs the indices
/// that remain.
pub open spec fn reach_absorbing(node: Widget, path: Seq<usize>) -> Result<Option<Widget>, TreeError>
    decreases path.len(),
{
    if path.len() == 0 || node.spec_is_leaf() {
        Ok(Some(node))
    } else {
        let cs = node.spec_children();
        let i = path[0];
        if i >= cs.len() {
            Ok(None)
        } else if cs[i as int].data.spec_is_wrapper() {
            Err(TreeError::UnexpectedMultiChildren(i))
        } else {
            reach_absorbing(cs[i as int].data, path.drop_first())
        }
    }
}

/// The declared names along an index path from `node`, one per index; a
/// leaf met before the path ends leaves the path unresolved.
pub open spec fn names_along(node: Widget, path: Seq<usize>) -> Result<
    Option<Seq<Seq<char>>>,
    TreeError,
>
    decreases path.len(),
{
    if path.len() == 0 {
        Ok(Some(Seq::empty()))
    } else if node.spec_is_leaf() {
        Ok(None)
    } else {
        let cs = node.spec_children();
        let i = path[0];
        if i >= cs.len() {
            Ok(None)
        } else if cs[i as int].data.spec_is_wrapper() {
            Err(TreeError::UnexpectedMultiChildren(i))
        } else {
            prepend_name(cs[i as int].data.spec_name_text(), names_along(cs[i as int].data, path.drop_first()))
        }
    }
}

pub open spec fn prepend_name(
    name: Seq<char>,
    rest: Result<Option<Seq<Seq<char>>>, TreeError>,
) -> Result<Option<Seq<Seq<char>>>, TreeError> {
    match rest {
        Ok(Some(ns)) => Ok(Some(seq![name] + ns)),
        other => other,
    }
}

/// The child indices along a name path from `node`, each name taken by the
/// first child that declares it; a leaf met before the path ends leaves the
/// path unresolved.
pub open spec fn indices_along(node: Widget, names: Seq<Seq<char>>) -> Result<
    Option<Seq<usize>>,
    TreeError,
>
    decreases names.len(),
{
    if names.len() == 0 {
        Ok(Some(Seq::empty()))
    } else if node.spec_is_leaf() {
        Ok(None)
    } else {
        let cs = node.spec_children();
        match first_named(cs, names[0], 0) {
            Ok(Some(i)) => if i < cs.len() {
                prepend_index(i, indices_along(cs[i as int].data, names.drop_first()))
            } else {
                Ok(None)
            },
            Ok(None) => Ok(None),
            Err(e) => Err(e),
        }
    }
}

pub open spec fn prepend_index(
    i: usize,
    rest: Result<Option<Seq<usize>>, TreeError>,
) -> Result<Option<Seq<usize>>, TreeError> {
    match rest {
        Ok(Some(is)) => Ok(Some(seq![i] + is)),
        other => other,
    }
}

/// Along the path, no earlier sibling of a visited child is the wrapper of
/// children or declares the same name.
pub open spec fn first_of_its_name_along(node: Widget, path: Seq<usize>) -> bool
    decreases path.len(),
{
    if path.len() == 0 || node.spec_is_leaf() {
        true
    } else {
        let cs = node.spec_children();
        let i = path[0];
        &&& i < cs.len()
        &&& forall|j: int|
            0 <= j < i ==> !(#[trigger] cs[j]).data.spec_is_wrapper()
                && cs[j].data.spec_name_text() != cs[i as int].data.spec_name_text()
        &&& first_of_its_name_along(cs[i as int].data, path.drop_first())
    }
}

/// see [NativeDB](https://nativedb.red4ext.com/inkWidgetLibraryItemInstance)
#[allow(non_camel_case_types)]
#[derive(Debug)]
pub struct inkWidgetLibraryItemInstance {
    /// The root of the tree, a canvas in the game's documents.
    pub root_widget: InkWrapper<Widget>,
}

/// The classification result that a kind walk gives, as text.
pub open spec fn kind_result(
    r: Result<Option<String>, TreeError>,
    walk: Result<Option<Widget>, TreeError>,
) -> bool {
    match walk {
        Ok(Some(w)) => r matches Ok(Some(s)) && s@ == w.spec_kind_name()@,
        Ok(None) => r matches Ok(None),
        Err(e) => r == Err::<Option<String>, TreeError>(e),
    }
}

/// The names result that a names walk gives, as text.
pub open spec fn names_result(
    r: Result<Option<Vec<String>>, TreeError>,
    walk: Result<Option<Seq<Seq<char>>>, TreeError>,
) -> bool {
    match walk {
        Ok(Some(ns)) => r matches Ok(Some(v)) && lines_view(v@) == ns,
        Ok(None) => r matches Ok(None),
        Err(e) => r == Err::<Option<Vec<String>>, TreeError>(e),
    }
}

/// The indices result that an indices walk gives.
pub open spec fn indices_result(
    r: Result<Option<Vec<usize>>, TreeError>,
    walk: Result<Option<Seq<usize>>, TreeError>,
) -> bool {
    match walk {
        Ok(Some(is)) => r matches Ok(Some(v)) && v@ == is,
        Ok(None) => r matches Ok(None),
        Err(e) => r == Err::<Option<Vec<usize>>, TreeError>(e),
    }
}

/// The texts of a list of strings.
pub open spec fn names_view(v: Seq<String>) -> Seq<Seq<char>> {
    lines_view(v)
}

/// Navigation of a widget tree by index paths and by name paths.
pub trait WidgetTree {
    /// The root widget, when the document has one.
    spec fn spec_tree_root(&self) -> Option<Widget>;

    /// The kind of the widget an index path reaches; a leaf absorbs the
    /// indices that remain.
    fn get_widget_classname(&self, path: &[usize]) -> (r: Result<Option<String>, TreeError>)
        ensures
            match self.spec_tree_root() {
                Some(root) => kind_result(r, reach_absorbing(root, path@)),
                None => r == Err::<Option<String>, TreeError>(TreeError::MissingRoot),
            },
    ;

    /// The full path of names to the widget an index path reaches.
    fn get_path_names(&self, path: &[usize]) -> (r: Result<Option<Vec<String>>, TreeError>)
        ensures
            match self.spec_tree_root() {
                Some(root) => names_result(r, names_along(root, path@)),
                None => r == Err::<Option<Vec<String>>, TreeError>(TreeError::MissingRoot),
            },
    ;

    /// The full path of indices to the widget a name path reaches.
    fn get_path_indexes(&self, path: &[String]) -> (r: Result<Option<Vec<usize>>, TreeError>)
        ensures
            match self.spec_tree_root() {
                Some(root) => indices_result(r, indices_along(root, names_view(path@))),
                None => r == Err::<Option<Vec<usize>>, TreeError>(TreeError::MissingRoot),
            },
    ;
}

/// The widget that `path` reaches from `node`; a leaf absorbs the indices
/// that remain.
pub fn node_at<'a>(node: &'a Widget, path: &[usize]) -> (r: Result<Option<&'a Widget>, TreeError>)
    ensures
        match reach_absorbing(*node, path@) {
            Ok(Some(w)) => r matches Ok(Some(x)) && *x == w,
            Ok(None) => r matches Ok(None),
            Err(e) => r == Err::<Option<&Widget>, TreeError>(e),
        },
{
    let mut cur: &Widget = node;
    let mut k: usize = 0;
    assert(path@.skip(0) =~= path@);
    while k < path.len()
        invariant
            k <= path@.len(),
            reach_absorbing(*node, path@) == reach_absorbing(*cur, path@.skip(k as int)),
        decreases path@.len() - k,
    {
        if cur.is_leaf() {
            return Ok(Some(cur));
        }
        let i = path[k];
        let cs = cur.children().unwrap();
        assert(path@.skip(k as int)[0] == i);
        assert(path@.skip(k as int).drop_first() =~= path@.skip(k as int + 1));
        if i >= cs.len() {
            return Ok(None);
        }
        let child = &cs[i].data;
        if child.is_wrapper() {
            return Err(TreeError::UnexpectedMultiChildren(i));
        }
        cur = child;
        k = k + 1;
    }
    assert(path@.skip(k as int).len() == 0);
    Ok(Some(cur))
}

/// Kind of the widget that `path` reaches from `node`.
pub fn classname_from(node: &Widget, path: &[usize]) -> (r: Result<Option<String>, TreeError>)
    ensures
        kind_result(r, reach_absorbing(*node, path@)),
{
    match node_at(node, path) {
        Ok(Some(w)) => Ok(Some(String::from_str(w.kind_name()))),
        Ok(None) => Ok(None),
        Err(e) => Err(e),
    }
}

/// Declared names along `path` from `node`.
pub fn names_from(node: &Widget, path: &[usize]) -> (r: Result<Option<Vec<String>>, TreeError>)
    ensures
        names_result(r, names_along(*node, path@)),
{
    let mut cur: &Widget = node;
    let mut names: Vec<String> = Vec::new();
    let mut k: usize = 0;
    assert(path@.skip(0) =~= path@);
    assert(lines_view(names@) + names_along(*cur, path@)->Ok_0->Some_0 =~= names_along(*cur, path@)->Ok_0->Some_0);
    while k < path.len()
        invariant
            k <= path@.len(),
            names_along(*node, path@) == prepend_all(lines_view(names@), names_along(*cur, path@.skip(k as int))),
        decreases path@.len() - k,
    {
        assert(path@.skip(k as int)[0] == path@[k as int]);
        assert(path@.skip(k as int).drop_first() =~= path@.skip(k as int + 1));
        if cur.is_leaf() {
            return Ok(None);
        }
        let i = path[k];
        let cs = cur.children().unwrap();
        if i >= cs.len() {
            return Ok(None);
        }
        let child = &cs[i].data;
        if child.is_wrapper() {
            return Err(TreeError::UnexpectedMultiChildren(i));
        }
        let n = child.name_string().unwrap();
        let ghost before = lines_view(names@);
        names.push(String::from_str(n.as_str()));
        proof {
            assert(lines_view(names@) =~= before + seq![child.spec_name_text()]);
            lemma_prepend_all_step(before, child.spec_name_text(), names_along(*child, path@.skip(k as int + 1)));
        }
        cur = child;
        k = k + 1;
    }
    proof {
        assert(path@.skip(k as int).len() == 0);
        assert(lines_view(names@) + Seq::<Seq<char>>::empty() =~= lines_view(names@));
    }
    Ok(Some(names))
}

/// `prefix` put before the names of a names walk.
pub open spec fn prepend_all(
    prefix: Seq<Seq<char>>,
    rest: Result<Option<Seq<Seq<char>>>, TreeError>,
) -> Result<Option<Seq<Seq<char>>>, TreeError> {
    match rest {
        Ok(Some(ns)) => Ok(Some(prefix + ns)),
        other => other,
    }
}

proof fn lemma_prepend_all_step(
    prefix: Seq<Seq<char>>,
    name: Seq<char>,
    rest: Result<Option<Seq<Seq<char>>>, TreeError>,
)
    ensures
        prepend_all(prefix, prepend_name(name, rest)) == prepend_all(prefix + seq![name], rest),
{
    match rest {
        Ok(Some(ns)) => {
            assert(prefix + (seq![name] + ns) =~= (prefix + seq![name]) + ns);
        },
        _ => {},
    }
}

/// `prefix` put before the indices of an indices walk.
pub open spec fn prepend_indices(
    prefix: Seq<usize>,
    rest: Result<Option<Seq<usize>>, TreeError>,
) -> Result<Option<Seq<usize>>, TreeError> {
    match rest {
        Ok(Some(is)) => Ok(Some(prefix + is)),
        other => other,
    }
}

proof fn lemma_prepend_indices_step(prefix: Seq<usize>, i: usize, rest: Result<Option<Seq<usize>>, TreeError>)
    ensures
        prepend_indices(prefix, prepend_index(i, rest)) == prepend_indices(prefix.push(i), rest),
{
    match rest {
        Ok(Some(is)) => {
            assert(prefix + (seq![i] + is) =~= prefix.push(i) + is);
        },
        _ => {},
    }
}

/// Child indices along the name path `names` from `node`.
pub fn indices_from(node: &Widget, names: &[String]) -> (r: Result<Option<Vec<usize>>, TreeError>)
    ensures
        indices_result(r, indices_along(*node, names_view(names@))),
{
    let ghost all = names_view(names@);
    let mut cur: &Widget = node;
    let mut out: Vec<usize> = Vec::new();
    let mut k: usize = 0;
    assert(all.skip(0) =~= all);
    assert(out@ + indices_along(*cur, all)->Ok_0->Some_0 =~= indices_along(*cur, all)->Ok_0->Some_0);
    while k < names.len()
        invariant
            k <= names@.len(),
            all == names_view(names@),
            indices_along(*node, all) == prepend_indices(out@, indices_along(*cur, all.skip(k as int))),
        decreases names@.len() - k,
    {
        assert(all.skip(k as int)[0] == names@[k as int]@);
        assert(all.skip(k as int).drop_first() =~= all.skip(k as int + 1));
        if cur.is_leaf() {
            return Ok(None);
        }
        match cur.by_name(&names[k]) {
            Err(e) => {
                return Err(e);
            },
            Ok(None) => {
                return Ok(None);
            },
            Ok(Some((i, child))) => {
                proof {
                    lemma_prepend_indices_step(out@, i, indices_along(*child, all.skip(k as int + 1)));
                }
                out.push(i);
                cur = child;
            },
        }
        k = k + 1;
    }
    proof {
        assert(all.skip(k as int).len() == 0);
        assert(out@ + Seq::<usize>::empty() =~= out@);
    }
    Ok(Some(out))
}

impl WidgetTree for inkWidgetLibraryItemInstance {
    open spec fn spec_tree_root(&self) -> Option<Widget> {
        Some(self.root_widget.data)
    }

    fn get_widget_classname(&self, path: &[usize]) -> (r: Result<Option<String>, TreeError>) {
        let root = &self.root_widget.data;
        classname_from(root, path)
    }

    fn get_path_names(&self, path: &[usize]) -> (r: Result<Option<Vec<String>>, TreeError>) {
        let root = &self.root_widget.data;
        names_from(root, path)
    }

    fn get_path_indexes(&self, path: &[String]) -> (r: Result<Option<Vec<usize>>, TreeError>) {
        let root = &self.root_widget.data;
        indices_from(root, path)
    }
}

/// The first child, from `from` on, that declares `name` is at `i` when no
/// child between them is the wrapper of children or declares that name.
pub proof fn lemma_first_named_at(cs: Seq<InkWrapper<Widget>>, name: Seq<char>, from: nat, i: usize)
    requires
        from <= i < cs.len(),
        forall|j: int|
            from <= j < i ==> !(#[trigger] cs[j]).data.spec_is_wrapper()
                && cs[j].data.spec_name_text() != name,
        !cs[i as int].data.spec_is_wrapper(),
        cs[i as int].data.spec_name_text() == name,
    ensures
        first_named(cs, name, from) == Ok::<Option<usize>, TreeError>(Some(i)),
    decreases i - from,
{
    if from < i {
        lemma_first_named_at(cs, name, from + 1, i);
    }
}

/// Round trip from indices: the names along an index path lead back to the
/// same indices, when no earlier sibling of a visited widget is the wrapper
/// of children or declares its name.
pub proof fn lemma_round_trip_indices(node: Widget, path: Seq<usize>)
    requires
        names_along(node, path) matches Ok(Some(_)),
        first_of_its_name_along(node, path),
    ensures
        indices_along(node, names_along(node, path)->Ok_0->Some_0) == Ok::<
            Option<Seq<usize>>,
            TreeError,
        >(Some(path)),
    decreases path.len(),
{
    let ns = names_along(node, path)->Ok_0->Some_0;
    if path.len() == 0 {
        assert(path =~= Seq::<usize>::empty());
    } else {
        let cs = node.spec_children();
        let i = path[0];
        let child = cs[i as int].data;
        let rest = path.drop_first();
        lemma_round_trip_indices(child, rest);
        let rest_ns = names_along(child, rest)->Ok_0->Some_0;
        assert(ns == seq![child.spec_name_text()] + rest_ns);
        assert(ns[0] == child.spec_name_text());
        assert(ns.drop_first() =~= rest_ns);
        lemma_first_named_at(cs, ns[0], 0, i);
        assert(seq![i] + rest =~= path);
    }
}

/// Round trip from names: the indices along a name path lead back to the
/// same names.
pub proof fn lemma_round_trip_names(node: Widget, names: Seq<Seq<char>>)
    requires
        indices_along(node, names) matches Ok(Some(_)),
    ensures
        names_along(node, indices_along(node, names)->Ok_0->Some_0) == Ok::<
            Option<Seq<Seq<char>>>,
            TreeError,
        >(Some(names)),
    decreases names.len(),
{
    let p = indices_along(node, names)->Ok_0->Some_0;
    if names.len() == 0 {
        assert(names =~= Seq::<Seq<char>>::empty());
    } else {
        let cs = node.spec_children();
        lemma_first_named_found(cs, names[0], 0);
        let i = first_named(cs, names[0], 0)->Ok_0->Some_0;
        let child = cs[i as int].data;
        lemma_round_trip_names(child, names.drop_first());
        let rest = indices_along(child, names.drop_first())->Ok_0->Some_0;
        assert(p == seq![i] + rest);
        assert(p[0] == i);
        assert(p.drop_first() =~= rest);
        assert(seq![names[0]] + names.drop_first() =~= names);
    }
}

/// Leaf absorption: once an index path reaches a leaf, indices appended to
/// it reach the same leaf.
pub proof fn lemma_leaf_absorbs(node: Widget, path: Seq<usize>, extra: Seq<usize>)
    requires
        reach_absorbing(node, path) matches Ok(Some(w)) && w.spec_is_leaf(),
    ensures
        reach_absorbing(node, path + extra) == reach_absorbing(node, path),
    decreases path.len(),
{
    if path.len() == 0 {
        assert(path + extra =~= extra);
    } else if !node.spec_is_leaf() {
        let cs = node.spec_children();
        assert((path + extra)[0] == path[0]);
        assert((path + extra).drop_first() =~= path.drop_first() + extra);
        lemma_leaf_absorbs(cs[path[0] as int].data, path.drop_first(), extra);
    }
}

/// Depth mismatch: an index path that goes on past a leaf resolves to no
/// names, though its kind is the leaf's.
pub proof fn lemma_names_reject_past_leaf(node: Widget, path: Seq<usize>, extra: Seq<usize>)
    requires
        reach_absorbing(node, path) matches Ok(Some(w)) && w.spec_is_leaf(),
        extra.len() > 0,
    ensures
        names_along(node, path + extra) == Ok::<Option<Seq<Seq<char>>>, TreeError>(None),
        reach_absorbing(node, path + extra) == reach_absorbing(node, path),
    decreases path.len(),
{
    lemma_leaf_absorbs(node, path, extra);
    if path.len() == 0 {
        assert(path + extra =~= extra);
    } else if !node.spec_is_leaf() {
        let cs = node.spec_children();
        assert((path + extra)[0] == path[0]);
        assert((path + extra).drop_first() =~= path.drop_first() + extra);
        lemma_names_reject_past_leaf(cs[path[0] as int].data, path.drop_first(), extra);
    }
}

/// A well-formed tree: no wrapper of children stands among the children of
/// any widget, and no two siblings declare the same name.
pub open spec fn well_formed(w: Widget) -> bool
    decreases w, 1nat, 0nat,
{
    well_formed_from(w, 0)
}

/// The children of `w` from the `k`-th on are well-formed, none is the
/// wrapper of children, and none declares the name of an earlier sibling.
pub open spec fn well_formed_from(w: Widget, k: nat) -> bool
    decreases w, 0nat, (if k < w.spec_children().len() { w.spec_children().len() - k } else { 0 }) as nat,
{
    let cs = w.spec_children();
    if k >= cs.len() {
        true
    } else {
        proof {
            lemma_child_decreases(w, k as int);
        }
        &&& !cs[k as int].data.spec_is_wrapper()
        &&& forall|j: int|
            0 <= j < k ==> (#[trigger] cs[j]).data.spec_name_text() != cs[k as int].data.spec_name_text()
        &&& well_formed(cs[k as int].data)
        &&& well_formed_from(w, k + 1)
    }
}

pub proof fn lemma_well_formed_child(w: Widget, k: nat, i: int)
    requires
        well_formed_from(w, k),
        k <= i < w.spec_children().len(),
    ensures
        !w.spec_children()[i].data.spec_is_wrapper(),
        well_formed(w.spec_children()[i].data),
        forall|j: int|
            0 <= j < i ==> (#[trigger] w.spec_children()[j]).data.spec_name_text()
                != w.spec_children()[i].data.spec_name_text(),
    decreases i - k,
{
    if k < i {
        lemma_well_formed_child(w, k + 1, i);
    }
}

/// In a well-formed tree, every resolvable index path meets no earlier
/// sibling that is the wrapper of children or that declares the same name.
pub proof fn lemma_well_formed_paths(node: Widget, path: Seq<usize>)
    requires
        well_formed(node),
        names_along(node, path) matches Ok(Some(_)),
    ensures
        first_of_its_name_along(node, path),
    decreases path.len(),
{
    if path.len() > 0 && !node.spec_is_leaf() {
        let cs = node.spec_children();
        let i = path[0] as int;
        lemma_well_formed_child(node, 0, i);
        assert forall|j: int| 0 <= j < i implies !(#[trigger] cs[j]).data.spec_is_wrapper()
            && cs[j].data.spec_name_text() != cs[i].data.spec_name_text() by {
            lemma_well_formed_child(node, 0, j);
        }
        lemma_well_formed_paths(cs[i].data, path.drop_first());
    }
}

/// Round trip in a well-formed tree: the names along a resolvable index
/// path lead back to the same indices.
pub proof fn lemma_round_trip_well_formed(node: Widget, path: Seq<usize>)
    requires
        well_formed(node),
        names_along(node, path) matches Ok(Some(_)),
    ensures
        indices_along(node, names_along(node, path)->Ok_0->Some_0) == Ok::<
            Option<Seq<usize>>,
            TreeError,
        >(Some(path)),
{
    lemma_well_formed_paths(node, path);
    lemma_round_trip_indices(node, path);
}

} // verus!
