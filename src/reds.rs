use vstd::prelude::*;

use crate::layout::inkEChildOrder;
use crate::scalar::{join_strings, join_with, lines_view};
use crate::tree::{lemma_child_decreases, lemma_well_formed_child, well_formed, TreeError};
use crate::widget::{InkWrapper, Widget};

verus! {

broadcast use vstd::std_specs::vec::group_vec_axioms;

/// Statement that declares and builds `instance`: `let instance = new Class();`.
pub open spec fn construct_text(instance: Seq<char>, class: Seq<char>) -> Seq<char> {
    "let "@ + instance + " = new "@ + class + "();"@
}

/// Statement that links `child` to `parent`: `parent.AddChild(child);`.
pub open spec fn link_text(parent: Seq<char>, child: Seq<char>) -> Seq<char> {
    parent + ".AddChild("@ + child + ");"@
}

/// Position of the `k`-th child to emit, out of `n`, in the given order.
pub open spec fn order_pos(order: inkEChildOrder, n: int, k: int) -> int {
    match order {
        inkEChildOrder::Forward => k,
        inkEChildOrder::Backward => n - 1 - k,
    }
}

/// The child order of a compound widget; forward for other widgets.
pub open spec fn child_order_of(w: Widget) -> inkEChildOrder {
    match w.spec_compound() {
        Some(c) => c.child_order,
        None => inkEChildOrder::Forward,
    }
}

/// The `k`-th child to emit.
pub open spec fn emitted_child(w: Widget, k: int) -> InkWrapper<Widget> {
    w.spec_children()[order_pos(child_order_of(w), w.spec_children().len() as int, k)]
}

/// Declared names of the children, in the order they are emitted.
pub open spec fn emitted_names(w: Widget) -> Seq<Seq<char>> {
    Seq::new(w.spec_children().len(), |k: int| emitted_child(w, k).data.spec_name_text())
}

/// One link statement per child, in the order the children are emitted.
pub open spec fn links(w: Widget, instance: Seq<char>) -> Seq<Seq<char>> {
    emitted_names(w).map_values(|n: Seq<char>| link_text(instance, n))
}

/// The statements that rebuild widget `w` under the instance name
/// `instance`: its construction, the assignments of the fields that differ
/// from their defaults, and, for a compound widget, the statements of each
/// child under its declared name followed by one link per child, both in
/// the widget's child order. The wrapper of children is seen through: it
/// gives the statements of each of its children, in order, each under its
/// own declared name.
pub open spec fn statements(w: Widget, instance: Seq<char>) -> Result<Seq<Seq<char>>, TreeError>
    decreases w, 1nat, 0nat,
{
    if w.spec_is_wrapper() {
        child_statements(w, 0)
    } else {
        let head = seq![construct_text(instance, w.spec_script_class()@)] + own_settings(w, instance);
        if w.spec_compound() is None {
            Ok(head)
        } else {
            match child_statements(w, 0) {
                Ok(body) => Ok(head + body + links(w, instance)),
                Err(e) => Err(e),
            }
        }
    }
}

/// The statements of the children of `w` from the `k`-th to emit on.
pub open spec fn child_statements(w: Widget, k: nat) -> Result<Seq<Seq<char>>, TreeError>
    decreases w, 0nat, (if k < w.spec_children().len() { w.spec_children().len() - k } else { 0 }) as nat,
{
    let cs = w.spec_children();
    if k >= cs.len() {
        Ok(Seq::empty())
    } else {
        let pos = order_pos(child_order_of(w), cs.len() as int, k as int);
        let child = cs[pos].data;
        if child.spec_is_wrapper() {
            Err(TreeError::UnexpectedMultiChildren(pos as usize))
        } else {
            proof {
                lemma_child_decreases(w, pos);
            }
            match statements(child, child.spec_name_text()) {
                Ok(s) => match child_statements(w, k + 1) {
                    Ok(rest) => Ok(s + rest),
                    Err(e) => Err(e),
                },
                Err(e) => Err(e),
            }
        }
    }
}

/// `prefix` put before the statements of a result.
pub open spec fn prepend_lines(
    prefix: Seq<Seq<char>>,
    rest: Result<Seq<Seq<char>>, TreeError>,
) -> Result<Seq<Seq<char>>, TreeError> {
    match rest {
        Ok(s) => Ok(prefix + s),
        Err(e) => Err(e),
    }
}

fn construct_line(instance: &str, class: &str) -> (r: String)
    ensures
        r@ == construct_text(instance@, class@),
{
    let mut out = String::from_str("let ");
    out.append(instance);
    out.append(" = new ");
    out.append(class);
    out.append("();");
    assert(out@ =~= construct_text(instance@, class@));
    out
}

fn link_line(parent: &str, child: &str) -> (r: String)
    ensures
        r@ == link_text(parent@, child@),
{
    let mut out = String::from_str(parent);
    out.append(".AddChild(");
    out.append(child);
    out.append(");");
    assert(out@ =~= link_text(parent@, child@));
    out
}

/// Assignments of the fields of a widget that differ from their defaults.
pub open spec fn own_settings(w: Widget, instance: Seq<char>) -> Seq<Seq<char>> {
    match w {
        Widget::inkMultiChildren(_) => Seq::empty(),
        Widget::inkCanvasWidget(x) => x.spec_settings(instance),
        Widget::inkHorizontalPanelWidget(x) => x.spec_settings(instance),
        Widget::inkVerticalPanelWidget(x) => x.spec_settings(instance),
        Widget::inkScrollAreaWidget(x) => x.spec_settings(instance),
        Widget::inkUniformGridWidget(x) => x.spec_settings(instance),
        Widget::inkVirtualCompoundWidget(x) => x.spec_settings(instance),
        Widget::inkFlexWidget(x) => x.spec_settings(instance),
        Widget::inkCacheWidget(x) => x.spec_settings(instance),
        Widget::inkTextWidget(x) => x.spec_settings(instance),
        Widget::inkImageWidget(x) => x.spec_settings(instance),
        Widget::inkVideoWidget(x) => x.spec_settings(instance),
        Widget::inkMaskWidget(x) => x.spec_settings(instance),
        Widget::inkBorderWidget(x) => x.spec_settings(instance),
        Widget::inkShapeWidget(x) => x.spec_settings(instance),
        Widget::inkCircleWidget(x) => x.spec_settings(instance),
        Widget::inkRectangleWidget(x) => x.spec_settings(instance),
        Widget::inkVectorGraphicWidget(x) => x.spec_settings(instance),
    }
}

/// Whether every field of a widget holds its default and it has no children.
pub open spec fn all_default(w: Widget) -> bool {
    match w {
        Widget::inkMultiChildren(m) => m.children@.len() == 0,
        Widget::inkCanvasWidget(x) => x.spec_all_default(),
        Widget::inkHorizontalPanelWidget(x) => x.spec_all_default(),
        Widget::inkVerticalPanelWidget(x) => x.spec_all_default(),
        Widget::inkScrollAreaWidget(x) => x.spec_all_default(),
        Widget::inkUniformGridWidget(x) => x.spec_all_default(),
        Widget::inkVirtualCompoundWidget(x) => x.spec_all_default(),
        Widget::inkFlexWidget(x) => x.spec_all_default(),
        Widget::inkCacheWidget(x) => x.spec_all_default(),
        Widget::inkTextWidget(x) => x.spec_all_default(),
        Widget::inkImageWidget(x) => x.spec_all_default(),
        Widget::inkVideoWidget(x) => x.spec_all_default(),
        Widget::inkMaskWidget(x) => x.spec_all_default(),
        Widget::inkBorderWidget(x) => x.spec_all_default(),
        Widget::inkShapeWidget(x) => x.spec_all_default(),
        Widget::inkCircleWidget(x) => x.spec_all_default(),
        Widget::inkRectangleWidget(x) => x.spec_all_default(),
        Widget::inkVectorGraphicWidget(x) => x.spec_all_default(),
    }
}

fn settings_of(w: &Widget, instance: &str) -> (r: Vec<String>)
    ensures
        lines_view(r@) == own_settings(*w, instance@),
{
    match w {
        Widget::inkMultiChildren(_) => {
            let v: Vec<String> = Vec::new();
            assert(lines_view(v@) =~= Seq::<Seq<char>>::empty());
            v
        },
        Widget::inkCanvasWidget(x) => x.settings(instance),
        Widget::inkHorizontalPanelWidget(x) => x.settings(instance),
        Widget::inkVerticalPanelWidget(x) => x.settings(instance),
        Widget::inkScrollAreaWidget(x) => x.settings(instance),
        Widget::inkUniformGridWidget(x) => x.settings(instance),
        Widget::inkVirtualCompoundWidget(x) => x.settings(instance),
        Widget::inkFlexWidget(x) => x.settings(instance),
        Widget::inkCacheWidget(x) => x.settings(instance),
        Widget::inkTextWidget(x) => x.settings(instance),
        Widget::inkImageWidget(x) => x.settings(instance),
        Widget::inkVideoWidget(x) => x.settings(instance),
        Widget::inkMaskWidget(x) => x.settings(instance),
        Widget::inkBorderWidget(x) => x.settings(instance),
        Widget::inkShapeWidget(x) => x.settings(instance),
        Widget::inkCircleWidget(x) => x.settings(instance),
        Widget::inkRectangleWidget(x) => x.settings(instance),
        Widget::inkVectorGraphicWidget(x) => x.settings(instance),
    }
}

/// Settings of a widget whose fields all hold their defaults are empty.
pub proof fn lemma_default_settings_empty(w: Widget, instance: Seq<char>)
    requires
        all_default(w),
    ensures
        own_settings(w, instance) == Seq::<Seq<char>>::empty(),
{
    match w {
        Widget::inkMultiChildren(_) => {},
        Widget::inkCanvasWidget(x) => assert(x.spec_settings(instance) =~= Seq::<Seq<char>>::empty()),
        Widget::inkHorizontalPanelWidget(x) => assert(x.spec_settings(instance) =~= Seq::<Seq<char>>::empty()),
        Widget::inkVerticalPanelWidget(x) => assert(x.spec_settings(instance) =~= Seq::<Seq<char>>::empty()),
        Widget::inkScrollAreaWidget(x) => assert(x.spec_settings(instance) =~= Seq::<Seq<char>>::empty()),
        Widget::inkUniformGridWidget(x) => assert(x.spec_settings(instance) =~= Seq::<Seq<char>>::empty()),
        Widget::inkVirtualCompoundWidget(x) => assert(x.spec_settings(instance) =~= Seq::<Seq<char>>::empty()),
        Widget::inkFlexWidget(x) => assert(x.spec_settings(instance) =~= Seq::<Seq<char>>::empty()),
        Widget::inkCacheWidget(x) => assert(x.spec_settings(instance) =~= Seq::<Seq<char>>::empty()),
        Widget::inkTextWidget(x) => assert(x.spec_settings(instance) =~= Seq::<Seq<char>>::empty()),
        Widget::inkImageWidget(x) => assert(x.spec_settings(instance) =~= Seq::<Seq<char>>::empty()),
        Widget::inkVideoWidget(x) => assert(x.spec_settings(instance) =~= Seq::<Seq<char>>::empty()),
        Widget::inkMaskWidget(x) => assert(x.spec_settings(instance) =~= Seq::<Seq<char>>::empty()),
        Widget::inkBorderWidget(x) => assert(x.spec_settings(instance) =~= Seq::<Seq<char>>::empty()),
        Widget::inkShapeWidget(x) => assert(x.spec_settings(instance) =~= Seq::<Seq<char>>::empty()),
        Widget::inkCircleWidget(x) => assert(x.spec_settings(instance) =~= Seq::<Seq<char>>::empty()),
        Widget::inkRectangleWidget(x) => assert(x.spec_settings(instance) =~= Seq::<Seq<char>>::empty()),
        Widget::inkVectorGraphicWidget(x) => assert(x.spec_settings(instance) =~= Seq::<Seq<char>>::empty()),
    }
}

/// The statements that rebuild widget `w` under the instance name `instance`.
pub fn reds_statements(w: &Widget, instance: &str) -> (r: Result<Vec<String>, TreeError>)
    ensures
        match statements(*w, instance@) {
            Ok(s) => r matches Ok(v) && lines_view(v@) == s,
            Err(e) => r == Err::<Vec<String>, TreeError>(e),
        },
    decreases w,
{
    let wrapper = w.is_wrapper();
    let mut out: Vec<String> = Vec::new();
    let ghost mut head: Seq<Seq<char>> = Seq::empty();
    if !wrapper {
        out.push(construct_line(instance, w.script_class()));
        let mut settings = settings_of(w, instance);
        out.append(&mut settings);
        proof {
            head = seq![construct_text(instance@, w.spec_script_class()@)] + own_settings(*w, instance@);
        }
    }
    assert(lines_view(out@) =~= head);
    let cs = match w.children() {
        None => {
            return Ok(out);
        },
        Some(cs) => cs,
    };
    let n = cs.len();
    let forward = match w.as_compound() {
        Some(c) => matches!(c.child_order, inkEChildOrder::Forward),
        None => true,
    };
    let mut names: Vec<String> = Vec::new();
    let ghost mut acc: Seq<Seq<char>> = Seq::empty();
    let mut k: usize = 0;
    assert(acc + child_statements(*w, 0)->Ok_0 =~= child_statements(*w, 0)->Ok_0);
    while k < n
        invariant
            k <= n == cs@.len() == w.spec_children().len(),
            cs@ == w.spec_children(),
            wrapper == w.spec_is_wrapper(),
            wrapper ==> head == Seq::<Seq<char>>::empty(),
            !wrapper ==> head == seq![construct_text(instance@, w.spec_script_class()@)] + own_settings(*w, instance@),
            forward <==> child_order_of(*w) is Forward,
            lines_view(out@) == head + acc,
            child_statements(*w, 0) == prepend_lines(acc, child_statements(*w, k as nat)),
            lines_view(names@) == emitted_names(*w).take(k as int),
        decreases n - k,
    {
        let pos: usize = if forward {
            k
        } else {
            n - 1 - k
        };
        assert(pos == order_pos(child_order_of(*w), n as int, k as int));
        let child = &cs[pos].data;
        assert(w.spec_children() == cs@);
        assert(*child == w.spec_children()[pos as int].data);
        let name = match child.name_string() {
            None => {
                proof {
                    assert(child.spec_is_wrapper());
                    assert(child_statements(*w, k as nat) == Err::<Seq<Seq<char>>, TreeError>(
                        TreeError::UnexpectedMultiChildren(pos),
                    ));
                }
                return Err(TreeError::UnexpectedMultiChildren(pos));
            },
            Some(name) => name,
        };
        proof {
            lemma_child_decreases(*w, pos as int);
            assert(decreases_to!(*w => *child));
        }
        let mut sub = match reds_statements(child, name.as_str()) {
            Err(e) => {
                return Err(e);
            },
            Ok(sub) => sub,
        };
        let ghost s = lines_view(sub@);
        let ghost before = lines_view(out@);
        out.append(&mut sub);
        let ghost names_before = lines_view(names@);
        names.push(name.clone());
        proof {
            assert(emitted_names(*w)[k as int] == name@);
            assert(lines_view(names@) =~= names_before.push(name@));
            assert(emitted_names(*w).take(k as int + 1) =~= emitted_names(*w).take(k as int).push(name@));
            assert(lines_view(out@) =~= before + s);
            assert((head + acc) + s =~= head + (acc + s));
            match child_statements(*w, k as nat + 1) {
                Ok(rest) => {
                    assert(acc + (s + rest) =~= (acc + s) + rest);
                },
                Err(_) => {},
            }
            acc = acc + s;
            assert(lines_view(names@) =~= emitted_names(*w).take(k as int + 1));
        }
        k = k + 1;
    }
    assert(emitted_names(*w).take(n as int) =~= emitted_names(*w));
    assert(acc + Seq::<Seq<char>>::empty() =~= acc);
    if wrapper {
        assert(lines_view(out@) =~= acc);
        return Ok(out);
    }
    let mut j: usize = 0;
    let ghost body = lines_view(out@);
    while j < n
        invariant
            j <= n == names@.len() == emitted_names(*w).len(),
            lines_view(names@) == emitted_names(*w),
            lines_view(out@) == body + links(*w, instance@).take(j as int),
        decreases n - j,
    {
        let ghost before = lines_view(out@);
        let line = link_line(instance, names[j].as_str());
        out.push(line);
        assert(lines_view(out@) =~= before.push(link_text(instance@, names@[j as int]@)));
        assert(lines_view(names@)[j as int] == names@[j as int]@);
        assert(links(*w, instance@).take(j as int + 1) =~= links(*w, instance@).take(j as int).push(
            link_text(instance@, names@[j as int]@),
        ));
        assert(lines_view(out@) =~= body + links(*w, instance@).take(j as int + 1));
        j = j + 1;
    }
    assert(links(*w, instance@).take(n as int) =~= links(*w, instance@));
    Ok(out)
}

/// Statements that rebuild a widget subtree in the target script.
pub trait RedsWidget {
    spec fn spec_statements(&self, instance: Seq<char>) -> Result<Seq<Seq<char>>, TreeError>;

    /// The statements, one per line, that rebuild the widget under the
    /// instance name `instance`. The parent's instance name, when there is
    /// one, leaves them unchanged: a parent links its children itself.
    fn reds_widget(&self, instance: &str, parent: Option<&str>) -> (r: Result<String, TreeError>)
        ensures
            match self.spec_statements(instance@) {
                Ok(s) => r matches Ok(t) && t@ == join_with(s, seq!['\n']),
                Err(e) => r == Err::<String, TreeError>(e),
            },
    ;
}

impl RedsWidget for Widget {
    open spec fn spec_statements(&self, instance: Seq<char>) -> Result<Seq<Seq<char>>, TreeError> {
        statements(*self, instance)
    }

    fn reds_widget(&self, instance: &str, _parent: Option<&str>) -> (r: Result<String, TreeError>) {
        match reds_statements(self, instance) {
            Ok(lines) => {
                let mut nl = String::new();
                crate::scalar::push_char(&mut nl, '\n');
                assert(nl@ =~= seq!['\n']);
                Ok(join_strings(&lines, nl.as_str()))
            },
            Err(e) => Err(e),
        }
    }
}

impl RedsWidget for InkWrapper<Widget> {
    open spec fn spec_statements(&self, instance: Seq<char>) -> Result<Seq<Seq<char>>, TreeError> {
        statements(self.data, instance)
    }

    fn reds_widget(&self, instance: &str, parent: Option<&str>) -> (r: Result<String, TreeError>) {
        self.data.reds_widget(instance, parent)
    }
}

/// Emitting a widget whose fields all hold their defaults, and which has no
/// children, gives the construction statement alone.
pub proof fn lemma_default_emits_construction_only(w: Widget, instance: Seq<char>)
    requires
        all_default(w),
        !w.spec_is_wrapper(),
    ensures
        statements(w, instance) == Ok::<Seq<Seq<char>>, TreeError>(
            seq![construct_text(instance, w.spec_script_class()@)],
        ),
{
    lemma_default_settings_empty(w, instance);
    let head = seq![construct_text(instance, w.spec_script_class()@)] + own_settings(w, instance);
    assert(head =~= seq![construct_text(instance, w.spec_script_class()@)]);
    if w.spec_compound() is Some {
        assert(w.spec_children().len() == 0);
        assert(links(w, instance) =~= Seq::<Seq<char>>::empty());
        assert(head + Seq::<Seq<char>>::empty() + Seq::<Seq<char>>::empty() =~= head);
    }
}

/// The statements of the `k`-th child to emit, under its declared name.
pub open spec fn child_block(w: Widget, k: int) -> Seq<Seq<char>> {
    statements(emitted_child(w, k).data, emitted_child(w, k).data.spec_name_text())->Ok_0
}

/// Emitting a well-formed tree always succeeds.
pub proof fn lemma_well_formed_emits(w: Widget, instance: Seq<char>)
    requires
        well_formed(w),
    ensures
        statements(w, instance) is Ok,
    decreases w, 1nat, 0nat,
{
    lemma_well_formed_children_emit(w, 0);
}

proof fn lemma_well_formed_children_emit(w: Widget, k: nat)
    requires
        well_formed(w),
    ensures
        child_statements(w, k) is Ok,
    decreases w, 0nat, (if k < w.spec_children().len() { w.spec_children().len() - k } else { 0 }) as nat,
{
    let cs = w.spec_children();
    if k < cs.len() {
        let pos = order_pos(child_order_of(w), cs.len() as int, k as int);
        lemma_well_formed_child(w, 0, pos);
        lemma_child_decreases(w, pos);
        lemma_well_formed_emits(cs[pos].data, cs[pos].data.spec_name_text());
        lemma_well_formed_children_emit(w, k + 1);
    }
}

/// The statements of the children from the `k`-th to emit on are their
/// blocks one after the other, in the order of emission.
proof fn lemma_child_blocks(w: Widget, k: nat)
    requires
        child_statements(w, k) is Ok,
        k <= w.spec_children().len(),
    ensures
        child_statements(w, k)->Ok_0 == Seq::new(
            (w.spec_children().len() - k) as nat,
            |j: int| child_block(w, k + j),
        ).flatten(),
    decreases w.spec_children().len() - k,
{
    let n = w.spec_children().len();
    let bs = Seq::new((n - k) as nat, |j: int| child_block(w, k + j));
    if k < n {
        lemma_child_blocks(w, k + 1);
        let rest = Seq::new((n - (k + 1)) as nat, |j: int| child_block(w, k + 1 + j));
        assert(bs.drop_first() =~= rest);
        assert(bs.first() == child_block(w, k as int));
    } else {
        assert(bs =~= Seq::<Seq<Seq<char>>>::empty());
    }
}

/// Child order: a well-formed compound widget emits its construction and
/// settings, then the block of each child, then one link per child; blocks
/// and links both come in declaration order when the child order is
/// forward, and in reverse declaration order when it is backward.
pub proof fn lemma_links_follow_child_order(w: Widget, instance: Seq<char>)
    requires
        w.spec_compound() is Some,
        well_formed(w),
    ensures
        statements(w, instance) is Ok,
        ({
            let s = statements(w, instance)->Ok_0;
            let cs = w.spec_children();
            let n = cs.len() as int;
            let forward = w.spec_compound()->Some_0.child_order is Forward;
            &&& forall|k: int|
                0 <= k < n ==> #[trigger] emitted_child(w, k) == if forward {
                    cs[k]
                } else {
                    cs[n - 1 - k]
                }
            &&& s == seq![construct_text(instance, w.spec_script_class()@)] + own_settings(
                w,
                instance,
            ) + Seq::new(n as nat, |k: int| child_block(w, k)).flatten() + links(w, instance)
            &&& n <= s.len()
            &&& forall|k: int|
                0 <= k < n ==> #[trigger] s[s.len() - n + k] == link_text(
                    instance,
                    if forward {
                        cs[k].data.spec_name_text()
                    } else {
                        cs[n - 1 - k].data.spec_name_text()
                    },
                )
        }),
{
    lemma_well_formed_emits(w, instance);
    lemma_child_blocks(w, 0);
    let s = statements(w, instance)->Ok_0;
    let n = w.spec_children().len() as int;
    let head = seq![construct_text(instance, w.spec_script_class()@)] + own_settings(w, instance);
    let body = child_statements(w, 0)->Ok_0;
    assert(Seq::new((n - 0) as nat, |j: int| child_block(w, 0 + j)) =~= Seq::new(
        n as nat,
        |k: int| child_block(w, k),
    ));
    assert(s == head + body + links(w, instance));
    assert forall|k: int| 0 <= k < n implies #[trigger] s[s.len() - n + k] == links(w, instance)[k] by {
        assert(s.len() - n + k == (head + body).len() + k);
    }
}

} // verus!
