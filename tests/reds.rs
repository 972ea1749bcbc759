use inkanim::{
    inkEChildOrder, inkEHorizontalAlign, inkImageWidget, inkMargin, inkTextWidget, reds_statements,
    CName, CompoundWidget, Decimal, HandleId, InkWrapper, LeafWidget, RedsValue, RedsWidget,
    ScrollDelay, TreeError, Vector2, Widget,
};

fn dec(units: i64, scale: u8) -> Decimal {
    Decimal::new(units, scale).unwrap()
}

fn wrap(id: u32, w: Widget) -> InkWrapper<Widget> {
    InkWrapper {
        handle_id: HandleId(id),
        data: w,
    }
}

fn named_text(name: &str) -> Widget {
    Widget::inkTextWidget(inkTextWidget {
        name: CName(name.to_string()),
        ..Default::default()
    })
}

fn canvas(name: &str, order: inkEChildOrder, children: Vec<Widget>) -> Widget {
    let mut c = CompoundWidget {
        name: CName(name.to_string()),
        child_order: order,
        ..Default::default()
    };
    c.children.data.children = children
        .into_iter()
        .enumerate()
        .map(|(i, w)| wrap(i as u32 + 2, w))
        .collect();
    Widget::inkCanvasWidget(c)
}

#[test]
fn reds_default() {
    let child = Widget::inkTextWidget(inkTextWidget {
        content_h_align: inkEHorizontalAlign::Fill,
        size: Vector2 {
            x: dec(0, 0),
            y: dec(0, 0),
        },
        ..Default::default()
    });
    assert_eq!(
        child.reds_widget("element", None),
        Ok("let element = new inkText();".to_string())
    );
}

#[test]
fn reds_simple() {
    let child = Widget::inkTextWidget(inkTextWidget {
        content_h_align: inkEHorizontalAlign::Center,
        size: Vector2 {
            x: dec(1, 0),
            y: dec(6, 1),
        },
        ..Default::default()
    });
    assert_eq!(
        child.reds_widget("element", None),
        Ok("let element = new inkText();
element.size = new Vector2(1., 0.6);
element.content_h_align = inkEHorizontalAlign.Center;"
            .to_string())
    );
}

#[test]
fn reds_tree() {
    let inner = inkTextWidget {
        name: CName("shape".to_string()),
        render_transform_pivot: Vector2 {
            x: dec(1, 0),
            y: dec(3, 0),
        },
        size: Vector2 {
            x: dec(360, 0),
            y: dec(100, 0),
        },
        ..Default::default()
    };
    let mut parent = CompoundWidget {
        name: CName("main_canvas".to_string()),
        child_order: inkEChildOrder::Backward,
        child_margin: inkMargin {
            left: dec(0, 0),
            right: dec(0, 0),
            top: dec(0, 0),
            bottom: dec(0, 0),
        },
        ..Default::default()
    };
    parent.children.handle_id = HandleId(1);
    parent
        .children
        .data
        .children
        .push(wrap(2, Widget::inkTextWidget(inner)));
    let parent = Widget::inkCanvasWidget(parent);
    let leaf = &parent.children().unwrap()[0];
    assert_eq!(
        leaf.reds_widget("element", Some("parent")),
        Ok("let element = new inkText();
element.name = n\"shape\";
element.render_transform_pivot = new Vector2(1., 3.);
element.size = new Vector2(360., 100.);"
            .to_string())
    );
    assert_eq!(
        parent.reds_widget("parent", None),
        Ok("let parent = new inkCanvas();
parent.name = n\"main_canvas\";
parent.child_order = inkEChildOrder.Backward;
let shape = new inkText();
shape.name = n\"shape\";
shape.render_transform_pivot = new Vector2(1., 3.);
shape.size = new Vector2(360., 100.);
parent.AddChild(shape);"
            .to_string())
    );
}

#[test]
fn default_fields_give_construction_only() {
    for w in [
        Widget::inkTextWidget(inkTextWidget::default()),
        Widget::inkImageWidget(inkImageWidget::default()),
        Widget::inkMaskWidget(LeafWidget::default()),
        Widget::inkFlexWidget(CompoundWidget::default()),
    ] {
        let lines = reds_statements(&w, "x").unwrap();
        assert_eq!(lines.len(), 1);
        assert!(lines[0].starts_with("let x = new ink"));
    }
}

fn link_lines(lines: &[String]) -> Vec<String> {
    lines
        .iter()
        .filter(|l| l.contains(".AddChild("))
        .cloned()
        .collect()
}

#[test]
fn backward_order_links_in_reverse() {
    let w = canvas(
        "box",
        inkEChildOrder::Backward,
        vec![named_text("A"), named_text("B"), named_text("C")],
    );
    let lines = reds_statements(&w, "box").unwrap();
    assert_eq!(
        link_lines(&lines),
        vec![
            "box.AddChild(C);".to_string(),
            "box.AddChild(B);".to_string(),
            "box.AddChild(A);".to_string()
        ]
    );
    assert_eq!(lines[lines.len() - 3], "box.AddChild(C);");
    let built: Vec<&String> = lines.iter().filter(|l| l.starts_with("let ")).collect();
    assert_eq!(built[1], "let C = new inkText();");
    assert_eq!(built[3], "let A = new inkText();");
}

#[test]
fn forward_order_links_in_declaration_order() {
    let w = canvas(
        "box",
        inkEChildOrder::Forward,
        vec![named_text("A"), named_text("B"), named_text("C")],
    );
    let lines = reds_statements(&w, "box").unwrap();
    assert_eq!(
        link_lines(&lines),
        vec![
            "box.AddChild(A);".to_string(),
            "box.AddChild(B);".to_string(),
            "box.AddChild(C);".to_string()
        ]
    );
}

#[test]
fn nested_compound_emits_its_own_links() {
    let inner = canvas("inner", inkEChildOrder::Forward, vec![named_text("leaf")]);
    let outer = canvas("outer", inkEChildOrder::Forward, vec![inner]);
    let lines = reds_statements(&outer, "root").unwrap();
    assert_eq!(
        lines,
        vec![
            "let root = new inkCanvas();",
            "root.name = n\"outer\";",
            "let inner = new inkCanvas();",
            "inner.name = n\"inner\";",
            "let leaf = new inkText();",
            "leaf.name = n\"leaf\";",
            "inner.AddChild(leaf);",
            "root.AddChild(inner);",
        ]
    );
}

#[test]
fn wrapper_emits_each_child_under_its_own_name() {
    let w = Widget::inkMultiChildren(inkanim::inkMultiChildren {
        children: vec![wrap(1, named_text("first")), wrap(2, named_text("second"))],
    });
    assert_eq!(
        reds_statements(&w, "ignored").unwrap(),
        vec![
            "let first = new inkText();",
            "first.name = n\"first\";",
            "let second = new inkText();",
            "second.name = n\"second\";",
        ]
    );
    let empty = Widget::inkMultiChildren(inkanim::inkMultiChildren { children: vec![] });
    assert_eq!(reds_statements(&empty, "x"), Ok(vec![]));
}

#[test]
fn wrapper_among_children_is_an_error() {
    let bad = canvas(
        "c",
        inkEChildOrder::Forward,
        vec![
            named_text("ok"),
            Widget::inkMultiChildren(inkanim::inkMultiChildren { children: vec![] }),
        ],
    );
    assert_eq!(
        reds_statements(&bad, "c"),
        Err(TreeError::UnexpectedMultiChildren(1))
    );
}

#[test]
fn text_fields_differing_from_defaults() {
    let w = Widget::inkTextWidget(inkTextWidget {
        text: "Hello".to_string(),
        scroll_delay: ScrollDelay(0),
        line_height_percentage: dec(0, 0),
        ..Default::default()
    });
    assert_eq!(
        reds_statements(&w, "t").unwrap(),
        vec![
            "let t = new inkText();",
            "t.text = \"Hello\";",
            "t.scroll_delay = 0;",
        ]
    );
}

#[test]
fn margin_literal_lists_every_field() {
    let m = inkMargin {
        left: dec(2, 0),
        right: dec(10, 0),
        top: dec(200, 0),
        bottom: dec(0, 0),
    };
    assert_eq!(m.reds_value(), "new inkMargin(2., 10., 200., 0.)");
}
