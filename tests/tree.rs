use inkanim::{
    inkMultiChildren, inkTextWidget, inkWidgetLibraryItem, inkWidgetLibraryItemInstance,
    inkWidgetLibraryResource, inkanimAnimationLibraryResource, CName, CompoundWidget, Data,
    Flags, HandleId, InkWrapper, LeafWidget, Leaves, Package, PackageData, ResourcePath,
    TreeError, Widget, WidgetTree,
};

fn text(name: &str) -> Widget {
    Widget::inkTextWidget(inkTextWidget {
        name: CName(name.to_string()),
        ..Default::default()
    })
}

fn canvas(name: &str, children: Vec<Widget>) -> Widget {
    let mut c = CompoundWidget {
        name: CName(name.to_string()),
        ..Default::default()
    };
    c.children.data.children = children
        .into_iter()
        .enumerate()
        .map(|(i, w)| InkWrapper {
            handle_id: HandleId(i as u32 + 10),
            data: w,
        })
        .collect();
    Widget::inkCanvasWidget(c)
}

fn instance(root: Widget) -> inkWidgetLibraryItemInstance {
    inkWidgetLibraryItemInstance {
        root_widget: InkWrapper {
            handle_id: HandleId(1),
            data: root,
        },
    }
}

fn names(v: &[&str]) -> Vec<String> {
    v.iter().map(|s| s.to_string()).collect()
}

#[test]
fn scenario_title_under_root_canvas() {
    let tree = instance(canvas("root", vec![text("title")]));
    assert_eq!(tree.get_path_names(&[0]), Ok(Some(names(&["title"]))));
    assert_eq!(
        tree.get_widget_classname(&[0]),
        Ok(Some("inkTextWidget".to_string()))
    );
    assert_eq!(tree.get_path_indexes(&names(&["title"])), Ok(Some(vec![0])));
    assert_eq!(tree.get_path_names(&[0, 1]), Ok(None));
    assert_eq!(
        tree.get_widget_classname(&[0, 1]),
        Ok(Some("inkTextWidget".to_string()))
    );
}

fn sample() -> inkWidgetLibraryItemInstance {
    instance(canvas(
        "main_canvas",
        vec![
            text("header"),
            canvas(
                "body",
                vec![
                    text("label"),
                    Widget::inkVideoWidget(LeafWidget {
                        name: CName("clip".to_string()),
                        ..Default::default()
                    }),
                ],
            ),
            text("footer"),
        ],
    ))
}

#[test]
fn names_and_indexes_round_trip() {
    let tree = sample();
    let found = tree.get_path_names(&[1, 1]).unwrap().unwrap();
    assert_eq!(found, names(&["body", "clip"]));
    assert_eq!(tree.get_path_indexes(&found), Ok(Some(vec![1, 1])));
    assert_eq!(
        tree.get_widget_classname(&[1, 1]),
        Ok(Some("inkVideoWidget".to_string()))
    );
    assert_eq!(
        tree.get_widget_classname(&[1]),
        Ok(Some("inkCanvasWidget".to_string()))
    );
}

#[test]
fn leaf_absorbs_trailing_indexes() {
    let tree = sample();
    let short = tree.get_widget_classname(&[1, 0]);
    assert_eq!(short, Ok(Some("inkTextWidget".to_string())));
    assert_eq!(tree.get_widget_classname(&[1, 0, 9, 9]), short);
    assert_eq!(tree.get_path_names(&[1, 0, 9, 9]), Ok(None));
    assert_eq!(tree.get_path_names(&[1, 0]), Ok(Some(names(&["body", "label"]))));
}

#[test]
fn missing_paths_are_not_found() {
    let tree = sample();
    assert_eq!(tree.get_widget_classname(&[7]), Ok(None));
    assert_eq!(tree.get_path_names(&[1, 5]), Ok(None));
    assert_eq!(tree.get_path_indexes(&names(&["body", "nothing"])), Ok(None));
    assert_eq!(tree.get_path_indexes(&names(&["header", "below"])), Ok(None));
    assert_eq!(tree.get_path_names(&[]), Ok(Some(vec![])));
    assert_eq!(tree.get_path_indexes(&[]), Ok(Some(vec![])));
}

#[test]
fn first_child_of_a_name_wins() {
    let tree = instance(canvas("root", vec![text("twin"), text("twin")]));
    assert_eq!(tree.get_path_indexes(&names(&["twin"])), Ok(Some(vec![0])));
    assert_eq!(tree.get_path_names(&[1]), Ok(Some(names(&["twin"]))));
}

#[test]
fn wrapper_where_a_widget_belongs_is_an_error() {
    let stray = Widget::inkMultiChildren(inkMultiChildren { children: vec![] });
    let tree = instance(canvas("root", vec![text("a"), stray]));
    assert_eq!(
        tree.get_widget_classname(&[1]),
        Err(TreeError::UnexpectedMultiChildren(1))
    );
    assert_eq!(
        tree.get_path_names(&[1]),
        Err(TreeError::UnexpectedMultiChildren(1))
    );
    assert_eq!(
        tree.get_path_indexes(&names(&["zzz"])),
        Err(TreeError::UnexpectedMultiChildren(1))
    );
    assert_eq!(tree.get_path_indexes(&names(&["a"])), Ok(Some(vec![0])));
}

fn resource(items: Vec<inkWidgetLibraryItem>) -> inkWidgetLibraryResource {
    inkWidgetLibraryResource {
        animation_library_res_ref: inkanimAnimationLibraryResource {
            depot_path: ResourcePath(String::new()),
            flags: Flags::Default,
        },
        library_items: items,
    }
}

#[test]
fn resource_resolves_through_its_first_item() {
    let item = inkWidgetLibraryItem {
        name: CName("Root".to_string()),
        package: Package {
            data: PackageData {
                file: Data {
                    version: 1,
                    build_version: 2,
                    root_chunk: sample(),
                },
            },
        },
    };
    let res = resource(vec![item]);
    assert_eq!(res.get_path_names(&[2]), Ok(Some(names(&["footer"]))));
    assert_eq!(res.get_path_indexes(&names(&["body", "label"])), Ok(Some(vec![1, 0])));
    let empty = resource(vec![]);
    assert_eq!(empty.get_path_names(&[0]), Err(TreeError::MissingRoot));
    assert_eq!(empty.get_widget_classname(&[0]), Err(TreeError::MissingRoot));
}

#[test]
fn leaves_list_named_children() {
    let tree = sample();
    let summaries = tree.root_widget.data.leaves();
    let got: Vec<(u32, String)> = summaries
        .iter()
        .map(|s| (s.HandleId.0, s.Name.0.clone()))
        .collect();
    assert_eq!(
        got,
        vec![
            (10, "header".to_string()),
            (11, "body".to_string()),
            (12, "footer".to_string())
        ]
    );
    assert!(text("x").leaves().is_empty());
}

#[test]
fn widget_classification() {
    let c = canvas("c", vec![]);
    assert!(c.is_compound());
    assert!(!c.is_leaf());
    let t = text("t");
    assert!(t.is_leaf());
    assert!(!t.is_compound());
    let m = Widget::inkMultiChildren(inkMultiChildren { children: vec![] });
    assert!(!m.is_leaf());
    assert!(!m.is_compound());
    assert_eq!(m.name_string(), None);
    assert_eq!(t.name_string(), Some(&"t".to_string()));
    assert_eq!(c.kind_name(), "inkCanvasWidget");
    assert_eq!(c.script_class(), "inkCanvas");
    assert_eq!(t.script_class(), "inkText");
}

#[test]
fn node_at_follows_indexes() {
    let tree = sample();
    let root = &tree.root_widget.data;
    let body = inkanim::node_at(root, &[1]).unwrap().unwrap();
    assert_eq!(body.name(), Some("body"));
    let clip = inkanim::node_at(root, &[1, 1, 4]).unwrap().unwrap();
    assert_eq!(clip.name(), Some("clip"));
    assert!(inkanim::node_at(root, &[3]).unwrap().is_none());
    assert!(root.by_index(0).unwrap().is_leaf());
    assert!(root.by_index(5).is_none());
    let leaf = root.by_index(0).unwrap();
    assert!(leaf.by_index(0).is_none());
    let (i, w) = root.by_name(&"footer".to_string()).unwrap().unwrap();
    assert_eq!(i, 2);
    assert_eq!(w.name(), Some("footer"));
}
