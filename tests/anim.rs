use inkanim::{
    inkEffectType, BlankInkAnimSequenceTargetInfo, CName, Decimal, Direction, EffectInterpolator,
    Fade, HDRColor, HandleId, InkAnimDefinition, InkAnimInterpolator, InkAnimInterpolatorType,
    InkAnimSequence, InkAnimSequenceTargetInfo, InkWrapper, Interpolator, Mode, Range, Target,
    Type, Vector2,
};

fn dec(units: i64, scale: u8) -> Decimal {
    Decimal::new(units, scale).unwrap()
}

fn interp(start: Range, end: Range) -> Interpolator {
    Interpolator {
        duration: dec(5, 1),
        end_value: end,
        interpolation_direction: Direction::To,
        interpolation_mode: Mode::EasyIn,
        interpolation_type: Type::Linear,
        is_additive: false,
        start_delay: dec(1, 1),
        start_value: start,
        use_relative_duration: false,
    }
}

fn percent(units: i64, scale: u8) -> Range {
    Range::Percent(dec(units, scale))
}

fn fade_in() -> InkAnimInterpolatorType {
    InkAnimInterpolatorType::Transparency(Some(Fade::In))
}

fn fade_out() -> InkAnimInterpolatorType {
    InkAnimInterpolatorType::Transparency(Some(Fade::Out))
}

fn opacity() -> InkAnimInterpolatorType {
    InkAnimInterpolatorType::Transparency(None)
}

#[test]
fn fade_classification() {
    let up = InkAnimInterpolator::inkanimTransparencyInterpolator(interp(percent(0, 1), percent(10, 1)));
    assert!(up.matches(&fade_in()));
    assert!(!up.matches(&fade_out()));
    assert!(up.matches(&opacity()));
    let down = InkAnimInterpolator::inkanimTransparencyInterpolator(interp(percent(10, 1), percent(0, 1)));
    assert!(down.matches(&fade_out()));
    assert!(!down.matches(&fade_in()));
    assert!(down.matches(&opacity()));
    let flat = InkAnimInterpolator::inkanimTransparencyInterpolator(interp(percent(5, 1), percent(50, 2)));
    assert!(!flat.matches(&fade_in()));
    assert!(!flat.matches(&fade_out()));
    assert!(flat.matches(&opacity()));
}

#[test]
fn named_filters() {
    assert_eq!(InkAnimInterpolatorType::fade_in(), fade_in());
    assert_eq!(InkAnimInterpolatorType::fade_out(), fade_out());
    assert_eq!(InkAnimInterpolatorType::opacity(), opacity());
}

#[test]
fn kinds_match_by_tag() {
    let scale = InkAnimInterpolator::inkanimScaleInterpolator(interp(percent(1, 0), percent(2, 0)));
    assert!(scale.matches(&InkAnimInterpolatorType::Scale));
    assert!(!scale.matches(&InkAnimInterpolatorType::Size));
    assert!(!scale.matches(&opacity()));
    assert_eq!(scale.as_short_display(), "scale");
}

#[test]
fn positions_and_colors_compare_in_component_order() {
    let a = Range::Position(Vector2 { x: dec(1, 0), y: dec(9, 0) });
    let b = Range::Position(Vector2 { x: dec(2, 0), y: dec(0, 0) });
    let t = InkAnimInterpolator::inkanimTransparencyInterpolator(interp(a, b));
    assert!(t.matches(&fade_in()));
    let c1 = HDRColor { alpha: dec(1, 0), blue: dec(0, 0), green: dec(0, 0), red: dec(0, 0) };
    let c2 = HDRColor { alpha: dec(1, 0), blue: dec(0, 0), green: dec(0, 0), red: dec(1, 0) };
    let t2 = InkAnimInterpolator::inkanimTransparencyInterpolator(interp(Range::Color(c2), Range::Color(c1)));
    assert!(t2.matches(&fade_out()));
    let mixed = InkAnimInterpolator::inkanimTransparencyInterpolator(interp(percent(5, 0), a));
    assert!(mixed.matches(&fade_in()));
}

#[test]
fn effect_display_names_the_effect() {
    let e = InkAnimInterpolator::inkanimEffectInterpolator(EffectInterpolator {
        effect_type: inkEffectType::BoxBlur,
        effect_name: CName("blur".to_string()),
        param_name: CName("intensity".to_string()),
        base: interp(percent(0, 0), percent(1, 0)),
    });
    assert_eq!(e.as_short_display(), "effect (box blur)");
    assert!(e.matches(&InkAnimInterpolatorType::Effect));
    assert_eq!(e.starts().units(), 1);
    assert_eq!(e.duration().units(), 5);
    assert_eq!(e.direction(), Direction::To);
    assert_eq!(e.mode(), Mode::EasyIn);
    assert_eq!(e.interpolation_type(), Type::Linear);
}

fn wrapped(id: u32, i: InkAnimInterpolator) -> InkWrapper<InkAnimInterpolator> {
    InkWrapper { handle_id: HandleId(id), data: i }
}

fn target(id: u32, path: Vec<usize>) -> Target {
    Target::WithHandleId(InkWrapper {
        handle_id: HandleId(id),
        data: InkAnimSequenceTargetInfo { path },
    })
}

fn sequence() -> InkAnimSequence {
    let first = InkAnimDefinition {
        interpolators: vec![
            wrapped(1, InkAnimInterpolator::inkanimTransparencyInterpolator(interp(percent(0, 0), percent(1, 0)))),
            wrapped(2, InkAnimInterpolator::inkanimScaleInterpolator(interp(percent(1, 0), percent(2, 0)))),
            wrapped(3, InkAnimInterpolator::inkanimTransparencyInterpolator(interp(percent(1, 0), percent(0, 0)))),
        ],
    };
    let second = InkAnimDefinition { interpolators: vec![] };
    let third = InkAnimDefinition { interpolators: vec![] };
    InkAnimSequence {
        definitions: vec![
            InkWrapper { handle_id: HandleId(20), data: first },
            InkWrapper { handle_id: HandleId(21), data: second },
            InkWrapper { handle_id: HandleId(22), data: third },
        ],
        name: CName("intro".to_string()),
        targets: vec![
            target(30, vec![1, 3, 0]),
            Target::WithoutHandleId(BlankInkAnimSequenceTargetInfo { handle_ref_id: -1 }),
            target(31, vec![1, 2]),
        ],
    }
}

#[test]
fn interpolators_of_first_definition_by_kind() {
    let s = sequence();
    let ids = |f: InkAnimInterpolatorType| -> Vec<u32> {
        s.get_interpolators_matching(&f).iter().map(|w| w.handle_id.0).collect()
    };
    assert_eq!(ids(opacity()), vec![1, 3]);
    assert_eq!(ids(fade_in()), vec![1]);
    assert_eq!(ids(fade_out()), vec![3]);
    assert_eq!(ids(InkAnimInterpolatorType::Scale), vec![2]);
    assert_eq!(ids(InkAnimInterpolatorType::Color), Vec::<u32>::new());
}

#[test]
fn targets_filtered_by_path() {
    let s = sequence();
    assert!(s.is_well_formed());
    let found = s.get_path_indexes_matching(&[1, 3]);
    assert_eq!(found.len(), 1);
    assert_eq!(found[0].Index, 0);
    assert_eq!(found[0].HandleId.0, 30);
    assert_eq!(found[0].Path, vec![1, 3, 0]);
    assert_eq!(found[0].Name.0, "intro");
    let all = s.get_path_indexes_matching(&[]);
    assert_eq!(all.iter().map(|p| p.Index).collect::<Vec<_>>(), vec![0, 2]);
    assert!(s.get_path_indexes_matching(&[4]).is_empty());
}

#[test]
fn listing_pairs_definitions_with_targets() {
    let s = sequence();
    let all = s.listing(None, None);
    assert_eq!(all.len(), 1);
    assert_eq!(all[0].definition, 0);
    assert_eq!(all[0].interpolators, vec![0, 1, 2]);
    let fades = s.listing(Some(fade_out()), None);
    assert_eq!(fades[0].interpolators, vec![2]);
    assert!(s.listing(Some(InkAnimInterpolatorType::Color), None).is_empty());
    assert_eq!(s.listing(None, Some(&[1, 3])).len(), 1);
    assert!(s.listing(None, Some(&[1, 2])).is_empty());
}

#[test]
fn interpolation_ends_after_its_duration() {
    let i = InkAnimInterpolator::inkanimScaleInterpolator(interp(percent(1, 0), percent(2, 0)));
    let end = i.ends().unwrap();
    assert!(end.same_value(&dec(6, 1)));
    let t = i.transformation();
    assert!(matches!(t.from, Range::Percent(p) if p.same_value(&dec(1, 0))));
    assert!(matches!(t.to, Range::Percent(p) if p.same_value(&dec(2, 0))));
}
