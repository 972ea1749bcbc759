use vstd::prelude::*;

use crate::layout::{HDRColor, Vector2};
use crate::paths::{is_prefix_of, SiblingOrNested};
use crate::scalar::{CName, Decimal, HandleId};
use crate::widget::InkWrapper;

verus! {

broadcast use vstd::std_specs::vec::group_vec_axioms;

/// transparency interpolation direction
#[derive(Debug, Clone, Copy, PartialEq, Eq)]
pub enum Fade {
    /// transparency interpolates toward `1.`
    In,
    /// transparency interpolates toward `0.`
    Out,
}

/// every kind of possible interpolation
#[derive(Debug, Clone, Copy, PartialEq, Eq)]
pub enum InkAnimInterpolatorType {
    Color,
    Size,
    Scale,
    Translation,
    Transparency(Option<Fade>),
    TextValueProgress,
    Effect,
    Anchor,
    Pivot,
    Shear,
    Rotation,
    Margin,
    Padding,
    TextReplace,
    TextOffset,
}

impl InkAnimInterpolatorType {
    /// Transparency in either direction.
    pub fn opacity() -> (r: InkAnimInterpolatorType)
        ensures
            r == InkAnimInterpolatorType::Transparency(None),
    {
        InkAnimInterpolatorType::Transparency(None)
    }

    /// Transparency that grows.
    pub fn fade_in() -> (r: InkAnimInterpolatorType)
        ensures
            r == InkAnimInterpolatorType::Transparency(Some(Fade::In)),
    {
        InkAnimInterpolatorType::Transparency(Some(Fade::In))
    }

    /// Transparency that shrinks.
    pub fn fade_out() -> (r: InkAnimInterpolatorType)
        ensures
            r == InkAnimInterpolatorType::Transparency(Some(Fade::Out)),
    {
        InkAnimInterpolatorType::Transparency(Some(Fade::Out))
    }
}

/// see [NativeDB](https://nativedb.red4ext.com/inkanimInterpolationDirection)
#[derive(Debug, Clone, Copy, PartialEq, Eq)]
pub enum Direction {
    To,
    From,
    FromTo,
}

/// see [NativeDB](https://nativedb.red4ext.com/inkanimInterpolationMode)
#[derive(Debug, Clone, Copy, PartialEq, Eq)]
pub enum Mode {
    EasyIn,
    EasyOut,
    EasyInOut,
}

/// see [NativeDB](https://nativedb.red4ext.com/inkanimInterpolationType)
#[derive(Debug, Clone, Copy, PartialEq, Eq)]
pub enum Type {
    Linear,
    Quadratic,
    Qubic,
    Quartic,
    Quintic,
    Sinusoidal,
    Exponential,
    Elastic,
    Circular,
    Back,
}

/// specific interpolator values interpretation
///
/// possible interpretations: percent-based (scale), positions-based (translation), color-based
#[derive(Debug, Clone, Copy)]
pub enum Range {
    Percent(Decimal),
    Position(Vector2),
    Color(HDRColor),
}

/// Rank of the shape of a range: percent, then position, then color.
pub open spec fn range_rank(r: Range) -> int {
    match r {
        Range::Percent(_) => 0,
        Range::Position(_) => 1,
        Range::Color(_) => 2,
    }
}

/// The components of a range, in the order they are compared.
pub open spec fn range_components(r: Range) -> Seq<int> {
    match r {
        Range::Percent(p) => seq![p.scaled()],
        Range::Position(v) => seq![v.x.scaled(), v.y.scaled()],
        Range::Color(c) => seq![c.alpha.scaled(), c.blue.scaled(), c.green.scaled(), c.red.scaled()],
    }
}

/// `a` comes before `b` in the order of sequences compared item by item,
/// the first item that differs deciding.
pub open spec fn lex_lt(a: Seq<int>, b: Seq<int>) -> bool
    decreases a.len(),
{
    if a.len() == 0 || b.len() == 0 {
        false
    } else if a[0] != b[0] {
        a[0] < b[0]
    } else {
        lex_lt(a.drop_first(), b.drop_first())
    }
}

/// Natural order of ranges: a range of an earlier shape comes first; ranges
/// of one shape compare their components in order.
pub open spec fn range_lt(a: Range, b: Range) -> bool {
    if range_rank(a) != range_rank(b) {
        range_rank(a) < range_rank(b)
    } else {
        lex_lt(range_components(a), range_components(b))
    }
}

fn decimal_lex_step(a: &Decimal, b: &Decimal) -> (r: Option<bool>)
    ensures
        a.scaled() != b.scaled() ==> r == Some(a.scaled() < b.scaled()),
        a.scaled() == b.scaled() ==> r is None,
{
    if a.same_value(b) {
        None
    } else {
        Some(a.less_than(b))
    }
}

/// Whether range `a` comes before range `b` in their natural order.
pub fn range_less(a: &Range, b: &Range) -> (r: bool)
    ensures
        r == range_lt(*a, *b),
{
    proof {
        reveal_with_fuel(lex_lt, 5);
    }
    match (a, b) {
        (Range::Percent(x), Range::Percent(y)) => {
            assert(range_components(*a).drop_first().len() == 0);
            x.less_than(y)
        },
        (Range::Position(p), Range::Position(q)) => {
            let ghost ca = range_components(*a);
            let ghost cb = range_components(*b);
            assert(ca.drop_first() =~= seq![p.x.scaled(), p.y.scaled()].drop_first());
            assert(ca.drop_first().drop_first().len() == 0);
            assert(cb.drop_first() =~= seq![q.y.scaled()]);
            assert(ca.drop_first() =~= seq![p.y.scaled()]);
            match decimal_lex_step(&p.x, &q.x) {
                Some(r) => r,
                None => p.y.less_than(&q.y),
            }
        },
        (Range::Color(c), Range::Color(d)) => {
            let ghost ca = range_components(*a);
            let ghost cb = range_components(*b);
            assert(ca.drop_first() =~= seq![c.blue.scaled(), c.green.scaled(), c.red.scaled()]);
            assert(cb.drop_first() =~= seq![d.blue.scaled(), d.green.scaled(), d.red.scaled()]);
            assert(ca.drop_first().drop_first() =~= seq![c.green.scaled(), c.red.scaled()]);
            assert(cb.drop_first().drop_first() =~= seq![d.green.scaled(), d.red.scaled()]);
            assert(ca.drop_first().drop_first().drop_first() =~= seq![c.red.scaled()]);
            assert(cb.drop_first().drop_first().drop_first() =~= seq![d.red.scaled()]);
            assert(ca.drop_first().drop_first().drop_first().drop_first().len() == 0);
            match decimal_lex_step(&c.alpha, &d.alpha) {
                Some(r) => r,
                None => match decimal_lex_step(&c.blue, &d.blue) {
                    Some(r) => r,
                    None => match decimal_lex_step(&c.green, &d.green) {
                        Some(r) => r,
                        None => c.red.less_than(&d.red),
                    },
                },
            }
        },
        (Range::Percent(_), _) => true,
        (Range::Position(_), Range::Color(_)) => true,
        _ => false,
    }
}

/// start and end of an interpolation
#[derive(Debug, Clone, Copy)]
pub struct Transformation {
    pub from: Range,
    pub to: Range,
}

/// generic interpolator
#[derive(Debug, Clone, Copy)]
pub struct Interpolator {
    pub duration: Decimal,
    pub end_value: Range,
    pub interpolation_direction: Direction,
    pub interpolation_mode: Mode,
    pub interpolation_type: Type,
    pub is_additive: bool,
    pub start_delay: Decimal,
    pub start_value: Range,
    pub use_relative_duration: bool,
}

/// interpolator of a visual effect
#[derive(Debug)]
pub struct EffectInterpolator {
    pub effect_type: inkEffectType,
    pub effect_name: CName,
    pub param_name: CName,
    pub base: Interpolator,
}

impl EffectInterpolator {
    /// A copy of the interpolator.
    pub fn duplicate(&self) -> (r: EffectInterpolator)
        ensures
            r == *self,
    {
        EffectInterpolator {
            effect_type: self.effect_type,
            effect_name: CName(self.effect_name.0.clone()),
            param_name: CName(self.param_name.0.clone()),
            base: self.base,
        }
    }
}

/// kind of a visual effect
#[allow(non_camel_case_types)]
#[derive(Debug, Clone, Copy, PartialEq, Eq)]
pub enum inkEffectType {
    ScanlineWipe,
    LinearWipe,
    RadialWipe,
    LightSweep,
    BoxBlur,
    Mask,
    Glitch,
    PointCloud,
    ColorFill,
    InnerGlow,
    ColorCorrection,
    Multisampling,
    Blackwall,
}

/// any interpolator
///
/// possible kinds include: scale, translation, transparency, etc
#[allow(non_camel_case_types)]
#[derive(Debug)]
pub enum InkAnimInterpolator {
    inkanimScaleInterpolator(Interpolator),
    inkanimTranslationInterpolator(Interpolator),
    inkanimTransparencyInterpolator(Interpolator),
    inkanimSizeInterpolator(Interpolator),
    inkanimColorInterpolator(Interpolator),
    inkanimTextValueProgressInterpolator(Interpolator),
    inkanimEffectInterpolator(EffectInterpolator),
    inkanimAnchorInterpolator(Interpolator),
    inkanimPivotInterpolator(Interpolator),
    inkanimShearInterpolator(Interpolator),
    inkanimRotationInterpolator(Interpolator),
    inkanimMarginInterpolator(Interpolator),
    inkanimPaddingInterpolator(Interpolator),
    inkanimTextReplaceInterpolator(Interpolator),
    inkanimTextOffsetInterpolator(Interpolator),
}

impl InkAnimInterpolator {
    /// The fields every interpolator has.
    pub open spec fn spec_base(&self) -> Interpolator {
        match *self {
            Self::inkanimScaleInterpolator(i) => i,
            Self::inkanimTranslationInterpolator(i) => i,
            Self::inkanimTransparencyInterpolator(i) => i,
            Self::inkanimSizeInterpolator(i) => i,
            Self::inkanimColorInterpolator(i) => i,
            Self::inkanimTextValueProgressInterpolator(i) => i,
            Self::inkanimEffectInterpolator(e) => e.base,
            Self::inkanimAnchorInterpolator(i) => i,
            Self::inkanimPivotInterpolator(i) => i,
            Self::inkanimShearInterpolator(i) => i,
            Self::inkanimRotationInterpolator(i) => i,
            Self::inkanimMarginInterpolator(i) => i,
            Self::inkanimPaddingInterpolator(i) => i,
            Self::inkanimTextReplaceInterpolator(i) => i,
            Self::inkanimTextOffsetInterpolator(i) => i,
        }
    }

    pub fn base(&self) -> (r: &Interpolator)
        ensures
            *r == self.spec_base(),
    {
        match self {
            Self::inkanimScaleInterpolator(i) => i,
            Self::inkanimTranslationInterpolator(i) => i,
            Self::inkanimTransparencyInterpolator(i) => i,
            Self::inkanimSizeInterpolator(i) => i,
            Self::inkanimColorInterpolator(i) => i,
            Self::inkanimTextValueProgressInterpolator(i) => i,
            Self::inkanimEffectInterpolator(e) => &e.base,
            Self::inkanimAnchorInterpolator(i) => i,
            Self::inkanimPivotInterpolator(i) => i,
            Self::inkanimShearInterpolator(i) => i,
            Self::inkanimRotationInterpolator(i) => i,
            Self::inkanimMarginInterpolator(i) => i,
            Self::inkanimPaddingInterpolator(i) => i,
            Self::inkanimTextReplaceInterpolator(i) => i,
            Self::inkanimTextOffsetInterpolator(i) => i,
        }
    }

    /// Short description of the kind of interpolation.
    pub open spec fn spec_short_display(&self) -> &'static str {
        match *self {
            Self::inkanimScaleInterpolator(_) => "scale",
            Self::inkanimTranslationInterpolator(_) => "translation",
            Self::inkanimTransparencyInterpolator(_) => "transparency",
            Self::inkanimSizeInterpolator(_) => "size",
            Self::inkanimColorInterpolator(_) => "color",
            Self::inkanimTextValueProgressInterpolator(_) => "text value progress",
            Self::inkanimEffectInterpolator(e) => match e.effect_type {
                inkEffectType::ScanlineWipe => "effect (scan line wipe)",
                inkEffectType::LinearWipe => "effect (linear wipe)",
                inkEffectType::RadialWipe => "effect (radial wipe)",
                inkEffectType::LightSweep => "effect (light sweep)",
                inkEffectType::BoxBlur => "effect (box blur)",
                inkEffectType::Mask => "effect (mask)",
                inkEffectType::Glitch => "effect (glitch)",
                inkEffectType::PointCloud => "effect (point cloud)",
                inkEffectType::ColorFill => "effect (color fill)",
                inkEffectType::InnerGlow => "effect (inner glow)",
                inkEffectType::ColorCorrection => "effect (color correction)",
                inkEffectType::Multisampling => "effect (multisampling)",
                inkEffectType::Blackwall => "effect (blackwall)",
            },
            Self::inkanimAnchorInterpolator(_) => "anchor",
            Self::inkanimPivotInterpolator(_) => "pivot",
            Self::inkanimShearInterpolator(_) => "shear",
            Self::inkanimRotationInterpolator(_) => "rotation",
            Self::inkanimMarginInterpolator(_) => "margin",
            Self::inkanimPaddingInterpolator(_) => "padding",
            Self::inkanimTextReplaceInterpolator(_) => "text replace",
            Self::inkanimTextOffsetInterpolator(_) => "text offset",
        }
    }

    pub fn as_short_display(&self) -> (r: &'static str)
        ensures
            r == self.spec_short_display(),
    {
        match self {
            Self::inkanimScaleInterpolator(_) => "scale",
            Self::inkanimTranslationInterpolator(_) => "translation",
            Self::inkanimTransparencyInterpolator(_) => "transparency",
            Self::inkanimSizeInterpolator(_) => "size",
            Self::inkanimColorInterpolator(_) => "color",
            Self::inkanimTextValueProgressInterpolator(_) => "text value progress",
            Self::inkanimEffectInterpolator(e) => match e.effect_type {
                inkEffectType::ScanlineWipe => "effect (scan line wipe)",
                inkEffectType::LinearWipe => "effect (linear wipe)",
                inkEffectType::RadialWipe => "effect (radial wipe)",
                inkEffectType::LightSweep => "effect (light sweep)",
                inkEffectType::BoxBlur => "effect (box blur)",
                inkEffectType::Mask => "effect (mask)",
                inkEffectType::Glitch => "effect (glitch)",
                inkEffectType::PointCloud => "effect (point cloud)",
                inkEffectType::ColorFill => "effect (color fill)",
                inkEffectType::InnerGlow => "effect (inner glow)",
                inkEffectType::ColorCorrection => "effect (color correction)",
                inkEffectType::Multisampling => "effect (multisampling)",
                inkEffectType::Blackwall => "effect (blackwall)",
            },
            Self::inkanimAnchorInterpolator(_) => "anchor",
            Self::inkanimPivotInterpolator(_) => "pivot",
            Self::inkanimShearInterpolator(_) => "shear",
            Self::inkanimRotationInterpolator(_) => "rotation",
            Self::inkanimMarginInterpolator(_) => "margin",
            Self::inkanimPaddingInterpolator(_) => "padding",
            Self::inkanimTextReplaceInterpolator(_) => "text replace",
            Self::inkanimTextOffsetInterpolator(_) => "text offset",
        }
    }

    /// Whether the interpolator is of the kind `filter` asks for; a
    /// transparency filter with a fade direction also asks for the
    /// direction of the values.
    pub open spec fn spec_matches(&self, filter: InkAnimInterpolatorType) -> bool {
        match *self {
            Self::inkanimScaleInterpolator(_) => filter is Scale,
            Self::inkanimTranslationInterpolator(_) => filter is Translation,
            Self::inkanimTransparencyInterpolator(i) => match filter {
                InkAnimInterpolatorType::Transparency(None) => true,
                InkAnimInterpolatorType::Transparency(Some(Fade::In)) => range_lt(i.start_value, i.end_value),
                InkAnimInterpolatorType::Transparency(Some(Fade::Out)) => range_lt(i.end_value, i.start_value),
                _ => false,
            },
            Self::inkanimSizeInterpolator(_) => filter is Size,
            Self::inkanimColorInterpolator(_) => filter is Color,
            Self::inkanimTextValueProgressInterpolator(_) => filter is TextValueProgress,
            Self::inkanimEffectInterpolator(_) => filter is Effect,
            Self::inkanimAnchorInterpolator(_) => filter is Anchor,
            Self::inkanimPivotInterpolator(_) => filter is Pivot,
            Self::inkanimShearInterpolator(_) => filter is Shear,
            Self::inkanimRotationInterpolator(_) => filter is Rotation,
            Self::inkanimMarginInterpolator(_) => filter is Margin,
            Self::inkanimPaddingInterpolator(_) => filter is Padding,
            Self::inkanimTextReplaceInterpolator(_) => filter is TextReplace,
            Self::inkanimTextOffsetInterpolator(_) => filter is TextOffset,
        }
    }

    pub fn matches(&self, filter: &InkAnimInterpolatorType) -> (r: bool)
        ensures
            r == self.spec_matches(*filter),
    {
        match self {
            Self::inkanimScaleInterpolator(_) => matches!(filter, InkAnimInterpolatorType::Scale),
            Self::inkanimTranslationInterpolator(_) => matches!(filter, InkAnimInterpolatorType::Translation),
            Self::inkanimTransparencyInterpolator(i) => match filter {
                InkAnimInterpolatorType::Transparency(None) => true,
                InkAnimInterpolatorType::Transparency(Some(Fade::In)) => range_less(&i.start_value, &i.end_value),
                InkAnimInterpolatorType::Transparency(Some(Fade::Out)) => range_less(&i.end_value, &i.start_value),
                _ => false,
            },
            Self::inkanimSizeInterpolator(_) => matches!(filter, InkAnimInterpolatorType::Size),
            Self::inkanimColorInterpolator(_) => matches!(filter, InkAnimInterpolatorType::Color),
            Self::inkanimTextValueProgressInterpolator(_) => matches!(filter, InkAnimInterpolatorType::TextValueProgress),
            Self::inkanimEffectInterpolator(_) => matches!(filter, InkAnimInterpolatorType::Effect),
            Self::inkanimAnchorInterpolator(_) => matches!(filter, InkAnimInterpolatorType::Anchor),
            Self::inkanimPivotInterpolator(_) => matches!(filter, InkAnimInterpolatorType::Pivot),
            Self::inkanimShearInterpolator(_) => matches!(filter, InkAnimInterpolatorType::Shear),
            Self::inkanimRotationInterpolator(_) => matches!(filter, InkAnimInterpolatorType::Rotation),
            Self::inkanimMarginInterpolator(_) => matches!(filter, InkAnimInterpolatorType::Margin),
            Self::inkanimPaddingInterpolator(_) => matches!(filter, InkAnimInterpolatorType::Padding),
            Self::inkanimTextReplaceInterpolator(_) => matches!(filter, InkAnimInterpolatorType::TextReplace),
            Self::inkanimTextOffsetInterpolator(_) => matches!(filter, InkAnimInterpolatorType::TextOffset),
        }
    }

    /// A copy of the interpolator.
    pub fn duplicate(&self) -> (r: InkAnimInterpolator)
        ensures
            r == *self,
    {
        match self {
            Self::inkanimScaleInterpolator(i) => Self::inkanimScaleInterpolator(*i),
            Self::inkanimTranslationInterpolator(i) => Self::inkanimTranslationInterpolator(*i),
            Self::inkanimTransparencyInterpolator(i) => Self::inkanimTransparencyInterpolator(*i),
            Self::inkanimSizeInterpolator(i) => Self::inkanimSizeInterpolator(*i),
            Self::inkanimColorInterpolator(i) => Self::inkanimColorInterpolator(*i),
            Self::inkanimTextValueProgressInterpolator(i) => Self::inkanimTextValueProgressInterpolator(*i),
            Self::inkanimEffectInterpolator(e) => Self::inkanimEffectInterpolator(e.duplicate()),
            Self::inkanimAnchorInterpolator(i) => Self::inkanimAnchorInterpolator(*i),
            Self::inkanimPivotInterpolator(i) => Self::inkanimPivotInterpolator(*i),
            Self::inkanimShearInterpolator(i) => Self::inkanimShearInterpolator(*i),
            Self::inkanimRotationInterpolator(i) => Self::inkanimRotationInterpolator(*i),
            Self::inkanimMarginInterpolator(i) => Self::inkanimMarginInterpolator(*i),
            Self::inkanimPaddingInterpolator(i) => Self::inkanimPaddingInterpolator(*i),
            Self::inkanimTextReplaceInterpolator(i) => Self::inkanimTextReplaceInterpolator(*i),
            Self::inkanimTextOffsetInterpolator(i) => Self::inkanimTextOffsetInterpolator(*i),
        }
    }
}

impl InkAnimInterpolator {
    pub fn starts(&self) -> (r: Decimal)
        ensures
            r == self.spec_base().start_delay,
    {
        self.base().start_delay
    }

    /// When the interpolation ends: its start delay plus its duration;
    /// `None` when the sum does not fit.
    pub fn ends(&self) -> (r: Option<Decimal>)
        ensures
            r matches Some(d) ==> d.scaled() == self.spec_base().start_delay.scaled()
                + self.spec_base().duration.scaled(),
    {
        let b = self.base();
        b.start_delay.checked_add(&b.duration)
    }

    pub fn duration(&self) -> (r: Decimal)
        ensures
            r == self.spec_base().duration,
    {
        self.base().duration
    }

    pub fn direction(&self) -> (r: Direction)
        ensures
            r == self.spec_base().interpolation_direction,
    {
        self.base().interpolation_direction
    }

    pub fn interpolation_type(&self) -> (r: Type)
        ensures
            r == self.spec_base().interpolation_type,
    {
        self.base().interpolation_type
    }

    pub fn mode(&self) -> (r: Mode)
        ensures
            r == self.spec_base().interpolation_mode,
    {
        self.base().interpolation_mode
    }

    pub fn transformation(&self) -> (r: Transformation)
        ensures
            r.from == self.spec_base().start_value,
            r.to == self.spec_base().end_value,
    {
        let b = self.base();
        Transformation { from: b.start_value, to: b.end_value }
    }
}

impl InkWrapper<InkAnimInterpolator> {
    /// A copy of the interpolator with its handle ID.
    pub fn duplicate(&self) -> (r: InkWrapper<InkAnimInterpolator>)
        ensures
            r == *self,
    {
        InkWrapper { handle_id: self.handle_id, data: self.data.duplicate() }
    }
}

/// a sequence of interpolators
#[derive(Debug)]
pub struct InkAnimDefinition {
    pub interpolators: Vec<InkWrapper<InkAnimInterpolator>>,
}

/// when related to interpolator(s),
/// corresponding target is a sequence of digits indicating the path to the nested element
///
/// see [NativeDB](https://nativedb.red4ext.com/inkanimSequenceTargetInfo)
#[derive(Debug)]
pub struct InkAnimSequenceTargetInfo {
    /// path to the nested element (indexes)
    pub path: Vec<usize>,
}

/// when declaring interpolation event(s), corresponding target has a negative handle ref ID
#[derive(Debug, Clone, Copy)]
pub struct BlankInkAnimSequenceTargetInfo {
    /// typically here the value is `-1`
    pub handle_ref_id: i32,
}

/// any target
#[derive(Debug)]
pub enum Target {
    /// a sequence of digits (path to nested element) : when related to interpolator(s)
    WithHandleId(InkWrapper<InkAnimSequenceTargetInfo>),
    /// a negative handle ID (not element related) : when declaring interpolation event(s)
    WithoutHandleId(BlankInkAnimSequenceTargetInfo),
}

/// a sequence of interpolations (interpolators and events)
///
/// `definitions` and `targets` are paired by position.
#[derive(Debug)]
pub struct InkAnimSequence {
    /// describe the interpolations played
    pub definitions: Vec<InkWrapper<InkAnimDefinition>>,
    pub name: CName,
    /// describe the targets onto which the interpolations are played
    pub targets: Vec<Target>,
}

/// the animation sequences of a widget library
#[derive(Debug)]
pub struct InkAnimAnimationLibraryResource {
    pub sequences: Vec<InkWrapper<InkAnimSequence>>,
}

/// orphan interpolator
#[derive(Debug)]
pub struct OrphanInkAnimInterpolator {
    pub index: usize,
    pub interpolator: InkWrapper<InkAnimInterpolator>,
}

/// animation aggregated informations summary
#[allow(non_snake_case)]
#[derive(Debug)]
pub struct PathSummary {
    /// animation name
    pub Name: CName,
    /// unique handle ID
    pub HandleId: HandleId,
    /// index in sequence
    pub Index: usize,
    /// path to the nested element
    pub Path: Vec<usize>,
}

/// The interpolators of `items` that match `filter`, in their order.
pub open spec fn keep_matching(
    items: Seq<InkWrapper<InkAnimInterpolator>>,
    filter: InkAnimInterpolatorType,
) -> Seq<InkWrapper<InkAnimInterpolator>>
    decreases items.len(),
{
    if items.len() == 0 {
        Seq::empty()
    } else {
        let rest = keep_matching(items.drop_last(), filter);
        if items.last().data.spec_matches(filter) {
            rest.push(items.last())
        } else {
            rest
        }
    }
}

/// What summarizes target `i` of a sequence, when its path lies at or
/// beneath `searched`.
pub open spec fn target_summary(seq_name: Seq<char>, t: Target, i: int, searched: Seq<usize>) -> Seq<
    (Seq<char>, HandleId, int, Seq<usize>),
> {
    match t {
        Target::WithHandleId(h) => if is_prefix_of(searched, h.data.path@) {
            seq![(seq_name, h.handle_id, i, h.data.path@)]
        } else {
            Seq::empty()
        },
        Target::WithoutHandleId(_) => Seq::empty(),
    }
}

/// Summaries of the targets `0..n` whose paths lie at or beneath `searched`.
pub open spec fn summaries_upto(
    seq_name: Seq<char>,
    targets: Seq<Target>,
    searched: Seq<usize>,
    n: int,
) -> Seq<(Seq<char>, HandleId, int, Seq<usize>)>
    decreases n,
{
    if n <= 0 {
        Seq::empty()
    } else {
        summaries_upto(seq_name, targets, searched, n - 1) + target_summary(
            seq_name,
            targets[n - 1],
            n - 1,
            searched,
        )
    }
}

/// The contents of path summaries.
pub open spec fn summaries_view(v: Seq<PathSummary>) -> Seq<(Seq<char>, HandleId, int, Seq<usize>)> {
    v.map_values(|s: PathSummary| (s.Name.0@, s.HandleId, s.Index as int, s.Path@))
}

fn copy_path(p: &Vec<usize>) -> (r: Vec<usize>)
    ensures
        r@ == p@,
{
    let mut out: Vec<usize> = Vec::new();
    let mut i: usize = 0;
    while i < p.len()
        invariant
            i <= p@.len(),
            out@ == p@.take(i as int),
        decreases p@.len() - i,
    {
        out.push(p[i]);
        i = i + 1;
        assert(out@ =~= p@.take(i as int));
    }
    assert(p@.take(i as int) =~= p@);
    out
}

impl InkAnimSequence {
    /// The interpolators of the first definition that match `filter`, in
    /// their order. A sequence without definitions is a usage error.
    pub fn get_interpolators_matching(&self, filter: &InkAnimInterpolatorType) -> (r: Vec<
        InkWrapper<InkAnimInterpolator>,
    >)
        requires
            self.definitions@.len() > 0,
        ensures
            r@ == keep_matching(self.definitions@[0].data.interpolators@, *filter),
    {
        let items = &self.definitions[0].data.interpolators;
        let mut out: Vec<InkWrapper<InkAnimInterpolator>> = Vec::new();
        let mut i: usize = 0;
        while i < items.len()
            invariant
                i <= items@.len(),
                out@ == keep_matching(items@.take(i as int), *filter),
            decreases items@.len() - i,
        {
            let item = &items[i];
            proof {
                let t = items@.take(i as int + 1);
                assert(t.drop_last() =~= items@.take(i as int));
                assert(t.last() == items@[i as int]);
            }
            if item.data.matches(filter) {
                out.push(item.duplicate());
            }
            i = i + 1;
        }
        assert(items@.take(i as int) =~= items@);
        out
    }

    /// Summaries of the targets whose paths lie at or beneath `searched`, in
    /// the order of the targets; event targets have no path and never match.
    pub fn get_path_indexes_matching(&self, searched: &[usize]) -> (r: Vec<PathSummary>)
        ensures
            summaries_view(r@) == summaries_upto(
                self.name.0@,
                self.targets@,
                searched@,
                self.targets@.len() as int,
            ),
    {
        let mut out: Vec<PathSummary> = Vec::new();
        let mut i: usize = 0;
        while i < self.targets.len()
            invariant
                i <= self.targets@.len(),
                summaries_view(out@) == summaries_upto(self.name.0@, self.targets@, searched@, i as int),
            decreases self.targets@.len() - i,
        {
            let ghost before = out@;
            match &self.targets[i] {
                Target::WithHandleId(handle) => {
                    let path = &handle.data.path;
                    if path.sibling_or_nested(searched) {
                        out.push(
                            PathSummary {
                                Name: CName(self.name.0.clone()),
                                HandleId: handle.handle_id,
                                Index: i,
                                Path: copy_path(path),
                            },
                        );
                        assert(summaries_view(out@) =~= summaries_view(before) + target_summary(
                            self.name.0@,
                            self.targets@[i as int],
                            i as int,
                            searched@,
                        ));
                    } else {
                        assert(summaries_view(out@) =~= summaries_view(before) + target_summary(
                            self.name.0@,
                            self.targets@[i as int],
                            i as int,
                            searched@,
                        ));
                    }
                },
                Target::WithoutHandleId(_) => {
                    assert(summaries_view(out@) =~= summaries_view(before) + target_summary(
                        self.name.0@,
                        self.targets@[i as int],
                        i as int,
                        searched@,
                    ));
                },
            }
            i = i + 1;
        }
        out
    }
}

impl InkWrapper<InkAnimSequence> {
    pub fn name(&self) -> (r: &str)
        ensures
            r@ == self.data.name.0@,
    {
        self.data.name.as_str()
    }
}

/// No sequence comes before a sequence that comes before it.
pub proof fn lemma_lex_lt_asymmetric(a: Seq<int>, b: Seq<int>)
    ensures
        lex_lt(a, b) ==> !lex_lt(b, a),
    decreases a.len(),
{
    if a.len() > 0 && b.len() > 0 && a[0] == b[0] {
        lemma_lex_lt_asymmetric(a.drop_first(), b.drop_first());
    }
}

/// Fade classification: a transparency interpolator matches the plain
/// transparency filter whatever its values; it matches fade-in exactly when
/// its start value comes before its end value, fade-out exactly when its end
/// value comes before its start value, and never both. For percentages the
/// order is the order of the numbers.
pub proof fn lemma_fade_classification(i: Interpolator)
    ensures
        InkAnimInterpolator::inkanimTransparencyInterpolator(i).spec_matches(
            InkAnimInterpolatorType::Transparency(None),
        ),
        InkAnimInterpolator::inkanimTransparencyInterpolator(i).spec_matches(
            InkAnimInterpolatorType::Transparency(Some(Fade::In)),
        ) == range_lt(i.start_value, i.end_value),
        InkAnimInterpolator::inkanimTransparencyInterpolator(i).spec_matches(
            InkAnimInterpolatorType::Transparency(Some(Fade::Out)),
        ) == range_lt(i.end_value, i.start_value),
        !(InkAnimInterpolator::inkanimTransparencyInterpolator(i).spec_matches(
            InkAnimInterpolatorType::Transparency(Some(Fade::In)),
        ) && InkAnimInterpolator::inkanimTransparencyInterpolator(i).spec_matches(
            InkAnimInterpolatorType::Transparency(Some(Fade::Out)),
        )),
        i.start_value matches Range::Percent(a) ==> i.end_value matches Range::Percent(b) ==> (
        range_lt(i.start_value, i.end_value) <==> a.scaled() < b.scaled()),
{
    lemma_lex_lt_asymmetric(range_components(i.start_value), range_components(i.end_value));
    reveal_with_fuel(lex_lt, 2);
}

/// Positions, among the first `n` interpolators, of those that match
/// `filter`; every position when there is no filter.
pub open spec fn positions_matching(
    items: Seq<InkWrapper<InkAnimInterpolator>>,
    filter: Option<InkAnimInterpolatorType>,
    n: int,
) -> Seq<usize>
    decreases n,
{
    if n <= 0 {
        Seq::empty()
    } else {
        let rest = positions_matching(items, filter, n - 1);
        if filter is None || items[n - 1].data.spec_matches(filter->Some_0) {
            rest.push((n - 1) as usize)
        } else {
            rest
        }
    }
}

/// Whether a target passes the path filter: without a filter every target
/// does; with one, only a target whose path lies at or beneath it.
pub open spec fn target_within(t: Target, filter: Option<Seq<usize>>) -> bool {
    match filter {
        None => true,
        Some(p) => match t {
            Target::WithHandleId(h) => is_prefix_of(p, h.data.path@),
            Target::WithoutHandleId(_) => false,
        },
    }
}

/// The definitions among the first `n` that a listing shows, each with the
/// positions of its interpolators that pass the kind filter: a definition
/// is shown when some interpolator passes and its target passes the path
/// filter.
pub open spec fn listing_upto(
    s: InkAnimSequence,
    kind: Option<InkAnimInterpolatorType>,
    path: Option<Seq<usize>>,
    n: int,
) -> Seq<(usize, Seq<usize>)>
    decreases n,
{
    if n <= 0 {
        Seq::empty()
    } else {
        let rest = listing_upto(s, kind, path, n - 1);
        let items = s.definitions@[n - 1].data.interpolators@;
        let ps = positions_matching(items, kind, items.len() as int);
        if ps.len() > 0 && target_within(s.targets@[n - 1], path) {
            rest.push(((n - 1) as usize, ps))
        } else {
            rest
        }
    }
}

/// A definition that a listing shows, with the positions of the
/// interpolators it shows.
#[derive(Debug)]
pub struct DefinitionMatch {
    pub definition: usize,
    pub interpolators: Vec<usize>,
}

/// The contents of definition matches.
pub open spec fn matches_view(v: Seq<DefinitionMatch>) -> Seq<(usize, Seq<usize>)> {
    v.map_values(|m: DefinitionMatch| (m.definition, m.interpolators@))
}

fn matching_positions(items: &Vec<InkWrapper<InkAnimInterpolator>>, kind: Option<InkAnimInterpolatorType>) -> (r: Vec<usize>)
    ensures
        r@ == positions_matching(items@, kind, items@.len() as int),
{
    let mut out: Vec<usize> = Vec::new();
    let mut i: usize = 0;
    while i < items.len()
        invariant
            i <= items@.len(),
            out@ == positions_matching(items@, kind, i as int),
        decreases items@.len() - i,
    {
        let keep = match &kind {
            None => true,
            Some(f) => items[i].data.matches(f),
        };
        if keep {
            out.push(i);
        }
        i = i + 1;
    }
    out
}

fn path_passes(t: &Target, path: Option<&[usize]>) -> (r: bool)
    ensures
        r == target_within(*t, match path {
            Some(p) => Some(p@),
            None => None,
        }),
{
    match path {
        None => true,
        Some(p) => match t {
            Target::WithHandleId(h) => h.data.path.sibling_or_nested(p),
            Target::WithoutHandleId(_) => false,
        },
    }
}

impl InkAnimSequence {
    /// The definitions to list, in order, each paired by position with its
    /// target: those with an interpolator of the asked kind (any kind when
    /// none is asked) whose target lies at or beneath the asked path (any
    /// target when none is asked; an event target never does).
    pub fn listing(&self, kind: Option<InkAnimInterpolatorType>, path: Option<&[usize]>) -> (r: Vec<
        DefinitionMatch,
    >)
        requires
            self.definitions@.len() == self.targets@.len(),
        ensures
            matches_view(r@) == listing_upto(
                *self,
                kind,
                match path {
                    Some(p) => Some(p@),
                    None => None,
                },
                self.definitions@.len() as int,
            ),
    {
        let ghost fp = match path {
            Some(p) => Some(p@),
            None => None,
        };
        let mut out: Vec<DefinitionMatch> = Vec::new();
        let mut k: usize = 0;
        while k < self.definitions.len()
            invariant
                k <= self.definitions@.len() == self.targets@.len(),
                fp == match path {
                    Some(p) => Some(p@),
                    None => None::<Seq<usize>>,
                },
                matches_view(out@) == listing_upto(*self, kind, fp, k as int),
            decreases self.definitions@.len() - k,
        {
            let ps = matching_positions(&self.definitions[k].data.interpolators, kind);
            let ghost before = matches_view(out@);
            if ps.len() > 0 && path_passes(&self.targets[k], path) {
                let ghost v = ps@;
                out.push(DefinitionMatch { definition: k, interpolators: ps });
                assert(matches_view(out@) =~= before.push((k, v)));
            }
            k = k + 1;
        }
        out
    }
}

} // verus!
