use vstd::prelude::*;

use crate::scalar::{
    enum_text, enum_value, lines_view, struct_text, struct_value, CName, Decimal, IsDefault,
    RedsValue, ResourcePath,
};

verus! {

/// anchor point of a widget in its parent
#[allow(non_camel_case_types)]
#[derive(Debug, Clone, Copy, PartialEq, Eq)]
pub enum inkEAnchor {
    TopLeft,
    TopCenter,
    TopRight,
    CenterLeft,
    Centered,
    CenterRight,
    BottomLeft,
    BottomCenter,
    BottomRight,
    TopFillHorizontaly,
    CenterFillHorizontaly,
    BottomFillHorizontaly,
    LeftFillVerticaly,
    CenterFillVerticaly,
    RightFillVerticaly,
    Fill,
}

impl inkEAnchor {
    pub open spec fn spec_variant(&self) -> &'static str {
        match self {
            Self::TopLeft => "TopLeft",
            Self::TopCenter => "TopCenter",
            Self::TopRight => "TopRight",
            Self::CenterLeft => "CenterLeft",
            Self::Centered => "Centered",
            Self::CenterRight => "CenterRight",
            Self::BottomLeft => "BottomLeft",
            Self::BottomCenter => "BottomCenter",
            Self::BottomRight => "BottomRight",
            Self::TopFillHorizontaly => "TopFillHorizontaly",
            Self::CenterFillHorizontaly => "CenterFillHorizontaly",
            Self::BottomFillHorizontaly => "BottomFillHorizontaly",
            Self::LeftFillVerticaly => "LeftFillVerticaly",
            Self::CenterFillVerticaly => "CenterFillVerticaly",
            Self::RightFillVerticaly => "RightFillVerticaly",
            Self::Fill => "Fill",
        }
    }

    pub fn variant(&self) -> (r: &'static str)
        ensures
            r == self.spec_variant(),
    {
        match self {
            Self::TopLeft => "TopLeft",
            Self::TopCenter => "TopCenter",
            Self::TopRight => "TopRight",
            Self::CenterLeft => "CenterLeft",
            Self::Centered => "Centered",
            Self::CenterRight => "CenterRight",
            Self::BottomLeft => "BottomLeft",
            Self::BottomCenter => "BottomCenter",
            Self::BottomRight => "BottomRight",
            Self::TopFillHorizontaly => "TopFillHorizontaly",
            Self::CenterFillHorizontaly => "CenterFillHorizontaly",
            Self::BottomFillHorizontaly => "BottomFillHorizontaly",
            Self::LeftFillVerticaly => "LeftFillVerticaly",
            Self::CenterFillVerticaly => "CenterFillVerticaly",
            Self::RightFillVerticaly => "RightFillVerticaly",
            Self::Fill => "Fill",
        }
    }
}

impl RedsValue for inkEAnchor {
    open spec fn reds_text(&self) -> Seq<char> {
        enum_text("inkEAnchor"@, self.spec_variant()@)
    }

    fn reds_value(&self) -> (r: String) {
        enum_value("inkEAnchor", self.variant())
    }
}

impl IsDefault for inkEAnchor {
    open spec fn spec_is_default(&self) -> bool {
        *self is TopLeft
    }

    fn is_default(&self) -> (r: bool) {
        matches!(self, Self::TopLeft)
    }
}

/// horizontal alignment
#[allow(non_camel_case_types)]
#[derive(Debug, Clone, Copy, PartialEq, Eq)]
pub enum inkEHorizontalAlign {
    Fill,
    Left,
    Center,
    Right,
}

impl inkEHorizontalAlign {
    pub open spec fn spec_variant(&self) -> &'static str {
        match self {
            Self::Fill => "Fill",
            Self::Left => "Left",
            Self::Center => "Center",
            Self::Right => "Right",
        }
    }

    pub fn variant(&self) -> (r: &'static str)
        ensures
            r == self.spec_variant(),
    {
        match self {
            Self::Fill => "Fill",
            Self::Left => "Left",
            Self::Center => "Center",
            Self::Right => "Right",
        }
    }
}

impl RedsValue for inkEHorizontalAlign {
    open spec fn reds_text(&self) -> Seq<char> {
        enum_text("inkEHorizontalAlign"@, self.spec_variant()@)
    }

    fn reds_value(&self) -> (r: String) {
        enum_value("inkEHorizontalAlign", self.variant())
    }
}

impl IsDefault for inkEHorizontalAlign {
    open spec fn spec_is_default(&self) -> bool {
        *self is Fill
    }

    fn is_default(&self) -> (r: bool) {
        matches!(self, Self::Fill)
    }
}

/// vertical alignment
#[allow(non_camel_case_types)]
#[derive(Debug, Clone, Copy, PartialEq, Eq)]
pub enum inkEVerticalAlign {
    Fill,
    Top,
    Center,
    Bottom,
}

impl inkEVerticalAlign {
    pub open spec fn spec_variant(&self) -> &'static str {
        match self {
            Self::Fill => "Fill",
            Self::Top => "Top",
            Self::Center => "Center",
            Self::Bottom => "Bottom",
        }
    }

    pub fn variant(&self) -> (r: &'static str)
        ensures
            r == self.spec_variant(),
    {
        match self {
            Self::Fill => "Fill",
            Self::Top => "Top",
            Self::Center => "Center",
            Self::Bottom => "Bottom",
        }
    }
}

impl RedsValue for inkEVerticalAlign {
    open spec fn reds_text(&self) -> Seq<char> {
        enum_text("inkEVerticalAlign"@, self.spec_variant()@)
    }

    fn reds_value(&self) -> (r: String) {
        enum_value("inkEVerticalAlign", self.variant())
    }
}

impl IsDefault for inkEVerticalAlign {
    open spec fn spec_is_default(&self) -> bool {
        *self is Fill
    }

    fn is_default(&self) -> (r: bool) {
        matches!(self, Self::Fill)
    }
}

/// text justification
#[allow(non_camel_case_types)]
#[derive(Debug, Clone, Copy, PartialEq, Eq)]
pub enum textJustificationType {
    Left,
    Center,
    Right,
}

impl textJustificationType {
    pub open spec fn spec_variant(&self) -> &'static str {
        match self {
            Self::Left => "Left",
            Self::Center => "Center",
            Self::Right => "Right",
        }
    }

    pub fn variant(&self) -> (r: &'static str)
        ensures
            r == self.spec_variant(),
    {
        match self {
            Self::Left => "Left",
            Self::Center => "Center",
            Self::Right => "Right",
        }
    }
}

impl RedsValue for textJustificationType {
    open spec fn reds_text(&self) -> Seq<char> {
        enum_text("textJustificationType"@, self.spec_variant()@)
    }

    fn reds_value(&self) -> (r: String) {
        enum_value("textJustificationType", self.variant())
    }
}

impl IsDefault for textJustificationType {
    open spec fn spec_is_default(&self) -> bool {
        *self is Left
    }

    fn is_default(&self) -> (r: bool) {
        matches!(self, Self::Left)
    }
}

/// order in which a compound widget lays out its children
#[allow(non_camel_case_types)]
#[derive(Debug, Clone, Copy, PartialEq, Eq)]
pub enum inkEChildOrder {
    Forward,
    Backward,
}

impl inkEChildOrder {
    pub open spec fn spec_variant(&self) -> &'static str {
        match self {
            Self::Forward => "Forward",
            Self::Backward => "Backward",
        }
    }

    pub fn variant(&self) -> (r: &'static str)
        ensures
            r == self.spec_variant(),
    {
        match self {
            Self::Forward => "Forward",
            Self::Backward => "Backward",
        }
    }
}

impl RedsValue for inkEChildOrder {
    open spec fn reds_text(&self) -> Seq<char> {
        enum_text("inkEChildOrder"@, self.spec_variant()@)
    }

    fn reds_value(&self) -> (r: String) {
        enum_value("inkEChildOrder", self.variant())
    }
}

impl IsDefault for inkEChildOrder {
    open spec fn spec_is_default(&self) -> bool {
        *self is Forward
    }

    fn is_default(&self) -> (r: bool) {
        matches!(self, Self::Forward)
    }
}

/// sizing rule
#[allow(non_camel_case_types)]
#[derive(Debug, Clone, Copy, PartialEq, Eq)]
pub enum inkESizeRule {
    Fixed,
    Stretch,
}

impl inkESizeRule {
    pub open spec fn spec_variant(&self) -> &'static str {
        match self {
            Self::Fixed => "Fixed",
            Self::Stretch => "Stretch",
        }
    }

    pub fn variant(&self) -> (r: &'static str)
        ensures
            r == self.spec_variant(),
    {
        match self {
            Self::Fixed => "Fixed",
            Self::Stretch => "Stretch",
        }
    }
}

impl RedsValue for inkESizeRule {
    open spec fn reds_text(&self) -> Seq<char> {
        enum_text("inkESizeRule"@, self.spec_variant()@)
    }

    fn reds_value(&self) -> (r: String) {
        enum_value("inkESizeRule", self.variant())
    }
}

impl IsDefault for inkESizeRule {
    open spec fn spec_is_default(&self) -> bool {
        *self is Fixed
    }

    fn is_default(&self) -> (r: bool) {
        matches!(self, Self::Fixed)
    }
}

/// letter case of a text
#[allow(non_camel_case_types)]
#[derive(Debug, Clone, Copy, PartialEq, Eq)]
pub enum textLetterCase {
    OriginalCase,
    UpperCase,
    LowerCase,
}

impl textLetterCase {
    pub open spec fn spec_variant(&self) -> &'static str {
        match self {
            Self::OriginalCase => "OriginalCase",
            Self::UpperCase => "UpperCase",
            Self::LowerCase => "LowerCase",
        }
    }

    pub fn variant(&self) -> (r: &'static str)
        ensures
            r == self.spec_variant(),
    {
        match self {
            Self::OriginalCase => "OriginalCase",
            Self::UpperCase => "UpperCase",
            Self::LowerCase => "LowerCase",
        }
    }
}

impl RedsValue for textLetterCase {
    open spec fn reds_text(&self) -> Seq<char> {
        enum_text("textLetterCase"@, self.spec_variant()@)
    }

    fn reds_value(&self) -> (r: String) {
        enum_value("textLetterCase", self.variant())
    }
}

impl IsDefault for textLetterCase {
    open spec fn spec_is_default(&self) -> bool {
        *self is OriginalCase
    }

    fn is_default(&self) -> (r: bool) {
        matches!(self, Self::OriginalCase)
    }
}

/// horizontal alignment of a text
#[allow(non_camel_case_types)]
#[derive(Debug, Clone, Copy, PartialEq, Eq)]
pub enum textHorizontalAlignment {
    Left,
    Center,
    Right,
}

impl textHorizontalAlignment {
    pub open spec fn spec_variant(&self) -> &'static str {
        match self {
            Self::Left => "Left",
            Self::Center => "Center",
            Self::Right => "Right",
        }
    }

    pub fn variant(&self) -> (r: &'static str)
        ensures
            r == self.spec_variant(),
    {
        match self {
            Self::Left => "Left",
            Self::Center => "Center",
            Self::Right => "Right",
        }
    }
}

impl RedsValue for textHorizontalAlignment {
    open spec fn reds_text(&self) -> Seq<char> {
        enum_text("textHorizontalAlignment"@, self.spec_variant()@)
    }

    fn reds_value(&self) -> (r: String) {
        enum_value("textHorizontalAlignment", self.variant())
    }
}

impl IsDefault for textHorizontalAlignment {
    open spec fn spec_is_default(&self) -> bool {
        *self is Left
    }

    fn is_default(&self) -> (r: bool) {
        matches!(self, Self::Left)
    }
}

/// vertical alignment of a text
#[allow(non_camel_case_types)]
#[derive(Debug, Clone, Copy, PartialEq, Eq)]
pub enum textVerticalAlignment {
    Top,
    Center,
    Bottom,
}

impl textVerticalAlignment {
    pub open spec fn spec_variant(&self) -> &'static str {
        match self {
            Self::Top => "Top",
            Self::Center => "Center",
            Self::Bottom => "Bottom",
        }
    }

    pub fn variant(&self) -> (r: &'static str)
        ensures
            r == self.spec_variant(),
    {
        match self {
            Self::Top => "Top",
            Self::Center => "Center",
            Self::Bottom => "Bottom",
        }
    }
}

impl RedsValue for textVerticalAlignment {
    open spec fn reds_text(&self) -> Seq<char> {
        enum_text("textVerticalAlignment"@, self.spec_variant()@)
    }

    fn reds_value(&self) -> (r: String) {
        enum_value("textVerticalAlignment", self.variant())
    }
}

impl IsDefault for textVerticalAlignment {
    open spec fn spec_is_default(&self) -> bool {
        *self is Top
    }

    fn is_default(&self) -> (r: bool) {
        matches!(self, Self::Top)
    }
}

/// what a text does when it overflows
#[allow(non_camel_case_types)]
#[derive(Debug, Clone, Copy, PartialEq, Eq)]
pub enum textOverflowPolicy {
    NoOverflow,
    DotsEnd,
    DotsEndLastLine,
    AutoScroll,
    PingPongScroll,
    AdjustToSize,
}

impl textOverflowPolicy {
    pub open spec fn spec_variant(&self) -> &'static str {
        match self {
            Self::NoOverflow => "None",
            Self::DotsEnd => "DotsEnd",
            Self::DotsEndLastLine => "DotsEndLastLine",
            Self::AutoScroll => "AutoScroll",
            Self::PingPongScroll => "PingPongScroll",
            Self::AdjustToSize => "AdjustToSize",
        }
    }

    pub fn variant(&self) -> (r: &'static str)
        ensures
            r == self.spec_variant(),
    {
        match self {
            Self::NoOverflow => "None",
            Self::DotsEnd => "DotsEnd",
            Self::DotsEndLastLine => "DotsEndLastLine",
            Self::AutoScroll => "AutoScroll",
            Self::PingPongScroll => "PingPongScroll",
            Self::AdjustToSize => "AdjustToSize",
        }
    }
}

impl RedsValue for textOverflowPolicy {
    open spec fn reds_text(&self) -> Seq<char> {
        enum_text("textOverflowPolicy"@, self.spec_variant()@)
    }

    fn reds_value(&self) -> (r: String) {
        enum_value("textOverflowPolicy", self.variant())
    }
}

impl IsDefault for textOverflowPolicy {
    open spec fn spec_is_default(&self) -> bool {
        *self is NoOverflow
    }

    fn is_default(&self) -> (r: bool) {
        matches!(self, Self::NoOverflow)
    }
}

/// mirroring of an image brush
#[allow(non_camel_case_types)]
#[derive(Debug, Clone, Copy, PartialEq, Eq)]
pub enum inkBrushMirrorType {
    NoMirror,
    Horizontal,
    Vertical,
    Both,
}

impl inkBrushMirrorType {
    pub open spec fn spec_variant(&self) -> &'static str {
        match self {
            Self::NoMirror => "NoMirror",
            Self::Horizontal => "Horizontal",
            Self::Vertical => "Vertical",
            Self::Both => "Both",
        }
    }

    pub fn variant(&self) -> (r: &'static str)
        ensures
            r == self.spec_variant(),
    {
        match self {
            Self::NoMirror => "NoMirror",
            Self::Horizontal => "Horizontal",
            Self::Vertical => "Vertical",
            Self::Both => "Both",
        }
    }
}

impl RedsValue for inkBrushMirrorType {
    open spec fn reds_text(&self) -> Seq<char> {
        enum_text("inkBrushMirrorType"@, self.spec_variant()@)
    }

    fn reds_value(&self) -> (r: String) {
        enum_value("inkBrushMirrorType", self.variant())
    }
}

impl IsDefault for inkBrushMirrorType {
    open spec fn spec_is_default(&self) -> bool {
        *self is NoMirror
    }

    fn is_default(&self) -> (r: bool) {
        matches!(self, Self::NoMirror)
    }
}

/// tiling of an image brush
#[allow(non_camel_case_types)]
#[derive(Debug, Clone, Copy, PartialEq, Eq)]
pub enum inkBrushTileType {
    NoTile,
    Horizontal,
    Vertical,
    Both,
}

impl inkBrushTileType {
    pub open spec fn spec_variant(&self) -> &'static str {
        match self {
            Self::NoTile => "NoTile",
            Self::Horizontal => "Horizontal",
            Self::Vertical => "Vertical",
            Self::Both => "Both",
        }
    }

    pub fn variant(&self) -> (r: &'static str)
        ensures
            r == self.spec_variant(),
    {
        match self {
            Self::NoTile => "NoTile",
            Self::Horizontal => "Horizontal",
            Self::Vertical => "Vertical",
            Self::Both => "Both",
        }
    }
}

impl RedsValue for inkBrushTileType {
    open spec fn reds_text(&self) -> Seq<char> {
        enum_text("inkBrushTileType"@, self.spec_variant()@)
    }

    fn reds_value(&self) -> (r: String) {
        enum_value("inkBrushTileType", self.variant())
    }
}

impl IsDefault for inkBrushTileType {
    open spec fn spec_is_default(&self) -> bool {
        *self is NoTile
    }

    fn is_default(&self) -> (r: bool) {
        matches!(self, Self::NoTile)
    }
}

/// resource reference flags
#[allow(non_camel_case_types)]
#[derive(Debug, Clone, Copy, PartialEq, Eq)]
pub enum Flags {
    Default,
    Soft,
    Hard,
}

impl Flags {
    pub open spec fn spec_variant(&self) -> &'static str {
        match self {
            Self::Default => "Default",
            Self::Soft => "Soft",
            Self::Hard => "Hard",
        }
    }

    pub fn variant(&self) -> (r: &'static str)
        ensures
            r == self.spec_variant(),
    {
        match self {
            Self::Default => "Default",
            Self::Soft => "Soft",
            Self::Hard => "Hard",
        }
    }
}

impl RedsValue for Flags {
    open spec fn reds_text(&self) -> Seq<char> {
        enum_text("Flags"@, self.spec_variant()@)
    }

    fn reds_value(&self) -> (r: String) {
        enum_value("Flags", self.variant())
    }
}

impl IsDefault for Flags {
    open spec fn spec_is_default(&self) -> bool {
        *self is Default
    }

    fn is_default(&self) -> (r: bool) {
        matches!(self, Self::Default)
    }
}

/// two-dimensional vector
#[allow(non_camel_case_types)]
#[derive(Debug, Clone, Copy, PartialEq)]
pub struct Vector2 {
    pub x: Decimal,
    pub y: Decimal,
}

impl RedsValue for Vector2 {
    open spec fn reds_text(&self) -> Seq<char> {
        struct_text("Vector2"@, seq![self.x.reds_text(), self.y.reds_text()])
    }

    fn reds_value(&self) -> (r: String) {
        let mut args: Vec<String> = Vec::new();
        args.push(self.x.reds_value());
        args.push(self.y.reds_value());
        assert(lines_view(args@) =~= seq![self.x.reds_text(), self.y.reds_text()]);
        struct_value("Vector2", &args)
    }
}

impl IsDefault for Vector2 {
    open spec fn spec_is_default(&self) -> bool {
        self.x.spec_is_default()
        && self.y.spec_is_default()
    }

    fn is_default(&self) -> (r: bool) {
        self.x.is_default()
            && self.y.is_default()
    }
}

/// color with high dynamic range channels
#[allow(non_camel_case_types)]
#[derive(Debug, Clone, Copy, PartialEq)]
pub struct HDRColor {
    pub alpha: Decimal,
    pub blue: Decimal,
    pub green: Decimal,
    pub red: Decimal,
}

impl RedsValue for HDRColor {
    open spec fn reds_text(&self) -> Seq<char> {
        struct_text("HDRColor"@, seq![self.alpha.reds_text(), self.blue.reds_text(), self.green.reds_text(), self.red.reds_text()])
    }

    fn reds_value(&self) -> (r: String) {
        let mut args: Vec<String> = Vec::new();
        args.push(self.alpha.reds_value());
        args.push(self.blue.reds_value());
        args.push(self.green.reds_value());
        args.push(self.red.reds_value());
        assert(lines_view(args@) =~= seq![self.alpha.reds_text(), self.blue.reds_text(), self.green.reds_text(), self.red.reds_text()]);
        struct_value("HDRColor", &args)
    }
}

impl IsDefault for HDRColor {
    open spec fn spec_is_default(&self) -> bool {
        self.alpha.spec_is_default()
        && self.blue.spec_is_default()
        && self.green.spec_is_default()
        && self.red.spec_is_default()
    }

    fn is_default(&self) -> (r: bool) {
        self.alpha.is_default()
            && self.blue.is_default()
            && self.green.is_default()
            && self.red.is_default()
    }
}

/// margin on the four sides of a widget
#[allow(non_camel_case_types)]
#[derive(Debug, Clone, Copy, PartialEq)]
pub struct inkMargin {
    pub left: Decimal,
    pub right: Decimal,
    pub top: Decimal,
    pub bottom: Decimal,
}

impl RedsValue for inkMargin {
    open spec fn reds_text(&self) -> Seq<char> {
        struct_text("inkMargin"@, seq![self.left.reds_text(), self.right.reds_text(), self.top.reds_text(), self.bottom.reds_text()])
    }

    fn reds_value(&self) -> (r: String) {
        let mut args: Vec<String> = Vec::new();
        args.push(self.left.reds_value());
        args.push(self.right.reds_value());
        args.push(self.top.reds_value());
        args.push(self.bottom.reds_value());
        assert(lines_view(args@) =~= seq![self.left.reds_text(), self.right.reds_text(), self.top.reds_text(), self.bottom.reds_text()]);
        struct_value("inkMargin", &args)
    }
}

impl IsDefault for inkMargin {
    open spec fn spec_is_default(&self) -> bool {
        self.left.spec_is_default()
        && self.right.spec_is_default()
        && self.top.spec_is_default()
        && self.bottom.spec_is_default()
    }

    fn is_default(&self) -> (r: bool) {
        self.left.is_default()
            && self.right.is_default()
            && self.top.is_default()
            && self.bottom.is_default()
    }
}

/// render transformation of a widget
#[allow(non_camel_case_types)]
#[derive(Debug, Clone, Copy, PartialEq)]
pub struct inkUITransform {
    pub translation: Vector2,
    pub scale: Vector2,
    pub shear: Vector2,
    pub rotation: Decimal,
}

impl RedsValue for inkUITransform {
    open spec fn reds_text(&self) -> Seq<char> {
        struct_text("inkUITransform"@, seq![self.translation.reds_text(), self.scale.reds_text(), self.shear.reds_text(), self.rotation.reds_text()])
    }

    fn reds_value(&self) -> (r: String) {
        let mut args: Vec<String> = Vec::new();
        args.push(self.translation.reds_value());
        args.push(self.scale.reds_value());
        args.push(self.shear.reds_value());
        args.push(self.rotation.reds_value());
        assert(lines_view(args@) =~= seq![self.translation.reds_text(), self.scale.reds_text(), self.shear.reds_text(), self.rotation.reds_text()]);
        struct_value("inkUITransform", &args)
    }
}

impl IsDefault for inkUITransform {
    open spec fn spec_is_default(&self) -> bool {
        self.translation.spec_is_default()
        && self.scale.spec_is_default()
        && self.shear.spec_is_default()
        && self.rotation.spec_is_default()
    }

    fn is_default(&self) -> (r: bool) {
        self.translation.is_default()
            && self.scale.is_default()
            && self.shear.is_default()
            && self.rotation.is_default()
    }
}

/// layout of a widget in its parent
#[allow(non_camel_case_types)]
#[derive(Debug, Clone, Copy, PartialEq)]
pub struct inkWidgetLayout {
    pub padding: inkMargin,
    pub margin: inkMargin,
    pub anchor_point: Vector2,
    pub size_coefficient: Decimal,
    pub h_align: inkEHorizontalAlign,
    pub v_align: inkEVerticalAlign,
    pub anchor: inkEAnchor,
    pub size_rule: inkESizeRule,
}

impl RedsValue for inkWidgetLayout {
    open spec fn reds_text(&self) -> Seq<char> {
        struct_text("inkWidgetLayout"@, seq![self.padding.reds_text(), self.margin.reds_text(), self.anchor_point.reds_text(), self.size_coefficient.reds_text(), self.h_align.reds_text(), self.v_align.reds_text(), self.anchor.reds_text(), self.size_rule.reds_text()])
    }

    fn reds_value(&self) -> (r: String) {
        let mut args: Vec<String> = Vec::new();
        args.push(self.padding.reds_value());
        args.push(self.margin.reds_value());
        args.push(self.anchor_point.reds_value());
        args.push(self.size_coefficient.reds_value());
        args.push(self.h_align.reds_value());
        args.push(self.v_align.reds_value());
        args.push(self.anchor.reds_value());
        args.push(self.size_rule.reds_value());
        assert(lines_view(args@) =~= seq![self.padding.reds_text(), self.margin.reds_text(), self.anchor_point.reds_text(), self.size_coefficient.reds_text(), self.h_align.reds_text(), self.v_align.reds_text(), self.anchor.reds_text(), self.size_rule.reds_text()]);
        struct_value("inkWidgetLayout", &args)
    }
}

impl IsDefault for inkWidgetLayout {
    open spec fn spec_is_default(&self) -> bool {
        self.padding.spec_is_default()
        && self.margin.spec_is_default()
        && self.anchor_point.spec_is_default()
        && self.size_coefficient.spec_is_default()
        && self.h_align.spec_is_default()
        && self.v_align.spec_is_default()
        && self.anchor.spec_is_default()
        && self.size_rule.spec_is_default()
    }

    fn is_default(&self) -> (r: bool) {
        self.padding.is_default()
            && self.margin.is_default()
            && self.anchor_point.is_default()
            && self.size_coefficient.is_default()
            && self.h_align.is_default()
            && self.v_align.is_default()
            && self.anchor.is_default()
            && self.size_rule.is_default()
    }
}

/// reference to a font family
#[allow(non_camel_case_types)]
#[derive(Debug, Clone, PartialEq)]
pub struct inkFontFamilyResource {
    pub depot_path: ResourcePath,
    pub flags: Flags,
}

impl RedsValue for inkFontFamilyResource {
    open spec fn reds_text(&self) -> Seq<char> {
        struct_text("inkFontFamilyResource"@, seq![self.depot_path.reds_text(), self.flags.reds_text()])
    }

    fn reds_value(&self) -> (r: String) {
        let mut args: Vec<String> = Vec::new();
        args.push(self.depot_path.reds_value());
        args.push(self.flags.reds_value());
        assert(lines_view(args@) =~= seq![self.depot_path.reds_text(), self.flags.reds_text()]);
        struct_value("inkFontFamilyResource", &args)
    }
}

impl IsDefault for inkFontFamilyResource {
    open spec fn spec_is_default(&self) -> bool {
        self.depot_path.spec_is_default()
        && self.flags.spec_is_default()
    }

    fn is_default(&self) -> (r: bool) {
        self.depot_path.is_default()
            && self.flags.is_default()
    }
}

/// style of a font, by name
#[allow(non_camel_case_types)]
#[derive(Debug, Clone, PartialEq)]
pub struct fontStyle {
    pub style: CName,
}

impl RedsValue for fontStyle {
    open spec fn reds_text(&self) -> Seq<char> {
        struct_text("fontStyle"@, seq![self.style.reds_text()])
    }

    fn reds_value(&self) -> (r: String) {
        let mut args: Vec<String> = Vec::new();
        args.push(self.style.reds_value());
        assert(lines_view(args@) =~= seq![self.style.reds_text()]);
        struct_value("fontStyle", &args)
    }
}

impl IsDefault for fontStyle {
    open spec fn spec_is_default(&self) -> bool {
        self.style.spec_is_default()
    }

    fn is_default(&self) -> (r: bool) {
        self.style.is_default()
    }
}

/// reference to a texture atlas
#[allow(non_camel_case_types)]
#[derive(Debug, Clone, PartialEq)]
pub struct inkTextureAtlas {
    pub depot_path: ResourcePath,
    pub flags: Flags,
}

impl RedsValue for inkTextureAtlas {
    open spec fn reds_text(&self) -> Seq<char> {
        struct_text("inkTextureAtlas"@, seq![self.depot_path.reds_text(), self.flags.reds_text()])
    }

    fn reds_value(&self) -> (r: String) {
        let mut args: Vec<String> = Vec::new();
        args.push(self.depot_path.reds_value());
        args.push(self.flags.reds_value());
        assert(lines_view(args@) =~= seq![self.depot_path.reds_text(), self.flags.reds_text()]);
        struct_value("inkTextureAtlas", &args)
    }
}

impl IsDefault for inkTextureAtlas {
    open spec fn spec_is_default(&self) -> bool {
        self.depot_path.spec_is_default()
        && self.flags.spec_is_default()
    }

    fn is_default(&self) -> (r: bool) {
        self.depot_path.is_default()
            && self.flags.is_default()
    }
}

/// binding of a widget property to a style path
#[allow(non_camel_case_types)]
#[derive(Debug, Clone, PartialEq)]
pub struct inkPropertyBinding {
    pub property_name: CName,
    pub style_path: CName,
}

impl RedsValue for inkPropertyBinding {
    open spec fn reds_text(&self) -> Seq<char> {
        struct_text("inkPropertyBinding"@, seq![self.property_name.reds_text(), self.style_path.reds_text()])
    }

    fn reds_value(&self) -> (r: String) {
        let mut args: Vec<String> = Vec::new();
        args.push(self.property_name.reds_value());
        args.push(self.style_path.reds_value());
        assert(lines_view(args@) =~= seq![self.property_name.reds_text(), self.style_path.reds_text()]);
        struct_value("inkPropertyBinding", &args)
    }
}

impl IsDefault for inkPropertyBinding {
    open spec fn spec_is_default(&self) -> bool {
        self.property_name.spec_is_default()
        && self.style_path.spec_is_default()
    }

    fn is_default(&self) -> (r: bool) {
        self.property_name.is_default()
            && self.style_path.is_default()
    }
}


impl Default for inkEAnchor {
    fn default() -> (r: Self)
        ensures
            r.spec_is_default(),
    {
        Self::TopLeft
    }
}

impl Default for inkEHorizontalAlign {
    fn default() -> (r: Self)
        ensures
            r.spec_is_default(),
    {
        Self::Fill
    }
}

impl Default for inkEVerticalAlign {
    fn default() -> (r: Self)
        ensures
            r.spec_is_default(),
    {
        Self::Fill
    }
}

impl Default for textJustificationType {
    fn default() -> (r: Self)
        ensures
            r.spec_is_default(),
    {
        Self::Left
    }
}

impl Default for inkEChildOrder {
    fn default() -> (r: Self)
        ensures
            r.spec_is_default(),
    {
        Self::Forward
    }
}

impl Default for inkESizeRule {
    fn default() -> (r: Self)
        ensures
            r.spec_is_default(),
    {
        Self::Fixed
    }
}

impl Default for textLetterCase {
    fn default() -> (r: Self)
        ensures
            r.spec_is_default(),
    {
        Self::OriginalCase
    }
}

impl Default for textHorizontalAlignment {
    fn default() -> (r: Self)
        ensures
            r.spec_is_default(),
    {
        Self::Left
    }
}

impl Default for textVerticalAlignment {
    fn default() -> (r: Self)
        ensures
            r.spec_is_default(),
    {
        Self::Top
    }
}

impl Default for textOverflowPolicy {
    fn default() -> (r: Self)
        ensures
            r.spec_is_default(),
    {
        Self::NoOverflow
    }
}

impl Default for inkBrushMirrorType {
    fn default() -> (r: Self)
        ensures
            r.spec_is_default(),
    {
        Self::NoMirror
    }
}

impl Default for inkBrushTileType {
    fn default() -> (r: Self)
        ensures
            r.spec_is_default(),
    {
        Self::NoTile
    }
}

impl Default for Flags {
    fn default() -> (r: Self)
        ensures
            r.spec_is_default(),
    {
        Self::Default
    }
}

impl Default for Vector2 {
    fn default() -> (r: Self)
        ensures
            r.spec_is_default(),
    {
        Vector2 {
            x: Decimal::default(),
            y: Decimal::default(),
        }
    }
}

impl Default for HDRColor {
    fn default() -> (r: Self)
        ensures
            r.spec_is_default(),
    {
        HDRColor {
            alpha: Decimal::default(),
            blue: Decimal::default(),
            green: Decimal::default(),
            red: Decimal::default(),
        }
    }
}

impl Default for inkMargin {
    fn default() -> (r: Self)
        ensures
            r.spec_is_default(),
    {
        inkMargin {
            left: Decimal::default(),
            right: Decimal::default(),
            top: Decimal::default(),
            bottom: Decimal::default(),
        }
    }
}

impl Default for inkUITransform {
    fn default() -> (r: Self)
        ensures
            r.spec_is_default(),
    {
        inkUITransform {
            translation: Vector2::default(),
            scale: Vector2::default(),
            shear: Vector2::default(),
            rotation: Decimal::default(),
        }
    }
}

impl Default for inkWidgetLayout {
    fn default() -> (r: Self)
        ensures
            r.spec_is_default(),
    {
        inkWidgetLayout {
            padding: inkMargin::default(),
            margin: inkMargin::default(),
            anchor_point: Vector2::default(),
            size_coefficient: Decimal::default(),
            h_align: inkEHorizontalAlign::default(),
            v_align: inkEVerticalAlign::default(),
            anchor: inkEAnchor::default(),
            size_rule: inkESizeRule::default(),
        }
    }
}

impl Default for inkFontFamilyResource {
    fn default() -> (r: Self)
        ensures
            r.spec_is_default(),
    {
        inkFontFamilyResource {
            depot_path: ResourcePath::default(),
            flags: Flags::default(),
        }
    }
}

impl Default for fontStyle {
    fn default() -> (r: Self)
        ensures
            r.spec_is_default(),
    {
        fontStyle {
            style: CName::default(),
        }
    }
}

impl Default for inkTextureAtlas {
    fn default() -> (r: Self)
        ensures
            r.spec_is_default(),
    {
        inkTextureAtlas {
            depot_path: ResourcePath::default(),
            flags: Flags::default(),
        }
    }
}

impl Default for inkPropertyBinding {
    fn default() -> (r: Self)
        ensures
            r.spec_is_default(),
    {
        inkPropertyBinding {
            property_name: CName::default(),
            style_path: CName::default(),
        }
    }
}


} // verus!
