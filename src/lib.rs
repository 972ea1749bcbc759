//! Widget trees and animation sequences of game UI screens: addressing nodes
//! by index paths and by name paths, binding animation interpolators to
//! widgets, and emitting script statements that rebuild a widget subtree.

pub mod anim;
pub mod layout;
pub mod library;
pub mod paths;
pub mod reds;
pub mod scalar;
pub mod tree;
pub mod widget;

pub use anim::{
    inkEffectType, BlankInkAnimSequenceTargetInfo, DefinitionMatch, Direction, EffectInterpolator, Fade,
    InkAnimAnimationLibraryResource, InkAnimDefinition, InkAnimInterpolator,
    InkAnimInterpolatorType, InkAnimSequence, InkAnimSequenceTargetInfo, Interpolator, Mode,
    OrphanInkAnimInterpolator, PathSummary, Range, Target, Transformation, Type,
};
pub use layout::{
    fontStyle, inkBrushMirrorType, inkBrushTileType, inkEAnchor, inkEChildOrder,
    inkEHorizontalAlign, inkESizeRule, inkEVerticalAlign, inkFontFamilyResource, inkMargin,
    inkPropertyBinding, inkTextureAtlas, inkUITransform, inkWidgetLayout, textHorizontalAlignment,
    textJustificationType, textLetterCase, textOverflowPolicy, textVerticalAlignment, Flags,
    HDRColor, Vector2,
};
pub use library::{
    inkWidgetLibraryItem, inkWidgetLibraryResource, inkanimAnimationLibraryResource, Data,
    Leaves, Output, Package, PackageData, WidgetSummary,
};
pub use paths::{parse_path_indexes, parse_path_names, PathParseError, SiblingOrNested};
pub use reds::{reds_statements, RedsWidget};
pub use scalar::{
    is_any_default_localization_string, lockey_from_id, lockey_from_text, CName, Decimal, HandleId, IsDefault, LocKey, LocKeyError,
    LocalizationString, RedsValue, ResourcePath,
};
pub use tree::{inkWidgetLibraryItemInstance, node_at, TreeError, WidgetTree};
pub use widget::{
    inkImageWidget, inkMultiChildren, inkPropertyManager, inkTextWidget, CompoundWidget,
    InkWrapper, LeafWidget, PropertyManager, ScrollDelay, ScrollTextSpeed, Widget,
};
