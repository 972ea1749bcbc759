use vstd::prelude::*;

use crate::layout::{
    fontStyle, inkBrushMirrorType, inkBrushTileType, inkEChildOrder, inkEHorizontalAlign,
    inkEVerticalAlign, inkFontFamilyResource, inkMargin, inkPropertyBinding, inkTextureAtlas,
    inkUITransform, inkWidgetLayout, textHorizontalAlignment, textJustificationType,
    textLetterCase, textOverflowPolicy, textVerticalAlignment, Vector2,
};
use crate::scalar::{
    digits_of, lines_view, list_text, list_value, push_char, struct_text, struct_value,
    write_digits, CName, Decimal, HandleId, IsDefault, LocalizationString, RedsValue,
};

verus! {

broadcast use vstd::std_specs::vec::group_vec_axioms;

/// wrapper with handle ID
#[derive(Debug, Clone, PartialEq)]
pub struct InkWrapper<T> {
    pub handle_id: HandleId,
    pub data: T,
}

/// Statement that assigns `value` to `field` of `instance`: `instance.field = value;`.
pub open spec fn assign_text(instance: Seq<char>, field: Seq<char>, value: Seq<char>) -> Seq<char> {
    instance + seq!['.'] + field + seq![' ', '=', ' '] + value + seq![';']
}

/// The assignment of a field, or nothing when the field holds its default.
pub open spec fn setting_text(
    instance: Seq<char>,
    field: Seq<char>,
    is_default: bool,
    value: Seq<char>,
) -> Seq<Seq<char>> {
    if is_default {
        Seq::empty()
    } else {
        seq![assign_text(instance, field, value)]
    }
}

fn add_setting(out: &mut Vec<String>, instance: &str, field: &str, is_default: bool, value: String)
    ensures
        lines_view(final(out)@) == lines_view(old(out)@) + setting_text(
            instance@,
            field@,
            is_default,
            value@,
        ),
{
    let ghost before = lines_view(out@);
    if !is_default {
        let mut line = String::from_str(instance);
        push_char(&mut line, '.');
        line.append(field);
        push_char(&mut line, ' ');
        push_char(&mut line, '=');
        push_char(&mut line, ' ');
        line.append(value.as_str());
        push_char(&mut line, ';');
        assert(line@ =~= assign_text(instance@, field@, value@));
        out.push(line);
        assert(lines_view(out@) =~= before + setting_text(instance@, field@, is_default, value@));
    } else {
        assert(lines_view(out@) =~= before + setting_text(instance@, field@, is_default, value@));
    }
}

/// delay before a text scrolls, 30 unless set
#[derive(Debug, Clone, Copy, PartialEq, Eq)]
pub struct ScrollDelay(pub u16);

impl RedsValue for ScrollDelay {
    open spec fn reds_text(&self) -> Seq<char> {
        digits_of(self.0 as nat)
    }

    fn reds_value(&self) -> (r: String) {
        let mut out = String::new();
        write_digits(&mut out, self.0 as u64);
        assert(out@ =~= self.reds_text());
        out
    }
}

impl IsDefault for ScrollDelay {
    open spec fn spec_is_default(&self) -> bool {
        self.0 == 30
    }

    fn is_default(&self) -> (r: bool) {
        self.0 == 30
    }
}

/// speed at which a text scrolls, 0.2 unless set
#[derive(Debug, Clone, Copy, PartialEq)]
pub struct ScrollTextSpeed(pub Decimal);

impl RedsValue for ScrollTextSpeed {
    open spec fn reds_text(&self) -> Seq<char> {
        self.0.reds_text()
    }

    fn reds_value(&self) -> (r: String) {
        self.0.reds_value()
    }
}

impl IsDefault for ScrollTextSpeed {
    /// The default, 0.2, is 2 * 10^17 once scaled by 10^18.
    open spec fn spec_is_default(&self) -> bool {
        self.0.scaled() == 200000000000000000
    }

    fn is_default(&self) -> (r: bool) {
        self.0.scaled_value() == 200000000000000000
    }
}

/// bindings of widget properties to style paths
#[allow(non_camel_case_types)]
#[derive(Debug, Clone, PartialEq)]
pub struct inkPropertyManager {
    pub bindings: Vec<inkPropertyBinding>,
}

impl RedsValue for inkPropertyManager {
    open spec fn reds_text(&self) -> Seq<char> {
        struct_text(
            "inkPropertyManager"@,
            seq![list_text(self.bindings@.map_values(|b: inkPropertyBinding| b.reds_text()))],
        )
    }

    fn reds_value(&self) -> (r: String) {
        let mut items: Vec<String> = Vec::new();
        let mut i: usize = 0;
        while i < self.bindings.len()
            invariant
                i <= self.bindings@.len(),
                lines_view(items@) == self.bindings@.take(i as int).map_values(
                    |b: inkPropertyBinding| b.reds_text(),
                ),
            decreases self.bindings@.len() - i,
        {
            let v = self.bindings[i].reds_value();
            let ghost prev = items@;
            items.push(v);
            proof {
                assert(self.bindings@.take(i as int + 1) =~= self.bindings@.take(i as int).push(
                    self.bindings@[i as int],
                ));
                assert(lines_view(items@) =~= lines_view(prev).push(v@));
            }
            i = i + 1;
            assert(lines_view(items@) =~= self.bindings@.take(i as int).map_values(
                |b: inkPropertyBinding| b.reds_text(),
            ));
        }
        assert(self.bindings@.take(i as int) =~= self.bindings@);
        let list = list_value(&items);
        let mut args: Vec<String> = Vec::new();
        args.push(list);
        assert(lines_view(args@) =~= seq![
            list_text(self.bindings@.map_values(|b: inkPropertyBinding| b.reds_text())),
        ]);
        struct_value("inkPropertyManager", &args)
    }
}

impl IsDefault for inkPropertyManager {
    open spec fn spec_is_default(&self) -> bool {
        self.bindings@.len() == 0
    }

    fn is_default(&self) -> (r: bool) {
        self.bindings.len() == 0
    }
}

/// property manager with its handle ID
#[derive(Debug, Clone, PartialEq)]
pub struct PropertyManager {
    pub handle_id: HandleId,
    pub data: inkPropertyManager,
}

impl RedsValue for PropertyManager {
    open spec fn reds_text(&self) -> Seq<char> {
        struct_text("PropertyManager"@, seq![self.handle_id.reds_text(), self.data.reds_text()])
    }

    fn reds_value(&self) -> (r: String) {
        let mut args: Vec<String> = Vec::new();
        args.push(self.handle_id.reds_value());
        args.push(self.data.reds_value());
        assert(lines_view(args@) =~= seq![self.handle_id.reds_text(), self.data.reds_text()]);
        struct_value("PropertyManager", &args)
    }
}

impl RedsValue for Option<PropertyManager> {
    open spec fn reds_text(&self) -> Seq<char> {
        match self {
            Some(p) => p.reds_text(),
            None => Seq::empty(),
        }
    }

    fn reds_value(&self) -> (r: String) {
        match self {
            Some(p) => p.reds_value(),
            None => String::new(),
        }
    }
}

impl IsDefault for Option<PropertyManager> {
    open spec fn spec_is_default(&self) -> bool {
        self is None
    }

    fn is_default(&self) -> (r: bool) {
        self.is_none()
    }
}

impl RedsValue for Option<textLetterCase> {
    open spec fn reds_text(&self) -> Seq<char> {
        match self {
            Some(c) => c.reds_text(),
            None => Seq::empty(),
        }
    }

    fn reds_value(&self) -> (r: String) {
        match self {
            Some(c) => c.reds_value(),
            None => String::new(),
        }
    }
}

impl IsDefault for Option<textLetterCase> {
    open spec fn spec_is_default(&self) -> bool {
        self is None
    }

    fn is_default(&self) -> (r: bool) {
        self.is_none()
    }
}

/// the anonymous wrapper that holds the children of a compound widget
#[allow(non_camel_case_types)]
#[derive(Debug)]
pub struct inkMultiChildren {
    pub children: Vec<InkWrapper<Widget>>,
}

/// fields of the leaf widgets that have no fields of their own
#[allow(non_camel_case_types)]
#[derive(Debug, Clone, PartialEq)]
pub struct LeafWidget {
    pub name: CName,
    pub layout: inkWidgetLayout,
    pub property_manager: Option<PropertyManager>,
    pub render_transform_pivot: Vector2,
    pub render_transform: inkUITransform,
    pub size: Vector2,
}

impl LeafWidget {
    /// Assignment statements of the fields that differ from their default,
    /// in the order of the fields.
    pub open spec fn spec_settings(&self, instance: Seq<char>) -> Seq<Seq<char>> {
        Seq::<Seq<char>>::empty()
            + setting_text(instance, "name"@, self.name.spec_is_default(), self.name.reds_text())
            + setting_text(instance, "layout"@, self.layout.spec_is_default(), self.layout.reds_text())
            + setting_text(instance, "property_manager"@, self.property_manager.spec_is_default(), self.property_manager.reds_text())
            + setting_text(instance, "render_transform_pivot"@, self.render_transform_pivot.spec_is_default(), self.render_transform_pivot.reds_text())
            + setting_text(instance, "render_transform"@, self.render_transform.spec_is_default(), self.render_transform.reds_text())
            + setting_text(instance, "size"@, self.size.spec_is_default(), self.size.reds_text())
    }

    /// Every field holds its default.
    pub open spec fn spec_all_default(&self) -> bool {
        self.name.spec_is_default()
        && self.layout.spec_is_default()
        && self.property_manager.spec_is_default()
        && self.render_transform_pivot.spec_is_default()
        && self.render_transform.spec_is_default()
        && self.size.spec_is_default()
    }

    pub fn settings(&self, instance: &str) -> (r: Vec<String>)
        ensures
            lines_view(r@) == self.spec_settings(instance@),
    {
        let mut out: Vec<String> = Vec::new();
        assert(lines_view(out@) =~= Seq::<Seq<char>>::empty());
        let ghost mut acc = Seq::<Seq<char>>::empty();
        add_setting(&mut out, instance, "name", self.name.is_default(), self.name.reds_value());
        proof {
            acc = acc + setting_text(instance@, "name"@, self.name.spec_is_default(), self.name.reds_text());
        }
        assert(lines_view(out@) == acc);
        add_setting(&mut out, instance, "layout", self.layout.is_default(), self.layout.reds_value());
        proof {
            acc = acc + setting_text(instance@, "layout"@, self.layout.spec_is_default(), self.layout.reds_text());
        }
        assert(lines_view(out@) == acc);
        add_setting(&mut out, instance, "property_manager", self.property_manager.is_default(), self.property_manager.reds_value());
        proof {
            acc = acc + setting_text(instance@, "property_manager"@, self.property_manager.spec_is_default(), self.property_manager.reds_text());
        }
        assert(lines_view(out@) == acc);
        add_setting(&mut out, instance, "render_transform_pivot", self.render_transform_pivot.is_default(), self.render_transform_pivot.reds_value());
        proof {
            acc = acc + setting_text(instance@, "render_transform_pivot"@, self.render_transform_pivot.spec_is_default(), self.render_transform_pivot.reds_text());
        }
        assert(lines_view(out@) == acc);
        add_setting(&mut out, instance, "render_transform", self.render_transform.is_default(), self.render_transform.reds_value());
        proof {
            acc = acc + setting_text(instance@, "render_transform"@, self.render_transform.spec_is_default(), self.render_transform.reds_text());
        }
        assert(lines_view(out@) == acc);
        add_setting(&mut out, instance, "size", self.size.is_default(), self.size.reds_value());
        proof {
            acc = acc + setting_text(instance@, "size"@, self.size.spec_is_default(), self.size.reds_text());
        }
        assert(lines_view(out@) == acc);
        out
    }
}

/// a leaf widget that shows a text
#[allow(non_camel_case_types)]
#[derive(Debug, Clone, PartialEq)]
pub struct inkTextWidget {
    pub name: CName,
    pub layout: inkWidgetLayout,
    pub property_manager: Option<PropertyManager>,
    pub render_transform_pivot: Vector2,
    pub render_transform: inkUITransform,
    pub size: Vector2,
    pub localization_string: LocalizationString,
    pub text: String,
    pub font_family: inkFontFamilyResource,
    pub font_style: fontStyle,
    pub justification: textJustificationType,
    pub text_letter_case: Option<textLetterCase>,
    pub line_height_percentage: Decimal,
    pub text_horizontal_alignment: textHorizontalAlignment,
    pub text_vertical_alignment: textVerticalAlignment,
    pub text_overflow_policy: textOverflowPolicy,
    pub content_h_align: inkEHorizontalAlign,
    pub content_v_align: inkEVerticalAlign,
    pub scroll_delay: ScrollDelay,
    pub scroll_text_speed: ScrollTextSpeed,
}

impl inkTextWidget {
    /// Assignment statements of the fields that differ from their default,
    /// in the order of the fields.
    pub open spec fn spec_settings(&self, instance: Seq<char>) -> Seq<Seq<char>> {
        Seq::<Seq<char>>::empty()
            + setting_text(instance, "name"@, self.name.spec_is_default(), self.name.reds_text())
            + setting_text(instance, "layout"@, self.layout.spec_is_default(), self.layout.reds_text())
            + setting_text(instance, "property_manager"@, self.property_manager.spec_is_default(), self.property_manager.reds_text())
            + setting_text(instance, "render_transform_pivot"@, self.render_transform_pivot.spec_is_default(), self.render_transform_pivot.reds_text())
            + setting_text(instance, "render_transform"@, self.render_transform.spec_is_default(), self.render_transform.reds_text())
            + setting_text(instance, "size"@, self.size.spec_is_default(), self.size.reds_text())
            + setting_text(instance, "localization_string"@, self.localization_string.spec_is_default(), self.localization_string.reds_text())
            + setting_text(instance, "text"@, self.text.spec_is_default(), self.text.reds_text())
            + setting_text(instance, "font_family"@, self.font_family.spec_is_default(), self.font_family.reds_text())
            + setting_text(instance, "font_style"@, self.font_style.spec_is_default(), self.font_style.reds_text())
            + setting_text(instance, "justification"@, self.justification.spec_is_default(), self.justification.reds_text())
            + setting_text(instance, "text_letter_case"@, self.text_letter_case.spec_is_default(), self.text_letter_case.reds_text())
            + setting_text(instance, "line_height_percentage"@, self.line_height_percentage.spec_is_default(), self.line_height_percentage.reds_text())
            + setting_text(instance, "text_horizontal_alignment"@, self.text_horizontal_alignment.spec_is_default(), self.text_horizontal_alignment.reds_text())
            + setting_text(instance, "text_vertical_alignment"@, self.text_vertical_alignment.spec_is_default(), self.text_vertical_alignment.reds_text())
            + setting_text(instance, "text_overflow_policy"@, self.text_overflow_policy.spec_is_default(), self.text_overflow_policy.reds_text())
            + setting_text(instance, "content_h_align"@, self.content_h_align.spec_is_default(), self.content_h_align.reds_text())
            + setting_text(instance, "content_v_align"@, self.content_v_align.spec_is_default(), self.content_v_align.reds_text())
            + setting_text(instance, "scroll_delay"@, self.scroll_delay.spec_is_default(), self.scroll_delay.reds_text())
            + setting_text(instance, "scroll_text_speed"@, self.scroll_text_speed.spec_is_default(), self.scroll_text_speed.reds_text())
    }

    /// Every field holds its default.
    pub open spec fn spec_all_default(&self) -> bool {
        self.name.spec_is_default()
        && self.layout.spec_is_default()
        && self.property_manager.spec_is_default()
        && self.render_transform_pivot.spec_is_default()
        && self.render_transform.spec_is_default()
        && self.size.spec_is_default()
        && self.localization_string.spec_is_default()
        && self.text.spec_is_default()
        && self.font_family.spec_is_default()
        && self.font_style.spec_is_default()
        && self.justification.spec_is_default()
        && self.text_letter_case.spec_is_default()
        && self.line_height_percentage.spec_is_default()
        && self.text_horizontal_alignment.spec_is_default()
        && self.text_vertical_alignment.spec_is_default()
        && self.text_overflow_policy.spec_is_default()
        && self.content_h_align.spec_is_default()
        && self.content_v_align.spec_is_default()
        && self.scroll_delay.spec_is_default()
        && self.scroll_text_speed.spec_is_default()
    }

    #[verifier::spinoff_prover]
    #[verifier::rlimit(80)]
    pub fn settings(&self, instance: &str) -> (r: Vec<String>)
        ensures
            lines_view(r@) == self.spec_settings(instance@),
    {
        let mut out: Vec<String> = Vec::new();
        assert(lines_view(out@) =~= Seq::<Seq<char>>::empty());
        let ghost mut acc = Seq::<Seq<char>>::empty();
        add_setting(&mut out, instance, "name", self.name.is_default(), self.name.reds_value());
        proof {
            acc = acc + setting_text(instance@, "name"@, self.name.spec_is_default(), self.name.reds_text());
        }
        assert(lines_view(out@) == acc);
        add_setting(&mut out, instance, "layout", self.layout.is_default(), self.layout.reds_value());
        proof {
            acc = acc + setting_text(instance@, "layout"@, self.layout.spec_is_default(), self.layout.reds_text());
        }
        assert(lines_view(out@) == acc);
        add_setting(&mut out, instance, "property_manager", self.property_manager.is_default(), self.property_manager.reds_value());
        proof {
            acc = acc + setting_text(instance@, "property_manager"@, self.property_manager.spec_is_default(), self.property_manager.reds_text());
        }
        assert(lines_view(out@) == acc);
        add_setting(&mut out, instance, "render_transform_pivot", self.render_transform_pivot.is_default(), self.render_transform_pivot.reds_value());
        proof {
            acc = acc + setting_text(instance@, "render_transform_pivot"@, self.render_transform_pivot.spec_is_default(), self.render_transform_pivot.reds_text());
        }
        assert(lines_view(out@) == acc);
        add_setting(&mut out, instance, "render_transform", self.render_transform.is_default(), self.render_transform.reds_value());
        proof {
            acc = acc + setting_text(instance@, "render_transform"@, self.render_transform.spec_is_default(), self.render_transform.reds_text());
        }
        assert(lines_view(out@) == acc);
        add_setting(&mut out, instance, "size", self.size.is_default(), self.size.reds_value());
        proof {
            acc = acc + setting_text(instance@, "size"@, self.size.spec_is_default(), self.size.reds_text());
        }
        assert(lines_view(out@) == acc);
        add_setting(&mut out, instance, "localization_string", self.localization_string.is_default(), self.localization_string.reds_value());
        proof {
            acc = acc + setting_text(instance@, "localization_string"@, self.localization_string.spec_is_default(), self.localization_string.reds_text());
        }
        assert(lines_view(out@) == acc);
        add_setting(&mut out, instance, "text", self.text.is_default(), self.text.reds_value());
        proof {
            acc = acc + setting_text(instance@, "text"@, self.text.spec_is_default(), self.text.reds_text());
        }
        assert(lines_view(out@) == acc);
        add_setting(&mut out, instance, "font_family", self.font_family.is_default(), self.font_family.reds_value());
        proof {
            acc = acc + setting_text(instance@, "font_family"@, self.font_family.spec_is_default(), self.font_family.reds_text());
        }
        assert(lines_view(out@) == acc);
        add_setting(&mut out, instance, "font_style", self.font_style.is_default(), self.font_style.reds_value());
        proof {
            acc = acc + setting_text(instance@, "font_style"@, self.font_style.spec_is_default(), self.font_style.reds_text());
        }
        assert(lines_view(out@) == acc);
        add_setting(&mut out, instance, "justification", self.justification.is_default(), self.justification.reds_value());
        proof {
            acc = acc + setting_text(instance@, "justification"@, self.justification.spec_is_default(), self.justification.reds_text());
        }
        assert(lines_view(out@) == acc);
        add_setting(&mut out, instance, "text_letter_case", self.text_letter_case.is_default(), self.text_letter_case.reds_value());
        proof {
            acc = acc + setting_text(instance@, "text_letter_case"@, self.text_letter_case.spec_is_default(), self.text_letter_case.reds_text());
        }
        assert(lines_view(out@) == acc);
        add_setting(&mut out, instance, "line_height_percentage", self.line_height_percentage.is_default(), self.line_height_percentage.reds_value());
        proof {
            acc = acc + setting_text(instance@, "line_height_percentage"@, self.line_height_percentage.spec_is_default(), self.line_height_percentage.reds_text());
        }
        assert(lines_view(out@) == acc);
        add_setting(&mut out, instance, "text_horizontal_alignment", self.text_horizontal_alignment.is_default(), self.text_horizontal_alignment.reds_value());
        proof {
            acc = acc + setting_text(instance@, "text_horizontal_alignment"@, self.text_horizontal_alignment.spec_is_default(), self.text_horizontal_alignment.reds_text());
        }
        assert(lines_view(out@) == acc);
        add_setting(&mut out, instance, "text_vertical_alignment", self.text_vertical_alignment.is_default(), self.text_vertical_alignment.reds_value());
        proof {
            acc = acc + setting_text(instance@, "text_vertical_alignment"@, self.text_vertical_alignment.spec_is_default(), self.text_vertical_alignment.reds_text());
        }
        assert(lines_view(out@) == acc);
        add_setting(&mut out, instance, "text_overflow_policy", self.text_overflow_policy.is_default(), self.text_overflow_policy.reds_value());
        proof {
            acc = acc + setting_text(instance@, "text_overflow_policy"@, self.text_overflow_policy.spec_is_default(), self.text_overflow_policy.reds_text());
        }
        assert(lines_view(out@) == acc);
        add_setting(&mut out, instance, "content_h_align", self.content_h_align.is_default(), self.content_h_align.reds_value());
        proof {
            acc = acc + setting_text(instance@, "content_h_align"@, self.content_h_align.spec_is_default(), self.content_h_align.reds_text());
        }
        assert(lines_view(out@) == acc);
        add_setting(&mut out, instance, "content_v_align", self.content_v_align.is_default(), self.content_v_align.reds_value());
        proof {
            acc = acc + setting_text(instance@, "content_v_align"@, self.content_v_align.spec_is_default(), self.content_v_align.reds_text());
        }
        assert(lines_view(out@) == acc);
        add_setting(&mut out, instance, "scroll_delay", self.scroll_delay.is_default(), self.scroll_delay.reds_value());
        proof {
            acc = acc + setting_text(instance@, "scroll_delay"@, self.scroll_delay.spec_is_default(), self.scroll_delay.reds_text());
        }
        assert(lines_view(out@) == acc);
        add_setting(&mut out, instance, "scroll_text_speed", self.scroll_text_speed.is_default(), self.scroll_text_speed.reds_value());
        proof {
            acc = acc + setting_text(instance@, "scroll_text_speed"@, self.scroll_text_speed.spec_is_default(), self.scroll_text_speed.reds_text());
        }
        assert(lines_view(out@) == acc);
        out
    }
}

/// a leaf widget that shows an image
#[allow(non_camel_case_types)]
#[derive(Debug, Clone, PartialEq)]
pub struct inkImageWidget {
    pub name: CName,
    pub layout: inkWidgetLayout,
    pub property_manager: Option<PropertyManager>,
    pub render_transform_pivot: Vector2,
    pub render_transform: inkUITransform,
    pub size: Vector2,
    pub use_external_dynamic_texture: bool,
    pub external_dynamic_texture: CName,
    pub use_nine_slice_scale: bool,
    pub nine_slice_scale: inkMargin,
    pub mirror_type: inkBrushMirrorType,
    pub tile_type: inkBrushTileType,
    pub horizontal_tile_crop: Decimal,
    pub vertical_tile_crop: Decimal,
    pub texture_atlas: inkTextureAtlas,
    pub texture_part: CName,
    pub content_h_align: inkEHorizontalAlign,
    pub content_v_align: inkEVerticalAlign,
    pub tile_h_align: inkEHorizontalAlign,
    pub tile_v_align: inkEVerticalAlign,
}

impl inkImageWidget {
    /// Assignment statements of the fields that differ from their default,
    /// in the order of the fields.
    pub open spec fn spec_settings(&self, instance: Seq<char>) -> Seq<Seq<char>> {
        Seq::<Seq<char>>::empty()
            + setting_text(instance, "name"@, self.name.spec_is_default(), self.name.reds_text())
            + setting_text(instance, "layout"@, self.layout.spec_is_default(), self.layout.reds_text())
            + setting_text(instance, "property_manager"@, self.property_manager.spec_is_default(), self.property_manager.reds_text())
            + setting_text(instance, "render_transform_pivot"@, self.render_transform_pivot.spec_is_default(), self.render_transform_pivot.reds_text())
            + setting_text(instance, "render_transform"@, self.render_transform.spec_is_default(), self.render_transform.reds_text())
            + setting_text(instance, "size"@, self.size.spec_is_default(), self.size.reds_text())
            + setting_text(instance, "use_external_dynamic_texture"@, self.use_external_dynamic_texture.spec_is_default(), self.use_external_dynamic_texture.reds_text())
            + setting_text(instance, "external_dynamic_texture"@, self.external_dynamic_texture.spec_is_default(), self.external_dynamic_texture.reds_text())
            + setting_text(instance, "use_nine_slice_scale"@, self.use_nine_slice_scale.spec_is_default(), self.use_nine_slice_scale.reds_text())
            + setting_text(instance, "nine_slice_scale"@, self.nine_slice_scale.spec_is_default(), self.nine_slice_scale.reds_text())
            + setting_text(instance, "mirror_type"@, self.mirror_type.spec_is_default(), self.mirror_type.reds_text())
            + setting_text(instance, "tile_type"@, self.tile_type.spec_is_default(), self.tile_type.reds_text())
            + setting_text(instance, "horizontal_tile_crop"@, self.horizontal_tile_crop.spec_is_default(), self.horizontal_tile_crop.reds_text())
            + setting_text(instance, "vertical_tile_crop"@, self.vertical_tile_crop.spec_is_default(), self.vertical_tile_crop.reds_text())
            + setting_text(instance, "texture_atlas"@, self.texture_atlas.spec_is_default(), self.texture_atlas.reds_text())
            + setting_text(instance, "texture_part"@, self.texture_part.spec_is_default(), self.texture_part.reds_text())
            + setting_text(instance, "content_h_align"@, self.content_h_align.spec_is_default(), self.content_h_align.reds_text())
            + setting_text(instance, "content_v_align"@, self.content_v_align.spec_is_default(), self.content_v_align.reds_text())
            + setting_text(instance, "tile_h_align"@, self.tile_h_align.spec_is_default(), self.tile_h_align.reds_text())
            + setting_text(instance, "tile_v_align"@, self.tile_v_align.spec_is_default(), self.tile_v_align.reds_text())
    }

    /// Every field holds its default.
    pub open spec fn spec_all_default(&self) -> bool {
        self.name.spec_is_default()
        && self.layout.spec_is_default()
        && self.property_manager.spec_is_default()
        && self.render_transform_pivot.spec_is_default()
        && self.render_transform.spec_is_default()
        && self.size.spec_is_default()
        && self.use_external_dynamic_texture.spec_is_default()
        && self.external_dynamic_texture.spec_is_default()
        && self.use_nine_slice_scale.spec_is_default()
        && self.nine_slice_scale.spec_is_default()
        && self.mirror_type.spec_is_default()
        && self.tile_type.spec_is_default()
        && self.horizontal_tile_crop.spec_is_default()
        && self.vertical_tile_crop.spec_is_default()
        && self.texture_atlas.spec_is_default()
        && self.texture_part.spec_is_default()
        && self.content_h_align.spec_is_default()
        && self.content_v_align.spec_is_default()
        && self.tile_h_align.spec_is_default()
        && self.tile_v_align.spec_is_default()
    }

    #[verifier::spinoff_prover]
    #[verifier::rlimit(80)]
    pub fn settings(&self, instance: &str) -> (r: Vec<String>)
        ensures
            lines_view(r@) == self.spec_settings(instance@),
    {
        let mut out: Vec<String> = Vec::new();
        assert(lines_view(out@) =~= Seq::<Seq<char>>::empty());
        let ghost mut acc = Seq::<Seq<char>>::empty();
        add_setting(&mut out, instance, "name", self.name.is_default(), self.name.reds_value());
        proof {
            acc = acc + setting_text(instance@, "name"@, self.name.spec_is_default(), self.name.reds_text());
        }
        assert(lines_view(out@) == acc);
        add_setting(&mut out, instance, "layout", self.layout.is_default(), self.layout.reds_value());
        proof {
            acc = acc + setting_text(instance@, "layout"@, self.layout.spec_is_default(), self.layout.reds_text());
        }
        assert(lines_view(out@) == acc);
        add_setting(&mut out, instance, "property_manager", self.property_manager.is_default(), self.property_manager.reds_value());
        proof {
            acc = acc + setting_text(instance@, "property_manager"@, self.property_manager.spec_is_default(), self.property_manager.reds_text());
        }
        assert(lines_view(out@) == acc);
        add_setting(&mut out, instance, "render_transform_pivot", self.render_transform_pivot.is_default(), self.render_transform_pivot.reds_value());
        proof {
            acc = acc + setting_text(instance@, "render_transform_pivot"@, self.render_transform_pivot.spec_is_default(), self.render_transform_pivot.reds_text());
        }
        assert(lines_view(out@) == acc);
        add_setting(&mut out, instance, "render_transform", self.render_transform.is_default(), self.render_transform.reds_value());
        proof {
            acc = acc + setting_text(instance@, "render_transform"@, self.render_transform.spec_is_default(), self.render_transform.reds_text());
        }
        assert(lines_view(out@) == acc);
        add_setting(&mut out, instance, "size", self.size.is_default(), self.size.reds_value());
        proof {
            acc = acc + setting_text(instance@, "size"@, self.size.spec_is_default(), self.size.reds_text());
        }
        assert(lines_view(out@) == acc);
        add_setting(&mut out, instance, "use_external_dynamic_texture", self.use_external_dynamic_texture.is_default(), self.use_external_dynamic_texture.reds_value());
        proof {
            acc = acc + setting_text(instance@, "use_external_dynamic_texture"@, self.use_external_dynamic_texture.spec_is_default(), self.use_external_dynamic_texture.reds_text());
        }
        assert(lines_view(out@) == acc);
        add_setting(&mut out, instance, "external_dynamic_texture", self.external_dynamic_texture.is_default(), self.external_dynamic_texture.reds_value());
        proof {
            acc = acc + setting_text(instance@, "external_dynamic_texture"@, self.external_dynamic_texture.spec_is_default(), self.external_dynamic_texture.reds_text());
        }
        assert(lines_view(out@) == acc);
        add_setting(&mut out, instance, "use_nine_slice_scale", self.use_nine_slice_scale.is_default(), self.use_nine_slice_scale.reds_value());
        proof {
            acc = acc + setting_text(instance@, "use_nine_slice_scale"@, self.use_nine_slice_scale.spec_is_default(), self.use_nine_slice_scale.reds_text());
        }
        assert(lines_view(out@) == acc);
        add_setting(&mut out, instance, "nine_slice_scale", self.nine_slice_scale.is_default(), self.nine_slice_scale.reds_value());
        proof {
            acc = acc + setting_text(instance@, "nine_slice_scale"@, self.nine_slice_scale.spec_is_default(), self.nine_slice_scale.reds_text());
        }
        assert(lines_view(out@) == acc);
        add_setting(&mut out, instance, "mirror_type", self.mirror_type.is_default(), self.mirror_type.reds_value());
        proof {
            acc = acc + setting_text(instance@, "mirror_type"@, self.mirror_type.spec_is_default(), self.mirror_type.reds_text());
        }
        assert(lines_view(out@) == acc);
        add_setting(&mut out, instance, "tile_type", self.tile_type.is_default(), self.tile_type.reds_value());
        proof {
            acc = acc + setting_text(instance@, "tile_type"@, self.tile_type.spec_is_default(), self.tile_type.reds_text());
        }
        assert(lines_view(out@) == acc);
        add_setting(&mut out, instance, "horizontal_tile_crop", self.horizontal_tile_crop.is_default(), self.horizontal_tile_crop.reds_value());
        proof {
            acc = acc + setting_text(instance@, "horizontal_tile_crop"@, self.horizontal_tile_crop.spec_is_default(), self.horizontal_tile_crop.reds_text());
        }
        assert(lines_view(out@) == acc);
        add_setting(&mut out, instance, "vertical_tile_crop", self.vertical_tile_crop.is_default(), self.vertical_tile_crop.reds_value());
        proof {
            acc = acc + setting_text(instance@, "vertical_tile_crop"@, self.vertical_tile_crop.spec_is_default(), self.vertical_tile_crop.reds_text());
        }
        assert(lines_view(out@) == acc);
        add_setting(&mut out, instance, "texture_atlas", self.texture_atlas.is_default(), self.texture_atlas.reds_value());
        proof {
            acc = acc + setting_text(instance@, "texture_atlas"@, self.texture_atlas.spec_is_default(), self.texture_atlas.reds_text());
        }
        assert(lines_view(out@) == acc);
        add_setting(&mut out, instance, "texture_part", self.texture_part.is_default(), self.texture_part.reds_value());
        proof {
            acc = acc + setting_text(instance@, "texture_part"@, self.texture_part.spec_is_default(), self.texture_part.reds_text());
        }
        assert(lines_view(out@) == acc);
        add_setting(&mut out, instance, "content_h_align", self.content_h_align.is_default(), self.content_h_align.reds_value());
        proof {
            acc = acc + setting_text(instance@, "content_h_align"@, self.content_h_align.spec_is_default(), self.content_h_align.reds_text());
        }
        assert(lines_view(out@) == acc);
        add_setting(&mut out, instance, "content_v_align", self.content_v_align.is_default(), self.content_v_align.reds_value());
        proof {
            acc = acc + setting_text(instance@, "content_v_align"@, self.content_v_align.spec_is_default(), self.content_v_align.reds_text());
        }
        assert(lines_view(out@) == acc);
        add_setting(&mut out, instance, "tile_h_align", self.tile_h_align.is_default(), self.tile_h_align.reds_value());
        proof {
            acc = acc + setting_text(instance@, "tile_h_align"@, self.tile_h_align.spec_is_default(), self.tile_h_align.reds_text());
        }
        assert(lines_view(out@) == acc);
        add_setting(&mut out, instance, "tile_v_align", self.tile_v_align.is_default(), self.tile_v_align.reds_value());
        proof {
            acc = acc + setting_text(instance@, "tile_v_align"@, self.tile_v_align.spec_is_default(), self.tile_v_align.reds_text());
        }
        assert(lines_view(out@) == acc);
        out
    }
}

/// fields of the compound widgets: children behind their wrapper, and layout
#[allow(non_camel_case_types)]
#[derive(Debug)]
pub struct CompoundWidget {
    pub children: InkWrapper<inkMultiChildren>,
    pub name: CName,
    pub child_order: inkEChildOrder,
    pub child_margin: inkMargin,
}

impl CompoundWidget {
    /// Assignment statements of the fields that differ from their default,
    /// in the order of the fields.
    pub open spec fn spec_settings(&self, instance: Seq<char>) -> Seq<Seq<char>> {
        Seq::<Seq<char>>::empty()
            + setting_text(instance, "name"@, self.name.spec_is_default(), self.name.reds_text())
            + setting_text(instance, "child_order"@, self.child_order.spec_is_default(), self.child_order.reds_text())
            + setting_text(instance, "child_margin"@, self.child_margin.spec_is_default(), self.child_margin.reds_text())
    }

    /// Every field holds its default, and there are no children.
    pub open spec fn spec_all_default(&self) -> bool {
        self.children.data.children@.len() == 0
        && self.name.spec_is_default()
        && self.child_order.spec_is_default()
        && self.child_margin.spec_is_default()
    }

    pub fn settings(&self, instance: &str) -> (r: Vec<String>)
        ensures
            lines_view(r@) == self.spec_settings(instance@),
    {
        let mut out: Vec<String> = Vec::new();
        assert(lines_view(out@) =~= Seq::<Seq<char>>::empty());
        let ghost mut acc = Seq::<Seq<char>>::empty();
        add_setting(&mut out, instance, "name", self.name.is_default(), self.name.reds_value());
        proof {
            acc = acc + setting_text(instance@, "name"@, self.name.spec_is_default(), self.name.reds_text());
        }
        assert(lines_view(out@) == acc);
        add_setting(&mut out, instance, "child_order", self.child_order.is_default(), self.child_order.reds_value());
        proof {
            acc = acc + setting_text(instance@, "child_order"@, self.child_order.spec_is_default(), self.child_order.reds_text());
        }
        assert(lines_view(out@) == acc);
        add_setting(&mut out, instance, "child_margin", self.child_margin.is_default(), self.child_margin.reds_value());
        proof {
            acc = acc + setting_text(instance@, "child_margin"@, self.child_margin.spec_is_default(), self.child_margin.reds_text());
        }
        assert(lines_view(out@) == acc);
        out
    }
}


/// any widget: the wrapper of children, a compound widget or a leaf widget
#[allow(non_camel_case_types)]
#[derive(Debug)]
pub enum Widget {
    inkMultiChildren(inkMultiChildren),
    inkCanvasWidget(CompoundWidget),
    inkHorizontalPanelWidget(CompoundWidget),
    inkVerticalPanelWidget(CompoundWidget),
    inkScrollAreaWidget(CompoundWidget),
    inkUniformGridWidget(CompoundWidget),
    inkVirtualCompoundWidget(CompoundWidget),
    inkFlexWidget(CompoundWidget),
    inkCacheWidget(CompoundWidget),
    inkTextWidget(inkTextWidget),
    inkImageWidget(inkImageWidget),
    inkVideoWidget(LeafWidget),
    inkMaskWidget(LeafWidget),
    inkBorderWidget(LeafWidget),
    inkShapeWidget(LeafWidget),
    inkCircleWidget(LeafWidget),
    inkRectangleWidget(LeafWidget),
    inkVectorGraphicWidget(LeafWidget),
}

impl Widget {
    /// Name of the widget's kind.
    pub open spec fn spec_kind_name(&self) -> &'static str {
        match self {
            Self::inkMultiChildren(_) => "inkMultiChildren",
            Self::inkCanvasWidget(_) => "inkCanvasWidget",
            Self::inkHorizontalPanelWidget(_) => "inkHorizontalPanelWidget",
            Self::inkVerticalPanelWidget(_) => "inkVerticalPanelWidget",
            Self::inkScrollAreaWidget(_) => "inkScrollAreaWidget",
            Self::inkUniformGridWidget(_) => "inkUniformGridWidget",
            Self::inkVirtualCompoundWidget(_) => "inkVirtualCompoundWidget",
            Self::inkFlexWidget(_) => "inkFlexWidget",
            Self::inkCacheWidget(_) => "inkCacheWidget",
            Self::inkTextWidget(_) => "inkTextWidget",
            Self::inkImageWidget(_) => "inkImageWidget",
            Self::inkVideoWidget(_) => "inkVideoWidget",
            Self::inkMaskWidget(_) => "inkMaskWidget",
            Self::inkBorderWidget(_) => "inkBorderWidget",
            Self::inkShapeWidget(_) => "inkShapeWidget",
            Self::inkCircleWidget(_) => "inkCircleWidget",
            Self::inkRectangleWidget(_) => "inkRectangleWidget",
            Self::inkVectorGraphicWidget(_) => "inkVectorGraphicWidget",
        }
    }

    pub fn kind_name(&self) -> (r: &'static str)
        ensures
            r == self.spec_kind_name(),
    {
        match self {
            Self::inkMultiChildren(_) => "inkMultiChildren",
            Self::inkCanvasWidget(_) => "inkCanvasWidget",
            Self::inkHorizontalPanelWidget(_) => "inkHorizontalPanelWidget",
            Self::inkVerticalPanelWidget(_) => "inkVerticalPanelWidget",
            Self::inkScrollAreaWidget(_) => "inkScrollAreaWidget",
            Self::inkUniformGridWidget(_) => "inkUniformGridWidget",
            Self::inkVirtualCompoundWidget(_) => "inkVirtualCompoundWidget",
            Self::inkFlexWidget(_) => "inkFlexWidget",
            Self::inkCacheWidget(_) => "inkCacheWidget",
            Self::inkTextWidget(_) => "inkTextWidget",
            Self::inkImageWidget(_) => "inkImageWidget",
            Self::inkVideoWidget(_) => "inkVideoWidget",
            Self::inkMaskWidget(_) => "inkMaskWidget",
            Self::inkBorderWidget(_) => "inkBorderWidget",
            Self::inkShapeWidget(_) => "inkShapeWidget",
            Self::inkCircleWidget(_) => "inkCircleWidget",
            Self::inkRectangleWidget(_) => "inkRectangleWidget",
            Self::inkVectorGraphicWidget(_) => "inkVectorGraphicWidget",
        }
    }

    /// Name of the script class that builds a widget of this kind.
    pub open spec fn spec_script_class(&self) -> &'static str {
        match self {
            Self::inkMultiChildren(_) => "inkMultiChildren",
            Self::inkCanvasWidget(_) => "inkCanvas",
            Self::inkHorizontalPanelWidget(_) => "inkHorizontalPanel",
            Self::inkVerticalPanelWidget(_) => "inkVerticalPanel",
            Self::inkScrollAreaWidget(_) => "inkScrollArea",
            Self::inkUniformGridWidget(_) => "inkUniformGrid",
            Self::inkVirtualCompoundWidget(_) => "inkVirtualCompound",
            Self::inkFlexWidget(_) => "inkFlex",
            Self::inkCacheWidget(_) => "inkCache",
            Self::inkTextWidget(_) => "inkText",
            Self::inkImageWidget(_) => "inkImage",
            Self::inkVideoWidget(_) => "inkVideo",
            Self::inkMaskWidget(_) => "inkMask",
            Self::inkBorderWidget(_) => "inkBorder",
            Self::inkShapeWidget(_) => "inkShape",
            Self::inkCircleWidget(_) => "inkCircle",
            Self::inkRectangleWidget(_) => "inkRectangle",
            Self::inkVectorGraphicWidget(_) => "inkVectorGraphic",
        }
    }

    pub fn script_class(&self) -> (r: &'static str)
        ensures
            r == self.spec_script_class(),
    {
        match self {
            Self::inkMultiChildren(_) => "inkMultiChildren",
            Self::inkCanvasWidget(_) => "inkCanvas",
            Self::inkHorizontalPanelWidget(_) => "inkHorizontalPanel",
            Self::inkVerticalPanelWidget(_) => "inkVerticalPanel",
            Self::inkScrollAreaWidget(_) => "inkScrollArea",
            Self::inkUniformGridWidget(_) => "inkUniformGrid",
            Self::inkVirtualCompoundWidget(_) => "inkVirtualCompound",
            Self::inkFlexWidget(_) => "inkFlex",
            Self::inkCacheWidget(_) => "inkCache",
            Self::inkTextWidget(_) => "inkText",
            Self::inkImageWidget(_) => "inkImage",
            Self::inkVideoWidget(_) => "inkVideo",
            Self::inkMaskWidget(_) => "inkMask",
            Self::inkBorderWidget(_) => "inkBorder",
            Self::inkShapeWidget(_) => "inkShape",
            Self::inkCircleWidget(_) => "inkCircle",
            Self::inkRectangleWidget(_) => "inkRectangle",
            Self::inkVectorGraphicWidget(_) => "inkVectorGraphic",
        }
    }

    /// The fields of a compound widget.
    pub open spec fn spec_compound(&self) -> Option<CompoundWidget> {
        match *self {
            Self::inkCanvasWidget(c) => Some(c),
            Self::inkHorizontalPanelWidget(c) => Some(c),
            Self::inkVerticalPanelWidget(c) => Some(c),
            Self::inkScrollAreaWidget(c) => Some(c),
            Self::inkUniformGridWidget(c) => Some(c),
            Self::inkVirtualCompoundWidget(c) => Some(c),
            Self::inkFlexWidget(c) => Some(c),
            Self::inkCacheWidget(c) => Some(c),
            _ => None,
        }
    }

    pub fn as_compound(&self) -> (r: Option<&CompoundWidget>)
        ensures
            r is None <==> self.spec_compound() is None,
            r matches Some(c) ==> self.spec_compound() == Some(*c),
    {
        match self {
            Self::inkCanvasWidget(c) => Some(c),
            Self::inkHorizontalPanelWidget(c) => Some(c),
            Self::inkVerticalPanelWidget(c) => Some(c),
            Self::inkScrollAreaWidget(c) => Some(c),
            Self::inkUniformGridWidget(c) => Some(c),
            Self::inkVirtualCompoundWidget(c) => Some(c),
            Self::inkFlexWidget(c) => Some(c),
            Self::inkCacheWidget(c) => Some(c),
            _ => None,
        }
    }

    /// The name the widget declares; the wrapper of children has none.
    pub open spec fn spec_name(&self) -> Option<Seq<char>> {
        match self {
            Self::inkMultiChildren(_) => None,
            Self::inkCanvasWidget(x) => Some(x.name.0@),
            Self::inkHorizontalPanelWidget(x) => Some(x.name.0@),
            Self::inkVerticalPanelWidget(x) => Some(x.name.0@),
            Self::inkScrollAreaWidget(x) => Some(x.name.0@),
            Self::inkUniformGridWidget(x) => Some(x.name.0@),
            Self::inkVirtualCompoundWidget(x) => Some(x.name.0@),
            Self::inkFlexWidget(x) => Some(x.name.0@),
            Self::inkCacheWidget(x) => Some(x.name.0@),
            Self::inkTextWidget(x) => Some(x.name.0@),
            Self::inkImageWidget(x) => Some(x.name.0@),
            Self::inkVideoWidget(x) => Some(x.name.0@),
            Self::inkMaskWidget(x) => Some(x.name.0@),
            Self::inkBorderWidget(x) => Some(x.name.0@),
            Self::inkShapeWidget(x) => Some(x.name.0@),
            Self::inkCircleWidget(x) => Some(x.name.0@),
            Self::inkRectangleWidget(x) => Some(x.name.0@),
            Self::inkVectorGraphicWidget(x) => Some(x.name.0@),
        }
    }

    pub fn name_string(&self) -> (r: Option<&String>)
        ensures
            r is None <==> self.spec_name() is None,
            r matches Some(s) ==> self.spec_name() == Some(s@),
    {
        match self {
            Self::inkMultiChildren(_) => None,
            Self::inkCanvasWidget(x) => Some(&x.name.0),
            Self::inkHorizontalPanelWidget(x) => Some(&x.name.0),
            Self::inkVerticalPanelWidget(x) => Some(&x.name.0),
            Self::inkScrollAreaWidget(x) => Some(&x.name.0),
            Self::inkUniformGridWidget(x) => Some(&x.name.0),
            Self::inkVirtualCompoundWidget(x) => Some(&x.name.0),
            Self::inkFlexWidget(x) => Some(&x.name.0),
            Self::inkCacheWidget(x) => Some(&x.name.0),
            Self::inkTextWidget(x) => Some(&x.name.0),
            Self::inkImageWidget(x) => Some(&x.name.0),
            Self::inkVideoWidget(x) => Some(&x.name.0),
            Self::inkMaskWidget(x) => Some(&x.name.0),
            Self::inkBorderWidget(x) => Some(&x.name.0),
            Self::inkShapeWidget(x) => Some(&x.name.0),
            Self::inkCircleWidget(x) => Some(&x.name.0),
            Self::inkRectangleWidget(x) => Some(&x.name.0),
            Self::inkVectorGraphicWidget(x) => Some(&x.name.0),
        }
    }

    /// A leaf widget owns no children.
    pub open spec fn spec_is_leaf(&self) -> bool {
        match self {
            Self::inkTextWidget(_) => true,
            Self::inkImageWidget(_) => true,
            Self::inkVideoWidget(_) => true,
            Self::inkMaskWidget(_) => true,
            Self::inkBorderWidget(_) => true,
            Self::inkShapeWidget(_) => true,
            Self::inkCircleWidget(_) => true,
            Self::inkRectangleWidget(_) => true,
            Self::inkVectorGraphicWidget(_) => true,
            _ => false,
        }
    }

}

impl Default for ScrollDelay {
    fn default() -> (r: Self)
        ensures
            r.spec_is_default(),
    {
        ScrollDelay(30)
    }
}

impl Default for ScrollTextSpeed {
    fn default() -> (r: Self)
        ensures
            r.spec_is_default(),
    {
        let d = Decimal::new(2, 1).unwrap();
        proof {
            reveal_with_fuel(crate::scalar::pow10, 18);
        }
        ScrollTextSpeed(d)
    }
}

impl Default for LeafWidget {
    fn default() -> (r: Self)
        ensures
            r.spec_all_default(),
    {
        LeafWidget {
            name: CName::default(),
            layout: inkWidgetLayout::default(),
            property_manager: None,
            render_transform_pivot: Vector2::default(),
            render_transform: inkUITransform::default(),
            size: Vector2::default(),
        }
    }
}

impl Default for inkTextWidget {
    fn default() -> (r: Self)
        ensures
            r.spec_all_default(),
    {
        inkTextWidget {
            name: CName::default(),
            layout: inkWidgetLayout::default(),
            property_manager: None,
            render_transform_pivot: Vector2::default(),
            render_transform: inkUITransform::default(),
            size: Vector2::default(),
            localization_string: LocalizationString::default(),
            text: String::new(),
            font_family: inkFontFamilyResource::default(),
            font_style: fontStyle::default(),
            justification: textJustificationType::default(),
            text_letter_case: None,
            line_height_percentage: Decimal::default(),
            text_horizontal_alignment: textHorizontalAlignment::default(),
            text_vertical_alignment: textVerticalAlignment::default(),
            text_overflow_policy: textOverflowPolicy::default(),
            content_h_align: inkEHorizontalAlign::default(),
            content_v_align: inkEVerticalAlign::default(),
            scroll_delay: ScrollDelay::default(),
            scroll_text_speed: ScrollTextSpeed::default(),
        }
    }
}

impl Default for inkImageWidget {
    fn default() -> (r: Self)
        ensures
            r.spec_all_default(),
    {
        inkImageWidget {
            name: CName::default(),
            layout: inkWidgetLayout::default(),
            property_manager: None,
            render_transform_pivot: Vector2::default(),
            render_transform: inkUITransform::default(),
            size: Vector2::default(),
            use_external_dynamic_texture: false,
            external_dynamic_texture: CName::default(),
            use_nine_slice_scale: false,
            nine_slice_scale: inkMargin::default(),
            mirror_type: inkBrushMirrorType::default(),
            tile_type: inkBrushTileType::default(),
            horizontal_tile_crop: Decimal::default(),
            vertical_tile_crop: Decimal::default(),
            texture_atlas: inkTextureAtlas::default(),
            texture_part: CName::default(),
            content_h_align: inkEHorizontalAlign::default(),
            content_v_align: inkEVerticalAlign::default(),
            tile_h_align: inkEHorizontalAlign::default(),
            tile_v_align: inkEVerticalAlign::default(),
        }
    }
}

impl Default for CompoundWidget {
    fn default() -> (r: Self)
        ensures
            r.spec_all_default(),
    {
        CompoundWidget {
            children: InkWrapper { handle_id: HandleId(0), data: inkMultiChildren { children: Vec::new() } },
            name: CName::default(),
            child_order: inkEChildOrder::default(),
            child_margin: inkMargin::default(),
        }
    }
}


} // verus!
