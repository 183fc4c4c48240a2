//! Screen layouts of the interface files, and their conversion from the
//! parsed file records.
use vstd::prelude::*;
use crate::item::parse_flag_text;
use crate::item::is_true_text;
use crate::strs::str_lowercase;

verus! {

/// Parsed screen layout of an interface file.
#[derive(Debug, Clone)]
pub struct ScreenLayout {
    pub widgets: Vec<WidgetDef>,
}

/// Definition of a single widget.
#[derive(Debug, Clone)]
pub enum WidgetDef {
    Window(WindowDef),
    Button(ButtonDef),
    Text(TextDef),
    Image(ImageDef),
    ListBox(ListBoxDef),
    CheckBox(CheckBoxDef),
    Slider(SliderDef),
    EditBox(EditBoxDef),
}

/// A window: name, position, size and border width.
#[derive(Debug, Clone)]
pub struct WindowDef {
    pub name: String,
    pub x: i32,
    pub y: i32,
    pub width: i32,
    pub height: i32,
    pub border: i32,
}

/// A button: name, image, position, size, flags, and the image shown when disabled.
#[derive(Debug, Clone)]
pub struct ButtonDef {
    pub name: String,
    pub image: String,
    pub x: i32,
    pub y: i32,
    pub width: i32,
    pub height: i32,
    pub transparency: bool,
    pub scale: bool,
    pub disabled: Option<String>,
}

/// A text label: name, text, position, size and font size.
#[derive(Debug, Clone)]
pub struct TextDef {
    pub name: String,
    pub text: String,
    pub x: i32,
    pub y: i32,
    pub width: i32,
    pub height: i32,
    pub font_size: i32,
}

/// An image: name, file, position and size.
#[derive(Debug, Clone)]
pub struct ImageDef {
    pub name: String,
    pub file: String,
    pub x: i32,
    pub y: i32,
    pub width: i32,
    pub height: i32,
}

/// A list box: name, position, size, border, flags and columns.
#[derive(Debug, Clone)]
pub struct ListBoxDef {
    pub name: String,
    pub x: i32,
    pub y: i32,
    pub width: i32,
    pub height: i32,
    pub border: i32,
    pub events: bool,
    pub multi: bool,
    pub show_headers: bool,
    pub header_div: bool,
    pub header_clicks_sort: bool,
    pub columns: Vec<ColumnDef>,
}

/// A list-box column: name, header text and offset.
#[derive(Debug, Clone)]
pub struct ColumnDef {
    pub name: String,
    pub header: String,
    pub offset: i32,
}

/// A check box: name, text, position, size and font size.
#[derive(Debug, Clone)]
pub struct CheckBoxDef {
    pub name: String,
    pub text: String,
    pub x: i32,
    pub y: i32,
    pub width: i32,
    pub height: i32,
    pub font_size: i32,
}

/// A slider: name, position, width, range, value, step and flags.
#[derive(Debug, Clone)]
pub struct SliderDef {
    pub name: String,
    pub x: i32,
    pub y: i32,
    pub width: i32,
    pub min_value: i32,
    pub max_value: i32,
    pub value: i32,
    pub increment: i32,
    pub live_update: bool,
    pub hidden: bool,
    pub disabled: bool,
}

/// An edit box: name, position and size.
#[derive(Debug, Clone)]
pub struct EditBoxDef {
    pub name: String,
    pub x: i32,
    pub y: i32,
    pub width: i32,
    pub height: i32,
}

/// The records of an interface file, in file order.
#[derive(Debug)]
pub struct ScreenXml {
    pub elements: Vec<ScreenElement>,
}

/// One record of an interface file; flags are kept as their text.
#[derive(Debug)]
pub enum ScreenElement {
    Window(WindowXml),
    Button(ButtonXml),
    Text(TextXml),
    Image(ImageXml),
    ListBox(ListBoxXml),
    Checkbox(CheckBoxXml),
    Slider(SliderXml),
    EditBox(EditBoxXml),
}

/// The record of a window, as the file holds it.
#[derive(Debug)]
pub struct WindowXml {
    pub name: String,
    pub x: i32,
    pub y: i32,
    pub width: i32,
    pub height: i32,
    pub border: i32,
}

/// The record of a button, as the file holds it.
#[derive(Debug)]
pub struct ButtonXml {
    pub name: String,
    pub image: String,
    pub x: i32,
    pub y: i32,
    pub width: i32,
    pub height: i32,
    pub transparency: String,
    pub scale: String,
    pub disabled: Option<String>,
}

/// The record of a text label, as the file holds it.
#[derive(Debug)]
pub struct TextXml {
    pub name: String,
    pub text: String,
    pub x: i32,
    pub y: i32,
    pub width: i32,
    pub height: i32,
    pub font_size: i32,
}

/// The record of an image, as the file holds it.
#[derive(Debug)]
pub struct ImageXml {
    pub name: String,
    pub file: String,
    pub x: i32,
    pub y: i32,
    pub width: i32,
    pub height: i32,
}

/// The record of a list box, as the file holds it.
#[derive(Debug)]
pub struct ListBoxXml {
    pub name: String,
    pub x: i32,
    pub y: i32,
    pub width: i32,
    pub height: i32,
    pub border: i32,
    pub events: String,
    pub multi: String,
    pub show_headers: String,
    pub header_div: String,
    pub header_clicks_sort: String,
    pub columns: Vec<ColumnXml>,
}

/// The record of a list-box column, as the file holds it.
#[derive(Debug)]
pub struct ColumnXml {
    pub name: String,
    pub header: String,
    pub offset: i32,
}

/// The record of a check box, as the file holds it.
#[derive(Debug)]
pub struct CheckBoxXml {
    pub name: String,
    pub text: String,
    pub x: i32,
    pub y: i32,
    pub width: i32,
    pub height: i32,
    pub font_size: i32,
}

/// The record of a slider, as the file holds it.
#[derive(Debug)]
pub struct SliderXml {
    pub name: String,
    pub x: i32,
    pub y: i32,
    pub width: i32,
    pub min_value: i32,
    pub max_value: i32,
    pub value: i32,
    pub increment: i32,
    pub live_update: String,
    pub hidden: String,
    pub disabled: String,
}

/// The record of an edit box, as the file holds it.
#[derive(Debug)]
pub struct EditBoxXml {
    pub name: String,
    pub x: i32,
    pub y: i32,
    pub width: i32,
    pub height: i32,
}

/// A flag text of the file: true when its lower-case form is `true` or `1`.
pub open spec fn flag(s: String) -> bool {
    is_true_text(str_lowercase(s@))
}

/// A column converted from its record.
pub open spec fn column_of(c: ColumnXml) -> ColumnDef {
    ColumnDef { name: c.name, header: c.header, offset: c.offset }
}

/// Whether `w` is the widget converted from the record `e`: the same kind,
/// every field carried over, and every flag text read by `flag`.
pub open spec fn widget_of(e: ScreenElement, w: WidgetDef) -> bool {
    match e {
        ScreenElement::Window(r) => match w {
            WidgetDef::Window(d) => {
                &&& d.name == r.name
                &&& d.x == r.x
                &&& d.y == r.y
                &&& d.width == r.width
                &&& d.height == r.height
                &&& d.border == r.border
            },
            _ => false,
        },
        ScreenElement::Button(r) => match w {
            WidgetDef::Button(d) => {
                &&& d.name == r.name
                &&& d.image == r.image
                &&& d.x == r.x
                &&& d.y == r.y
                &&& d.width == r.width
                &&& d.height == r.height
                &&& d.transparency == flag(r.transparency)
                &&& d.scale == flag(r.scale)
                &&& d.disabled == r.disabled
            },
            _ => false,
        },
        ScreenElement::Text(r) => match w {
            WidgetDef::Text(d) => {
                &&& d.name == r.name
                &&& d.text == r.text
                &&& d.x == r.x
                &&& d.y == r.y
                &&& d.width == r.width
                &&& d.height == r.height
                &&& d.font_size == r.font_size
            },
            _ => false,
        },
        ScreenElement::Image(r) => match w {
            WidgetDef::Image(d) => {
                &&& d.name == r.name
                &&& d.file == r.file
                &&& d.x == r.x
                &&& d.y == r.y
                &&& d.width == r.width
                &&& d.height == r.height
            },
            _ => false,
        },
        ScreenElement::ListBox(r) => match w {
            WidgetDef::ListBox(d) => {
                &&& d.name == r.name
                &&& d.x == r.x
                &&& d.y == r.y
                &&& d.width == r.width
                &&& d.height == r.height
                &&& d.border == r.border
                &&& d.events == flag(r.events)
                &&& d.multi == flag(r.multi)
                &&& d.show_headers == flag(r.show_headers)
                &&& d.header_div == flag(r.header_div)
                &&& d.header_clicks_sort == flag(r.header_clicks_sort)
                &&& d.columns@ == r.columns@.map_values(|c: ColumnXml| column_of(c))
            },
            _ => false,
        },
        ScreenElement::Checkbox(r) => match w {
            WidgetDef::CheckBox(d) => {
                &&& d.name == r.name
                &&& d.text == r.text
                &&& d.x == r.x
                &&& d.y == r.y
                &&& d.width == r.width
                &&& d.height == r.height
                &&& d.font_size == r.font_size
            },
            _ => false,
        },
        ScreenElement::Slider(r) => match w {
            WidgetDef::Slider(d) => {
                &&& d.name == r.name
                &&& d.x == r.x
                &&& d.y == r.y
                &&& d.width == r.width
                &&& d.min_value == r.min_value
                &&& d.max_value == r.max_value
                &&& d.value == r.value
                &&& d.increment == r.increment
                &&& d.live_update == flag(r.live_update)
                &&& d.hidden == flag(r.hidden)
                &&& d.disabled == flag(r.disabled)
            },
            _ => false,
        },
        ScreenElement::EditBox(r) => match w {
            WidgetDef::EditBox(d) => {
                &&& d.name == r.name
                &&& d.x == r.x
                &&& d.y == r.y
                &&& d.width == r.width
                &&& d.height == r.height
            },
            _ => false,
        },
    }
}

fn convert_window(r: WindowXml) -> (w: WidgetDef)
    ensures
        widget_of(ScreenElement::Window(r), w),
{
    WidgetDef::Window(WindowDef {
        name: r.name,
        x: r.x,
        y: r.y,
        width: r.width,
        height: r.height,
        border: r.border,
    })
}

fn convert_button(r: ButtonXml) -> (w: WidgetDef)
    ensures
        widget_of(ScreenElement::Button(r), w),
{
    WidgetDef::Button(ButtonDef {
        name: r.name,
        image: r.image,
        x: r.x,
        y: r.y,
        width: r.width,
        height: r.height,
        transparency: parse_flag_text(r.transparency.as_str()),
        scale: parse_flag_text(r.scale.as_str()),
        disabled: r.disabled,
    })
}

fn convert_text(r: TextXml) -> (w: WidgetDef)
    ensures
        widget_of(ScreenElement::Text(r), w),
{
    WidgetDef::Text(TextDef {
        name: r.name,
        text: r.text,
        x: r.x,
        y: r.y,
        width: r.width,
        height: r.height,
        font_size: r.font_size,
    })
}

fn convert_image(r: ImageXml) -> (w: WidgetDef)
    ensures
        widget_of(ScreenElement::Image(r), w),
{
    WidgetDef::Image(ImageDef {
        name: r.name,
        file: r.file,
        x: r.x,
        y: r.y,
        width: r.width,
        height: r.height,
    })
}

fn convert_listbox(r: ListBoxXml) -> (w: WidgetDef)
    ensures
        widget_of(ScreenElement::ListBox(r), w),
{
    let columns = convert_columns(r.columns);
    WidgetDef::ListBox(ListBoxDef {
        name: r.name,
        x: r.x,
        y: r.y,
        width: r.width,
        height: r.height,
        border: r.border,
        events: parse_flag_text(r.events.as_str()),
        multi: parse_flag_text(r.multi.as_str()),
        show_headers: parse_flag_text(r.show_headers.as_str()),
        header_div: parse_flag_text(r.header_div.as_str()),
        header_clicks_sort: parse_flag_text(r.header_clicks_sort.as_str()),
        columns,
    })
}

fn convert_checkbox(r: CheckBoxXml) -> (w: WidgetDef)
    ensures
        widget_of(ScreenElement::Checkbox(r), w),
{
    WidgetDef::CheckBox(CheckBoxDef {
        name: r.name,
        text: r.text,
        x: r.x,
        y: r.y,
        width: r.width,
        height: r.height,
        font_size: r.font_size,
    })
}

fn convert_slider(r: SliderXml) -> (w: WidgetDef)
    ensures
        widget_of(ScreenElement::Slider(r), w),
{
    WidgetDef::Slider(SliderDef {
        name: r.name,
        x: r.x,
        y: r.y,
        width: r.width,
        min_value: r.min_value,
        max_value: r.max_value,
        value: r.value,
        increment: r.increment,
        live_update: parse_flag_text(r.live_update.as_str()),
        hidden: parse_flag_text(r.hidden.as_str()),
        disabled: parse_flag_text(r.disabled.as_str()),
    })
}

fn convert_editbox(r: EditBoxXml) -> (w: WidgetDef)
    ensures
        widget_of(ScreenElement::EditBox(r), w),
{
    WidgetDef::EditBox(EditBoxDef {
        name: r.name,
        x: r.x,
        y: r.y,
        width: r.width,
        height: r.height,
    })
}

fn convert_columns(v: Vec<ColumnXml>) -> (r: Vec<ColumnDef>)
    ensures
        r@ == v@.map_values(|c: ColumnXml| column_of(c)),
{
    let ghost orig = v@;
    let mut v = v;
    let mut r: Vec<ColumnDef> = Vec::new();
    while v.len() > 0
        invariant
            r@ + v@.map_values(|c: ColumnXml| column_of(c)) == orig.map_values(|c: ColumnXml| column_of(c)),
        decreases v.len(),
    {
        let ghost before = v@;
        let c = v.remove(0);
        assert(v@ =~= before.drop_first());
        r.push(ColumnDef { name: c.name, header: c.header, offset: c.offset });
        assert(r@ + v@.map_values(|c: ColumnXml| column_of(c)) =~= orig.map_values(|c: ColumnXml| column_of(c)));
    }
    assert(r@ =~= orig.map_values(|c: ColumnXml| column_of(c)));
    r
}

fn convert_element(e: ScreenElement) -> (w: WidgetDef)
    ensures
        widget_of(e, w),
{
    match e {
        ScreenElement::Window(r) => convert_window(r),
        ScreenElement::Button(r) => convert_button(r),
        ScreenElement::Text(r) => convert_text(r),
        ScreenElement::Image(r) => convert_image(r),
        ScreenElement::ListBox(r) => convert_listbox(r),
        ScreenElement::Checkbox(r) => convert_checkbox(r),
        ScreenElement::Slider(r) => convert_slider(r),
        ScreenElement::EditBox(r) => convert_editbox(r),
    }
}

impl ScreenXml {
    /// Convert the records to a layout: one widget per record, in order (see `widget_of`).
    pub fn into_layout(self) -> (l: ScreenLayout)
        ensures
            l.widgets@.len() == self.elements@.len(),
            forall|i: int| 0 <= i < self.elements@.len() ==> widget_of(self.elements@[i], #[trigger] l.widgets@[i]),
    {
        let ghost orig = self.elements@;
        let mut rest = self.elements;
        let mut widgets: Vec<WidgetDef> = Vec::new();
        while rest.len() > 0
            invariant
                widgets@.len() + rest@.len() == orig.len(),
                rest@ == orig.subrange(widgets@.len() as int, orig.len() as int),
                forall|i: int| 0 <= i < widgets@.len() ==> widget_of(orig[i], #[trigger] widgets@[i]),
            decreases rest.len(),
        {
            let ghost before = rest@;
            let ghost k: int = widgets@.len() as int;
            let e = rest.remove(0);
            assert(rest@ =~= orig.subrange(k + 1, orig.len() as int));
            assert(e == orig[k]);
            let w = convert_element(e);
            widgets.push(w);
        }
        ScreenLayout { widgets }
    }
}

} // verus!
