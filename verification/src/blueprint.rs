use vstd::prelude::*;

use crate::factory::Factory;
use crate::text::owned;

verus! {

/// Category of basic widgets.
pub const CAT_BASE: &'static str = "Основное";

/// Category of containers.
pub const CAT_CONTAIN: &'static str = "Контейнеры";

/// Category of input controls.
pub const CAT_INPUTS: &'static str = "Управление";

/// Metadata every widget blueprint carries: its id and its layer index.
#[derive(Debug)]
pub struct CommonWidgetMeta {
    pub id: String,
    pub index: usize,
}

impl CommonWidgetMeta {
    /// Metadata for a new widget with the given id, at index 0.
    pub fn new(id: String) -> (m: CommonWidgetMeta)
        ensures
            m.id == id,
            m.index == 0,
    {
        CommonWidgetMeta { id, index: 0 }
    }

    /// A copy of the metadata.
    pub fn duplicate(&self) -> (m: CommonWidgetMeta)
        ensures
            m == *self,
    {
        CommonWidgetMeta { id: self.id.clone(), index: self.index }
    }
}

/// Access to a blueprint's metadata.
pub trait HasCommonMeta {
    /// The metadata, as seen in contracts.
    spec fn meta_spec(&self) -> CommonWidgetMeta;

    /// The metadata.
    fn get_meta(&self) -> (m: &CommonWidgetMeta)
        ensures
            *m == self.meta_spec(),;

    /// The metadata, to change; the blueprint carries what it is changed to.
    fn get_meta_mut(&mut self) -> (m: &mut CommonWidgetMeta)
        ensures
            *m == old(self).meta_spec(),
            final(self).meta_spec() == *final(m),;
}

/// How a kind of widget takes children.
#[derive(Clone, Copy, Debug, PartialEq, Eq, Structural)]
pub enum ChildPolicy {
    /// Takes no children.
    Never,
    /// Takes any number of children.
    Always,
    /// Takes one child: only while it has none.
    WhenEmpty,
}

/// Every kind of widget the designer can place.
#[derive(Clone, Copy, Debug, PartialEq, Eq, Structural)]
pub enum WidgetKind {
    NumberInput,
    ButtonBox,
    Checkbox,
    Column,
    Counter,
    HRule,
    Image,
    Input,
    KeyedColumn,
    PickList,
    Pin,
    ProgressBar,
    Space,
    Stack,
    Svg,
    Text,
    Toggler,
    Dummy,
}

/// The type name of a widget kind, as stored in project files.
pub open spec fn kind_type_name(k: WidgetKind) -> Seq<char> {
    match k {
        WidgetKind::NumberInput => "number_input"@,
        WidgetKind::ButtonBox => "button_box"@,
        WidgetKind::Checkbox => "check_box"@,
        WidgetKind::Column => "column"@,
        WidgetKind::Counter => "counter"@,
        WidgetKind::HRule => "h_rule"@,
        WidgetKind::Image => "image"@,
        WidgetKind::Input => "input"@,
        WidgetKind::KeyedColumn => "keyed_column"@,
        WidgetKind::PickList => "pick_list"@,
        WidgetKind::Pin => "pin"@,
        WidgetKind::ProgressBar => "progress_bar"@,
        WidgetKind::Space => "space"@,
        WidgetKind::Stack => "stack"@,
        WidgetKind::Svg => "svg"@,
        WidgetKind::Text => "text"@,
        WidgetKind::Toggler => "toggler"@,
        WidgetKind::Dummy => "dummy"@,
    }
}

/// How a widget kind takes children.
pub open spec fn child_policy(k: WidgetKind) -> ChildPolicy {
    match k {
        WidgetKind::ButtonBox => ChildPolicy::WhenEmpty,
        WidgetKind::Column => ChildPolicy::Always,
        WidgetKind::KeyedColumn => ChildPolicy::Always,
        WidgetKind::Pin => ChildPolicy::WhenEmpty,
        WidgetKind::Stack => ChildPolicy::Always,
        _ => ChildPolicy::Never,
    }
}

/// The kind a type name denotes, among the kinds that can be registered.
pub open spec fn kind_of_type_name(n: Seq<char>) -> Option<WidgetKind> {
    if n == "number_input"@ {
        Some(WidgetKind::NumberInput)
    } else if n == "button_box"@ {
        Some(WidgetKind::ButtonBox)
    } else if n == "check_box"@ {
        Some(WidgetKind::Checkbox)
    } else if n == "column"@ {
        Some(WidgetKind::Column)
    } else if n == "counter"@ {
        Some(WidgetKind::Counter)
    } else if n == "h_rule"@ {
        Some(WidgetKind::HRule)
    } else if n == "image"@ {
        Some(WidgetKind::Image)
    } else if n == "input"@ {
        Some(WidgetKind::Input)
    } else if n == "keyed_column"@ {
        Some(WidgetKind::KeyedColumn)
    } else if n == "pick_list"@ {
        Some(WidgetKind::PickList)
    } else if n == "pin"@ {
        Some(WidgetKind::Pin)
    } else if n == "progress_bar"@ {
        Some(WidgetKind::ProgressBar)
    } else if n == "space"@ {
        Some(WidgetKind::Space)
    } else if n == "stack"@ {
        Some(WidgetKind::Stack)
    } else if n == "svg"@ {
        Some(WidgetKind::Svg)
    } else if n == "text"@ {
        Some(WidgetKind::Text)
    } else if n == "toggler"@ {
        Some(WidgetKind::Toggler)
    } else {
        None
    }
}

/// The blueprint of a kind with the given metadata.
pub open spec fn make_blueprint(k: WidgetKind, m: CommonWidgetMeta) -> AnyBlueprint {
    match k {
        WidgetKind::NumberInput => AnyBlueprint::NumberInput(NumberInputBlueprint { meta: m }),
        WidgetKind::ButtonBox => AnyBlueprint::ButtonBox(ButtonBoxBlueprint { meta: m }),
        WidgetKind::Checkbox => AnyBlueprint::Checkbox(CheckboxBlueprint { meta: m }),
        WidgetKind::Column => AnyBlueprint::Column(ColumnBlueprint { meta: m }),
        WidgetKind::Counter => AnyBlueprint::Counter(CounterBlueprint { meta: m }),
        WidgetKind::HRule => AnyBlueprint::HRule(HRuleBlueprint { meta: m }),
        WidgetKind::Image => AnyBlueprint::Image(ImageBlueprint { meta: m }),
        WidgetKind::Input => AnyBlueprint::Input(InputBlueprint { meta: m }),
        WidgetKind::KeyedColumn => AnyBlueprint::KeyedColumn(KeyedColumnBlueprint { meta: m }),
        WidgetKind::PickList => AnyBlueprint::PickList(PickListBlueprint { meta: m }),
        WidgetKind::Pin => AnyBlueprint::Pin(PinBlueprint { meta: m }),
        WidgetKind::ProgressBar => AnyBlueprint::ProgressBar(ProgressBarBlueprint { meta: m }),
        WidgetKind::Space => AnyBlueprint::Space(SpaceBlueprint { meta: m }),
        WidgetKind::Stack => AnyBlueprint::Stack(StackBlueprint { meta: m }),
        WidgetKind::Svg => AnyBlueprint::Svg(SvgBlueprint { meta: m }),
        WidgetKind::Text => AnyBlueprint::Text(TextBlueprint { meta: m }),
        WidgetKind::Toggler => AnyBlueprint::Toggler(TogglerBlueprint { meta: m }),
        WidgetKind::Dummy => AnyBlueprint::Dummy(DummyBlueprint { meta: m }),
    }
}

impl WidgetKind {
    /// The type name of this kind.
    pub fn widget_type(&self) -> (r: &'static str)
        ensures
            r@ == kind_type_name(*self),
    {
        match self {
            WidgetKind::NumberInput => "number_input",
            WidgetKind::ButtonBox => "button_box",
            WidgetKind::Checkbox => "check_box",
            WidgetKind::Column => "column",
            WidgetKind::Counter => "counter",
            WidgetKind::HRule => "h_rule",
            WidgetKind::Image => "image",
            WidgetKind::Input => "input",
            WidgetKind::KeyedColumn => "keyed_column",
            WidgetKind::PickList => "pick_list",
            WidgetKind::Pin => "pin",
            WidgetKind::ProgressBar => "progress_bar",
            WidgetKind::Space => "space",
            WidgetKind::Stack => "stack",
            WidgetKind::Svg => "svg",
            WidgetKind::Text => "text",
            WidgetKind::Toggler => "toggler",
            WidgetKind::Dummy => "dummy",
        }
    }

    /// How this kind takes children.
    pub fn child_policy(&self) -> (r: ChildPolicy)
        ensures
            r == child_policy(*self),
    {
        match self {
            WidgetKind::ButtonBox => ChildPolicy::WhenEmpty,
            WidgetKind::Column => ChildPolicy::Always,
            WidgetKind::KeyedColumn => ChildPolicy::Always,
            WidgetKind::Pin => ChildPolicy::WhenEmpty,
            WidgetKind::Stack => ChildPolicy::Always,
            _ => ChildPolicy::Never,
        }
    }

    /// A new blueprint of this kind with the given id.
    pub fn create(&self, id: String) -> (b: AnyBlueprint)
        ensures
            b == make_blueprint(*self, (CommonWidgetMeta { id: id, index: 0 })),
            b.kind() == *self,
            b.meta_spec() == (CommonWidgetMeta { id: id, index: 0 }),
    {
        match self {
            WidgetKind::NumberInput => AnyBlueprint::NumberInput(NumberInputBlueprint::new(id)),
            WidgetKind::ButtonBox => AnyBlueprint::ButtonBox(ButtonBoxBlueprint::new(id, owned("Button"))),
            WidgetKind::Checkbox => AnyBlueprint::Checkbox(CheckboxBlueprint::new(id, owned("CheckBox"))),
            WidgetKind::Column => AnyBlueprint::Column(ColumnBlueprint::new(id)),
            WidgetKind::Counter => AnyBlueprint::Counter(CounterBlueprint::new(id)),
            WidgetKind::HRule => AnyBlueprint::HRule(HRuleBlueprint::new(id)),
            WidgetKind::Image => AnyBlueprint::Image(ImageBlueprint::new(id)),
            WidgetKind::Input => AnyBlueprint::Input(InputBlueprint::new(id, owned(""))),
            WidgetKind::KeyedColumn => AnyBlueprint::KeyedColumn(KeyedColumnBlueprint::new(id)),
            WidgetKind::PickList => AnyBlueprint::PickList(PickListBlueprint::new(id)),
            WidgetKind::Pin => AnyBlueprint::Pin(PinBlueprint::new(id)),
            WidgetKind::ProgressBar => AnyBlueprint::ProgressBar(ProgressBarBlueprint::new(id)),
            WidgetKind::Space => AnyBlueprint::Space(SpaceBlueprint::new(id)),
            WidgetKind::Stack => AnyBlueprint::Stack(StackBlueprint::new(id)),
            WidgetKind::Svg => AnyBlueprint::Svg(SvgBlueprint::new(id)),
            WidgetKind::Text => AnyBlueprint::Text(TextBlueprint::new(id)),
            WidgetKind::Toggler => AnyBlueprint::Toggler(TogglerBlueprint::new(id, owned("Toggler"))),
            WidgetKind::Dummy => AnyBlueprint::Dummy(DummyBlueprint::new(id)),
        }
    }
}

/// Blueprint of a `number_input` widget.
#[derive(Debug)]
pub struct NumberInputBlueprint {
    pub meta: CommonWidgetMeta,
}

impl NumberInputBlueprint {
    /// A new `number_input` blueprint with the given id.
    pub fn new(id: String) -> (b: Self)
        ensures
            b.meta.id == id,
            b.meta.index == 0,
    {
        NumberInputBlueprint { meta: CommonWidgetMeta::new(id) }
    }
}

impl HasCommonMeta for NumberInputBlueprint {
    open spec fn meta_spec(&self) -> CommonWidgetMeta {
        self.meta
    }

    fn get_meta(&self) -> (m: &CommonWidgetMeta) {
        &self.meta
    }

    fn get_meta_mut(&mut self) -> (m: &mut CommonWidgetMeta) {
        &mut self.meta
    }
}

/// Blueprint of a `button_box` widget.
#[derive(Debug)]
pub struct ButtonBoxBlueprint {
    pub meta: CommonWidgetMeta,
}

impl ButtonBoxBlueprint {
    /// A new `button_box` blueprint with the given id.
    pub fn new(id: String, _action: String) -> (b: Self)
        ensures
            b.meta.id == id,
            b.meta.index == 0,
    {
        ButtonBoxBlueprint { meta: CommonWidgetMeta::new(id) }
    }
}

impl HasCommonMeta for ButtonBoxBlueprint {
    open spec fn meta_spec(&self) -> CommonWidgetMeta {
        self.meta
    }

    fn get_meta(&self) -> (m: &CommonWidgetMeta) {
        &self.meta
    }

    fn get_meta_mut(&mut self) -> (m: &mut CommonWidgetMeta) {
        &mut self.meta
    }
}

/// Blueprint of a `check_box` widget.
#[derive(Debug)]
pub struct CheckboxBlueprint {
    pub meta: CommonWidgetMeta,
}

impl CheckboxBlueprint {
    /// A new `check_box` blueprint with the given id.
    pub fn new(id: String, _label: String) -> (b: Self)
        ensures
            b.meta.id == id,
            b.meta.index == 0,
    {
        CheckboxBlueprint { meta: CommonWidgetMeta::new(id) }
    }
}

impl HasCommonMeta for CheckboxBlueprint {
    open spec fn meta_spec(&self) -> CommonWidgetMeta {
        self.meta
    }

    fn get_meta(&self) -> (m: &CommonWidgetMeta) {
        &self.meta
    }

    fn get_meta_mut(&mut self) -> (m: &mut CommonWidgetMeta) {
        &mut self.meta
    }
}

/// Blueprint of a `column` widget.
#[derive(Debug)]
pub struct ColumnBlueprint {
    pub meta: CommonWidgetMeta,
}

impl ColumnBlueprint {
    /// A new `column` blueprint with the given id.
    pub fn new(id: String) -> (b: Self)
        ensures
            b.meta.id == id,
            b.meta.index == 0,
    {
        ColumnBlueprint { meta: CommonWidgetMeta::new(id) }
    }
}

impl HasCommonMeta for ColumnBlueprint {
    open spec fn meta_spec(&self) -> CommonWidgetMeta {
        self.meta
    }

    fn get_meta(&self) -> (m: &CommonWidgetMeta) {
        &self.meta
    }

    fn get_meta_mut(&mut self) -> (m: &mut CommonWidgetMeta) {
        &mut self.meta
    }
}

/// Blueprint of a `counter` widget.
#[derive(Debug)]
pub struct CounterBlueprint {
    pub meta: CommonWidgetMeta,
}

impl CounterBlueprint {
    /// A new `counter` blueprint with the given id.
    pub fn new(id: String) -> (b: Self)
        ensures
            b.meta.id == id,
            b.meta.index == 0,
    {
        CounterBlueprint { meta: CommonWidgetMeta::new(id) }
    }
}

impl HasCommonMeta for CounterBlueprint {
    open spec fn meta_spec(&self) -> CommonWidgetMeta {
        self.meta
    }

    fn get_meta(&self) -> (m: &CommonWidgetMeta) {
        &self.meta
    }

    fn get_meta_mut(&mut self) -> (m: &mut CommonWidgetMeta) {
        &mut self.meta
    }
}

/// Blueprint of a `h_rule` widget.
#[derive(Debug)]
pub struct HRuleBlueprint {
    pub meta: CommonWidgetMeta,
}

impl HRuleBlueprint {
    /// A new `h_rule` blueprint with the given id.
    pub fn new(id: String) -> (b: Self)
        ensures
            b.meta.id == id,
            b.meta.index == 0,
    {
        HRuleBlueprint { meta: CommonWidgetMeta::new(id) }
    }
}

impl HasCommonMeta for HRuleBlueprint {
    open spec fn meta_spec(&self) -> CommonWidgetMeta {
        self.meta
    }

    fn get_meta(&self) -> (m: &CommonWidgetMeta) {
        &self.meta
    }

    fn get_meta_mut(&mut self) -> (m: &mut CommonWidgetMeta) {
        &mut self.meta
    }
}

/// Blueprint of a `image` widget.
#[derive(Debug)]
pub struct ImageBlueprint {
    pub meta: CommonWidgetMeta,
}

impl ImageBlueprint {
    /// A new `image` blueprint with the given id.
    pub fn new(id: String) -> (b: Self)
        ensures
            b.meta.id == id,
            b.meta.index == 0,
    {
        ImageBlueprint { meta: CommonWidgetMeta::new(id) }
    }
}

impl HasCommonMeta for ImageBlueprint {
    open spec fn meta_spec(&self) -> CommonWidgetMeta {
        self.meta
    }

    fn get_meta(&self) -> (m: &CommonWidgetMeta) {
        &self.meta
    }

    fn get_meta_mut(&mut self) -> (m: &mut CommonWidgetMeta) {
        &mut self.meta
    }
}

/// Blueprint of a `input` widget.
#[derive(Debug)]
pub struct InputBlueprint {
    pub meta: CommonWidgetMeta,
}

impl InputBlueprint {
    /// A new `input` blueprint with the given id.
    pub fn new(id: String, _placeholder: String) -> (b: Self)
        ensures
            b.meta.id == id,
            b.meta.index == 0,
    {
        InputBlueprint { meta: CommonWidgetMeta::new(id) }
    }
}

impl HasCommonMeta for InputBlueprint {
    open spec fn meta_spec(&self) -> CommonWidgetMeta {
        self.meta
    }

    fn get_meta(&self) -> (m: &CommonWidgetMeta) {
        &self.meta
    }

    fn get_meta_mut(&mut self) -> (m: &mut CommonWidgetMeta) {
        &mut self.meta
    }
}

/// Blueprint of a `keyed_column` widget.
#[derive(Debug)]
pub struct KeyedColumnBlueprint {
    pub meta: CommonWidgetMeta,
}

impl KeyedColumnBlueprint {
    /// A new `keyed_column` blueprint with the given id.
    pub fn new(id: String) -> (b: Self)
        ensures
            b.meta.id == id,
            b.meta.index == 0,
    {
        KeyedColumnBlueprint { meta: CommonWidgetMeta::new(id) }
    }
}

impl HasCommonMeta for KeyedColumnBlueprint {
    open spec fn meta_spec(&self) -> CommonWidgetMeta {
        self.meta
    }

    fn get_meta(&self) -> (m: &CommonWidgetMeta) {
        &self.meta
    }

    fn get_meta_mut(&mut self) -> (m: &mut CommonWidgetMeta) {
        &mut self.meta
    }
}

/// Blueprint of a `pick_list` widget.
#[derive(Debug)]
pub struct PickListBlueprint {
    pub meta: CommonWidgetMeta,
}

impl PickListBlueprint {
    /// A new `pick_list` blueprint with the given id.
    pub fn new(id: String) -> (b: Self)
        ensures
            b.meta.id == id,
            b.meta.index == 0,
    {
        PickListBlueprint { meta: CommonWidgetMeta::new(id) }
    }
}

impl HasCommonMeta for PickListBlueprint {
    open spec fn meta_spec(&self) -> CommonWidgetMeta {
        self.meta
    }

    fn get_meta(&self) -> (m: &CommonWidgetMeta) {
        &self.meta
    }

    fn get_meta_mut(&mut self) -> (m: &mut CommonWidgetMeta) {
        &mut self.meta
    }
}

/// Blueprint of a `pin` widget.
#[derive(Debug)]
pub struct PinBlueprint {
    pub meta: CommonWidgetMeta,
}

impl PinBlueprint {
    /// A new `pin` blueprint with the given id.
    pub fn new(id: String) -> (b: Self)
        ensures
            b.meta.id == id,
            b.meta.index == 0,
    {
        PinBlueprint { meta: CommonWidgetMeta::new(id) }
    }
}

impl HasCommonMeta for PinBlueprint {
    open spec fn meta_spec(&self) -> CommonWidgetMeta {
        self.meta
    }

    fn get_meta(&self) -> (m: &CommonWidgetMeta) {
        &self.meta
    }

    fn get_meta_mut(&mut self) -> (m: &mut CommonWidgetMeta) {
        &mut self.meta
    }
}

/// Blueprint of a `progress_bar` widget.
#[derive(Debug)]
pub struct ProgressBarBlueprint {
    pub meta: CommonWidgetMeta,
}

impl ProgressBarBlueprint {
    /// A new `progress_bar` blueprint with the given id.
    pub fn new(id: String) -> (b: Self)
        ensures
            b.meta.id == id,
            b.meta.index == 0,
    {
        ProgressBarBlueprint { meta: CommonWidgetMeta::new(id) }
    }
}

impl HasCommonMeta for ProgressBarBlueprint {
    open spec fn meta_spec(&self) -> CommonWidgetMeta {
        self.meta
    }

    fn get_meta(&self) -> (m: &CommonWidgetMeta) {
        &self.meta
    }

    fn get_meta_mut(&mut self) -> (m: &mut CommonWidgetMeta) {
        &mut self.meta
    }
}

/// Blueprint of a `space` widget.
#[derive(Debug)]
pub struct SpaceBlueprint {
    pub meta: CommonWidgetMeta,
}

impl SpaceBlueprint {
    /// A new `space` blueprint with the given id.
    pub fn new(id: String) -> (b: Self)
        ensures
            b.meta.id == id,
            b.meta.index == 0,
    {
        SpaceBlueprint { meta: CommonWidgetMeta::new(id) }
    }
}

impl HasCommonMeta for SpaceBlueprint {
    open spec fn meta_spec(&self) -> CommonWidgetMeta {
        self.meta
    }

    fn get_meta(&self) -> (m: &CommonWidgetMeta) {
        &self.meta
    }

    fn get_meta_mut(&mut self) -> (m: &mut CommonWidgetMeta) {
        &mut self.meta
    }
}

/// Blueprint of a `stack` widget.
#[derive(Debug)]
pub struct StackBlueprint {
    pub meta: CommonWidgetMeta,
}

impl StackBlueprint {
    /// A new `stack` blueprint with the given id.
    pub fn new(id: String) -> (b: Self)
        ensures
            b.meta.id == id,
            b.meta.index == 0,
    {
        StackBlueprint { meta: CommonWidgetMeta::new(id) }
    }
}

impl HasCommonMeta for StackBlueprint {
    open spec fn meta_spec(&self) -> CommonWidgetMeta {
        self.meta
    }

    fn get_meta(&self) -> (m: &CommonWidgetMeta) {
        &self.meta
    }

    fn get_meta_mut(&mut self) -> (m: &mut CommonWidgetMeta) {
        &mut self.meta
    }
}

/// Blueprint of a `svg` widget.
#[derive(Debug)]
pub struct SvgBlueprint {
    pub meta: CommonWidgetMeta,
}

impl SvgBlueprint {
    /// A new `svg` blueprint with the given id.
    pub fn new(id: String) -> (b: Self)
        ensures
            b.meta.id == id,
            b.meta.index == 0,
    {
        SvgBlueprint { meta: CommonWidgetMeta::new(id) }
    }
}

impl HasCommonMeta for SvgBlueprint {
    open spec fn meta_spec(&self) -> CommonWidgetMeta {
        self.meta
    }

    fn get_meta(&self) -> (m: &CommonWidgetMeta) {
        &self.meta
    }

    fn get_meta_mut(&mut self) -> (m: &mut CommonWidgetMeta) {
        &mut self.meta
    }
}

/// Blueprint of a `text` widget.
#[derive(Debug)]
pub struct TextBlueprint {
    pub meta: CommonWidgetMeta,
}

impl TextBlueprint {
    /// A new `text` blueprint with the given id.
    pub fn new(id: String) -> (b: Self)
        ensures
            b.meta.id == id,
            b.meta.index == 0,
    {
        TextBlueprint { meta: CommonWidgetMeta::new(id) }
    }
}

impl HasCommonMeta for TextBlueprint {
    open spec fn meta_spec(&self) -> CommonWidgetMeta {
        self.meta
    }

    fn get_meta(&self) -> (m: &CommonWidgetMeta) {
        &self.meta
    }

    fn get_meta_mut(&mut self) -> (m: &mut CommonWidgetMeta) {
        &mut self.meta
    }
}

/// Blueprint of a `toggler` widget.
#[derive(Debug)]
pub struct TogglerBlueprint {
    pub meta: CommonWidgetMeta,
}

impl TogglerBlueprint {
    /// A new `toggler` blueprint with the given id.
    pub fn new(id: String, _label: String) -> (b: Self)
        ensures
            b.meta.id == id,
            b.meta.index == 0,
    {
        TogglerBlueprint { meta: CommonWidgetMeta::new(id) }
    }
}

impl HasCommonMeta for TogglerBlueprint {
    open spec fn meta_spec(&self) -> CommonWidgetMeta {
        self.meta
    }

    fn get_meta(&self) -> (m: &CommonWidgetMeta) {
        &self.meta
    }

    fn get_meta_mut(&mut self) -> (m: &mut CommonWidgetMeta) {
        &mut self.meta
    }
}

/// Blueprint of a `dummy` widget.
#[derive(Debug)]
pub struct DummyBlueprint {
    pub meta: CommonWidgetMeta,
}

impl DummyBlueprint {
    /// A new `dummy` blueprint with the given id.
    pub fn new(id: String) -> (b: Self)
        ensures
            b.meta.id == id,
            b.meta.index == 0,
    {
        DummyBlueprint { meta: CommonWidgetMeta::new(id) }
    }
}

impl HasCommonMeta for DummyBlueprint {
    open spec fn meta_spec(&self) -> CommonWidgetMeta {
        self.meta
    }

    fn get_meta(&self) -> (m: &CommonWidgetMeta) {
        &self.meta
    }

    fn get_meta_mut(&mut self) -> (m: &mut CommonWidgetMeta) {
        &mut self.meta
    }
}

/// The properties the designer declares, by the constant that names each.
#[derive(Clone, Copy, Debug, PartialEq, Eq, Structural)]
pub enum PropertyId {
    Value,
    Min,
    Max,
    Step,
    Width,
    Padding,
    AlignX,
    FontFamily,
    TextSize,
    FontWeight,
    FontStyle,
    LineHeight,
    IgnoreScroll,
    IgnoreButtons,
    Height,
    BgColor,
    BorderRadius,
    BorderColor,
    BorderWidth,
    Action,
    IsChecked,
    Label,
    FlagSize,
    Spacing,
    Wrapping,
    Shaping,
    TextColor,
    MaxWidth,
    Scale,
    Thickness,
    FillPercent,
    Color,
    Path,
    ContentFit,
    Rotation,
    Opacity,
    FilterMethod,
    Placeholder,
    Secure,
    AlignItems,
    Options,
    MenuHeight,
    TextLineHeight,
    ShowHandle,
    PinX,
    PinY,
    ValF32,
    Length,
    Girth,
    IsVertical,
    BarColor,
    Clip,
    Text,
    AlignY,
    ActiveColor,
    FgColor,
    Parent,
}

/// The properties the inspector lists for a widget kind, in order.
pub open spec fn editable_ids(k: WidgetKind) -> Seq<PropertyId> {
    match k {
        WidgetKind::NumberInput => seq![PropertyId::Value, PropertyId::Min, PropertyId::Max, PropertyId::Step, PropertyId::Width, PropertyId::Padding, PropertyId::AlignX, PropertyId::FontFamily, PropertyId::TextSize, PropertyId::FontWeight, PropertyId::FontStyle, PropertyId::LineHeight, PropertyId::IgnoreScroll, PropertyId::IgnoreButtons],
        WidgetKind::ButtonBox => seq![PropertyId::Width, PropertyId::Height, PropertyId::Padding, PropertyId::BgColor, PropertyId::BorderRadius, PropertyId::BorderColor, PropertyId::BorderWidth],
        WidgetKind::Checkbox => seq![PropertyId::Action, PropertyId::IsChecked, PropertyId::Label, PropertyId::FlagSize, PropertyId::Width, PropertyId::Spacing, PropertyId::FontFamily, PropertyId::TextSize, PropertyId::FontWeight, PropertyId::FontStyle, PropertyId::Wrapping, PropertyId::Shaping, PropertyId::LineHeight, PropertyId::TextColor, PropertyId::BgColor, PropertyId::BorderRadius, PropertyId::BorderWidth, PropertyId::BorderColor],
        WidgetKind::Column => seq![PropertyId::Width, PropertyId::Height, PropertyId::MaxWidth, PropertyId::Padding, PropertyId::Spacing, PropertyId::AlignX],
        WidgetKind::Counter => seq![PropertyId::Value, PropertyId::Min, PropertyId::Max, PropertyId::Step, PropertyId::Scale],
        WidgetKind::HRule => seq![PropertyId::Thickness, PropertyId::FillPercent, PropertyId::Color, PropertyId::BorderRadius],
        WidgetKind::Image => seq![PropertyId::Path, PropertyId::Width, PropertyId::Height, PropertyId::ContentFit, PropertyId::Scale, PropertyId::Rotation, PropertyId::Opacity, PropertyId::BorderRadius, PropertyId::FilterMethod],
        WidgetKind::Input => seq![PropertyId::Action, PropertyId::Placeholder, PropertyId::Value, PropertyId::Secure, PropertyId::Width, PropertyId::Padding, PropertyId::FontFamily, PropertyId::TextSize, PropertyId::FontWeight, PropertyId::FontStyle, PropertyId::LineHeight, PropertyId::AlignX],
        WidgetKind::KeyedColumn => seq![PropertyId::Width, PropertyId::Height, PropertyId::MaxWidth, PropertyId::Padding, PropertyId::Spacing, PropertyId::AlignItems],
        WidgetKind::PickList => seq![PropertyId::Action, PropertyId::Options, PropertyId::Value, PropertyId::Placeholder, PropertyId::Width, PropertyId::Padding, PropertyId::MenuHeight, PropertyId::TextLineHeight, PropertyId::FontFamily, PropertyId::TextSize, PropertyId::FontWeight, PropertyId::FontStyle, PropertyId::ShowHandle],
        WidgetKind::Pin => seq![PropertyId::PinX, PropertyId::PinY],
        WidgetKind::ProgressBar => seq![PropertyId::ValF32, PropertyId::Min, PropertyId::Max, PropertyId::Length, PropertyId::Girth, PropertyId::IsVertical, PropertyId::BgColor, PropertyId::BarColor, PropertyId::BorderWidth, PropertyId::BorderColor, PropertyId::BorderRadius],
        WidgetKind::Space => seq![PropertyId::Width, PropertyId::Height],
        WidgetKind::Stack => seq![PropertyId::Width, PropertyId::Height, PropertyId::Clip],
        WidgetKind::Svg => seq![PropertyId::Path, PropertyId::Width, PropertyId::Height, PropertyId::ContentFit, PropertyId::Color, PropertyId::Opacity, PropertyId::Rotation],
        WidgetKind::Text => seq![PropertyId::Text, PropertyId::Width, PropertyId::Height, PropertyId::AlignX, PropertyId::AlignY, PropertyId::FontFamily, PropertyId::TextSize, PropertyId::FontWeight, PropertyId::FontStyle, PropertyId::LineHeight, PropertyId::Wrapping, PropertyId::Shaping, PropertyId::TextColor],
        WidgetKind::Toggler => seq![PropertyId::IsChecked, PropertyId::Label, PropertyId::FlagSize, PropertyId::Width, PropertyId::Spacing, PropertyId::FontFamily, PropertyId::TextSize, PropertyId::FontWeight, PropertyId::FontStyle, PropertyId::ActiveColor, PropertyId::BgColor, PropertyId::FgColor, PropertyId::TextColor],
        WidgetKind::Dummy => Seq::empty(),
    }
}

/// The properties the inspector lists for a widget kind, in order, as
/// `editable_ids` says.
pub fn editable_properties_of(k: WidgetKind) -> (r: Vec<PropertyId>)
    ensures
        r@ == editable_ids(k),
{
    let r = match k {
        WidgetKind::NumberInput => vec![PropertyId::Value, PropertyId::Min, PropertyId::Max, PropertyId::Step, PropertyId::Width, PropertyId::Padding, PropertyId::AlignX, PropertyId::FontFamily, PropertyId::TextSize, PropertyId::FontWeight, PropertyId::FontStyle, PropertyId::LineHeight, PropertyId::IgnoreScroll, PropertyId::IgnoreButtons],
        WidgetKind::ButtonBox => vec![PropertyId::Width, PropertyId::Height, PropertyId::Padding, PropertyId::BgColor, PropertyId::BorderRadius, PropertyId::BorderColor, PropertyId::BorderWidth],
        WidgetKind::Checkbox => vec![PropertyId::Action, PropertyId::IsChecked, PropertyId::Label, PropertyId::FlagSize, PropertyId::Width, PropertyId::Spacing, PropertyId::FontFamily, PropertyId::TextSize, PropertyId::FontWeight, PropertyId::FontStyle, PropertyId::Wrapping, PropertyId::Shaping, PropertyId::LineHeight, PropertyId::TextColor, PropertyId::BgColor, PropertyId::BorderRadius, PropertyId::BorderWidth, PropertyId::BorderColor],
        WidgetKind::Column => vec![PropertyId::Width, PropertyId::Height, PropertyId::MaxWidth, PropertyId::Padding, PropertyId::Spacing, PropertyId::AlignX],
        WidgetKind::Counter => vec![PropertyId::Value, PropertyId::Min, PropertyId::Max, PropertyId::Step, PropertyId::Scale],
        WidgetKind::HRule => vec![PropertyId::Thickness, PropertyId::FillPercent, PropertyId::Color, PropertyId::BorderRadius],
        WidgetKind::Image => vec![PropertyId::Path, PropertyId::Width, PropertyId::Height, PropertyId::ContentFit, PropertyId::Scale, PropertyId::Rotation, PropertyId::Opacity, PropertyId::BorderRadius, PropertyId::FilterMethod],
        WidgetKind::Input => vec![PropertyId::Action, PropertyId::Placeholder, PropertyId::Value, PropertyId::Secure, PropertyId::Width, PropertyId::Padding, PropertyId::FontFamily, PropertyId::TextSize, PropertyId::FontWeight, PropertyId::FontStyle, PropertyId::LineHeight, PropertyId::AlignX],
        WidgetKind::KeyedColumn => vec![PropertyId::Width, PropertyId::Height, PropertyId::MaxWidth, PropertyId::Padding, PropertyId::Spacing, PropertyId::AlignItems],
        WidgetKind::PickList => vec![PropertyId::Action, PropertyId::Options, PropertyId::Value, PropertyId::Placeholder, PropertyId::Width, PropertyId::Padding, PropertyId::MenuHeight, PropertyId::TextLineHeight, PropertyId::FontFamily, PropertyId::TextSize, PropertyId::FontWeight, PropertyId::FontStyle, PropertyId::ShowHandle],
        WidgetKind::Pin => vec![PropertyId::PinX, PropertyId::PinY],
        WidgetKind::ProgressBar => vec![PropertyId::ValF32, PropertyId::Min, PropertyId::Max, PropertyId::Length, PropertyId::Girth, PropertyId::IsVertical, PropertyId::BgColor, PropertyId::BarColor, PropertyId::BorderWidth, PropertyId::BorderColor, PropertyId::BorderRadius],
        WidgetKind::Space => vec![PropertyId::Width, PropertyId::Height],
        WidgetKind::Stack => vec![PropertyId::Width, PropertyId::Height, PropertyId::Clip],
        WidgetKind::Svg => vec![PropertyId::Path, PropertyId::Width, PropertyId::Height, PropertyId::ContentFit, PropertyId::Color, PropertyId::Opacity, PropertyId::Rotation],
        WidgetKind::Text => vec![PropertyId::Text, PropertyId::Width, PropertyId::Height, PropertyId::AlignX, PropertyId::AlignY, PropertyId::FontFamily, PropertyId::TextSize, PropertyId::FontWeight, PropertyId::FontStyle, PropertyId::LineHeight, PropertyId::Wrapping, PropertyId::Shaping, PropertyId::TextColor],
        WidgetKind::Toggler => vec![PropertyId::IsChecked, PropertyId::Label, PropertyId::FlagSize, PropertyId::Width, PropertyId::Spacing, PropertyId::FontFamily, PropertyId::TextSize, PropertyId::FontWeight, PropertyId::FontStyle, PropertyId::ActiveColor, PropertyId::BgColor, PropertyId::FgColor, PropertyId::TextColor],
        WidgetKind::Dummy => vec![],
    };
    proof {
        assert(r@ =~= editable_ids(k));
    }
    r
}


/// What every widget blueprint does: it names its type, carries its id and
/// layer index, and says whether it takes a child now.
pub trait WidgetBlueprint: HasCommonMeta {
    /// The kind of the widget, as seen in contracts.
    spec fn kind_spec(&self) -> WidgetKind;

    /// The type name of the widget's kind.
    fn widget_type(&self) -> (r: &'static str)
        ensures
            r@ == kind_type_name(self.kind_spec()),;

    /// The widget id.
    fn get_id(&self) -> (r: String)
        ensures
            r == self.meta_spec().id,
    {
        self.get_meta().id.clone()
    }

    /// The layer index.
    fn get_index(&self) -> (r: usize)
        ensures
            r == self.meta_spec().index,
    {
        self.get_meta().index
    }

    /// Whether the widget takes a child now: containers always, the
    /// one-child kinds while they have none, the others never.
    fn can_accept_child(&self, factory: &Factory) -> (r: bool)
        requires
            factory.wf(),
        ensures
            r == factory.accepts_kind(self.kind_spec(), self.meta_spec().id@),;

    /// The properties the inspector lists for the widget, in order.
    fn editable_properties(&self) -> (r: Vec<PropertyId>)
        ensures
            r@ == editable_ids(self.kind_spec()),;
}

impl WidgetBlueprint for NumberInputBlueprint {
    open spec fn kind_spec(&self) -> WidgetKind {
        WidgetKind::NumberInput
    }

    fn editable_properties(&self) -> (r: Vec<PropertyId>) {
        editable_properties_of(WidgetKind::NumberInput)
    }

    fn widget_type(&self) -> (r: &'static str) {
        "number_input"
    }

    fn can_accept_child(&self, _factory: &Factory) -> (r: bool) {
        false
    }
}

impl WidgetBlueprint for ButtonBoxBlueprint {
    open spec fn kind_spec(&self) -> WidgetKind {
        WidgetKind::ButtonBox
    }

    fn editable_properties(&self) -> (r: Vec<PropertyId>) {
        editable_properties_of(WidgetKind::ButtonBox)
    }

    fn widget_type(&self) -> (r: &'static str) {
        "button_box"
    }

    fn can_accept_child(&self, factory: &Factory) -> (r: bool) {
        let id = self.get_meta().id.clone();
        factory.get_blueprints_by_parent(id.as_str()).len() == 0
    }
}

impl WidgetBlueprint for CheckboxBlueprint {
    open spec fn kind_spec(&self) -> WidgetKind {
        WidgetKind::Checkbox
    }

    fn editable_properties(&self) -> (r: Vec<PropertyId>) {
        editable_properties_of(WidgetKind::Checkbox)
    }

    fn widget_type(&self) -> (r: &'static str) {
        "check_box"
    }

    fn can_accept_child(&self, _factory: &Factory) -> (r: bool) {
        false
    }
}

impl WidgetBlueprint for ColumnBlueprint {
    open spec fn kind_spec(&self) -> WidgetKind {
        WidgetKind::Column
    }

    fn editable_properties(&self) -> (r: Vec<PropertyId>) {
        editable_properties_of(WidgetKind::Column)
    }

    fn widget_type(&self) -> (r: &'static str) {
        "column"
    }

    fn can_accept_child(&self, _factory: &Factory) -> (r: bool) {
        true
    }
}

impl WidgetBlueprint for CounterBlueprint {
    open spec fn kind_spec(&self) -> WidgetKind {
        WidgetKind::Counter
    }

    fn editable_properties(&self) -> (r: Vec<PropertyId>) {
        editable_properties_of(WidgetKind::Counter)
    }

    fn widget_type(&self) -> (r: &'static str) {
        "counter"
    }

    fn can_accept_child(&self, _factory: &Factory) -> (r: bool) {
        false
    }
}

impl WidgetBlueprint for HRuleBlueprint {
    open spec fn kind_spec(&self) -> WidgetKind {
        WidgetKind::HRule
    }

    fn editable_properties(&self) -> (r: Vec<PropertyId>) {
        editable_properties_of(WidgetKind::HRule)
    }

    fn widget_type(&self) -> (r: &'static str) {
        "h_rule"
    }

    fn can_accept_child(&self, _factory: &Factory) -> (r: bool) {
        false
    }
}

impl WidgetBlueprint for ImageBlueprint {
    open spec fn kind_spec(&self) -> WidgetKind {
        WidgetKind::Image
    }

    fn editable_properties(&self) -> (r: Vec<PropertyId>) {
        editable_properties_of(WidgetKind::Image)
    }

    fn widget_type(&self) -> (r: &'static str) {
        "image"
    }

    fn can_accept_child(&self, _factory: &Factory) -> (r: bool) {
        false
    }
}

impl WidgetBlueprint for InputBlueprint {
    open spec fn kind_spec(&self) -> WidgetKind {
        WidgetKind::Input
    }

    fn editable_properties(&self) -> (r: Vec<PropertyId>) {
        editable_properties_of(WidgetKind::Input)
    }

    fn widget_type(&self) -> (r: &'static str) {
        "input"
    }

    fn can_accept_child(&self, _factory: &Factory) -> (r: bool) {
        false
    }
}

impl WidgetBlueprint for KeyedColumnBlueprint {
    open spec fn kind_spec(&self) -> WidgetKind {
        WidgetKind::KeyedColumn
    }

    fn editable_properties(&self) -> (r: Vec<PropertyId>) {
        editable_properties_of(WidgetKind::KeyedColumn)
    }

    fn widget_type(&self) -> (r: &'static str) {
        "keyed_column"
    }

    fn can_accept_child(&self, _factory: &Factory) -> (r: bool) {
        true
    }
}

impl WidgetBlueprint for PickListBlueprint {
    open spec fn kind_spec(&self) -> WidgetKind {
        WidgetKind::PickList
    }

    fn editable_properties(&self) -> (r: Vec<PropertyId>) {
        editable_properties_of(WidgetKind::PickList)
    }

    fn widget_type(&self) -> (r: &'static str) {
        "pick_list"
    }

    fn can_accept_child(&self, _factory: &Factory) -> (r: bool) {
        false
    }
}

impl WidgetBlueprint for PinBlueprint {
    open spec fn kind_spec(&self) -> WidgetKind {
        WidgetKind::Pin
    }

    fn editable_properties(&self) -> (r: Vec<PropertyId>) {
        editable_properties_of(WidgetKind::Pin)
    }

    fn widget_type(&self) -> (r: &'static str) {
        "pin"
    }

    fn can_accept_child(&self, factory: &Factory) -> (r: bool) {
        let id = self.get_meta().id.clone();
        factory.get_blueprints_by_parent(id.as_str()).len() == 0
    }
}

impl WidgetBlueprint for ProgressBarBlueprint {
    open spec fn kind_spec(&self) -> WidgetKind {
        WidgetKind::ProgressBar
    }

    fn editable_properties(&self) -> (r: Vec<PropertyId>) {
        editable_properties_of(WidgetKind::ProgressBar)
    }

    fn widget_type(&self) -> (r: &'static str) {
        "progress_bar"
    }

    fn can_accept_child(&self, _factory: &Factory) -> (r: bool) {
        false
    }
}

impl WidgetBlueprint for SpaceBlueprint {
    open spec fn kind_spec(&self) -> WidgetKind {
        WidgetKind::Space
    }

    fn editable_properties(&self) -> (r: Vec<PropertyId>) {
        editable_properties_of(WidgetKind::Space)
    }

    fn widget_type(&self) -> (r: &'static str) {
        "space"
    }

    fn can_accept_child(&self, _factory: &Factory) -> (r: bool) {
        false
    }
}

impl WidgetBlueprint for StackBlueprint {
    open spec fn kind_spec(&self) -> WidgetKind {
        WidgetKind::Stack
    }

    fn editable_properties(&self) -> (r: Vec<PropertyId>) {
        editable_properties_of(WidgetKind::Stack)
    }

    fn widget_type(&self) -> (r: &'static str) {
        "stack"
    }

    fn can_accept_child(&self, _factory: &Factory) -> (r: bool) {
        true
    }
}

impl WidgetBlueprint for SvgBlueprint {
    open spec fn kind_spec(&self) -> WidgetKind {
        WidgetKind::Svg
    }

    fn editable_properties(&self) -> (r: Vec<PropertyId>) {
        editable_properties_of(WidgetKind::Svg)
    }

    fn widget_type(&self) -> (r: &'static str) {
        "svg"
    }

    fn can_accept_child(&self, _factory: &Factory) -> (r: bool) {
        false
    }
}

impl WidgetBlueprint for TextBlueprint {
    open spec fn kind_spec(&self) -> WidgetKind {
        WidgetKind::Text
    }

    fn editable_properties(&self) -> (r: Vec<PropertyId>) {
        editable_properties_of(WidgetKind::Text)
    }

    fn widget_type(&self) -> (r: &'static str) {
        "text"
    }

    fn can_accept_child(&self, _factory: &Factory) -> (r: bool) {
        false
    }
}

impl WidgetBlueprint for TogglerBlueprint {
    open spec fn kind_spec(&self) -> WidgetKind {
        WidgetKind::Toggler
    }

    fn editable_properties(&self) -> (r: Vec<PropertyId>) {
        editable_properties_of(WidgetKind::Toggler)
    }

    fn widget_type(&self) -> (r: &'static str) {
        "toggler"
    }

    fn can_accept_child(&self, _factory: &Factory) -> (r: bool) {
        false
    }
}

impl WidgetBlueprint for DummyBlueprint {
    open spec fn kind_spec(&self) -> WidgetKind {
        WidgetKind::Dummy
    }

    fn editable_properties(&self) -> (r: Vec<PropertyId>) {
        editable_properties_of(WidgetKind::Dummy)
    }

    fn widget_type(&self) -> (r: &'static str) {
        "dummy"
    }

    fn can_accept_child(&self, _factory: &Factory) -> (r: bool) {
        false
    }
}

/// A blueprint of any kind.
#[derive(Debug)]
pub enum AnyBlueprint {
    NumberInput(NumberInputBlueprint),
    ButtonBox(ButtonBoxBlueprint),
    Checkbox(CheckboxBlueprint),
    Column(ColumnBlueprint),
    Counter(CounterBlueprint),
    HRule(HRuleBlueprint),
    Image(ImageBlueprint),
    Input(InputBlueprint),
    KeyedColumn(KeyedColumnBlueprint),
    PickList(PickListBlueprint),
    Pin(PinBlueprint),
    ProgressBar(ProgressBarBlueprint),
    Space(SpaceBlueprint),
    Stack(StackBlueprint),
    Svg(SvgBlueprint),
    Text(TextBlueprint),
    Toggler(TogglerBlueprint),
    Dummy(DummyBlueprint),
}

impl AnyBlueprint {
    /// The kind of the blueprint.
    pub open spec fn kind(&self) -> WidgetKind {
        match self {
            AnyBlueprint::NumberInput(_) => WidgetKind::NumberInput,
            AnyBlueprint::ButtonBox(_) => WidgetKind::ButtonBox,
            AnyBlueprint::Checkbox(_) => WidgetKind::Checkbox,
            AnyBlueprint::Column(_) => WidgetKind::Column,
            AnyBlueprint::Counter(_) => WidgetKind::Counter,
            AnyBlueprint::HRule(_) => WidgetKind::HRule,
            AnyBlueprint::Image(_) => WidgetKind::Image,
            AnyBlueprint::Input(_) => WidgetKind::Input,
            AnyBlueprint::KeyedColumn(_) => WidgetKind::KeyedColumn,
            AnyBlueprint::PickList(_) => WidgetKind::PickList,
            AnyBlueprint::Pin(_) => WidgetKind::Pin,
            AnyBlueprint::ProgressBar(_) => WidgetKind::ProgressBar,
            AnyBlueprint::Space(_) => WidgetKind::Space,
            AnyBlueprint::Stack(_) => WidgetKind::Stack,
            AnyBlueprint::Svg(_) => WidgetKind::Svg,
            AnyBlueprint::Text(_) => WidgetKind::Text,
            AnyBlueprint::Toggler(_) => WidgetKind::Toggler,
            AnyBlueprint::Dummy(_) => WidgetKind::Dummy,
        }
    }

    /// The id the blueprint carries.
    pub open spec fn id(&self) -> Seq<char> {
        self.meta_spec().id@
    }

    /// The kind of the blueprint.
    pub fn get_kind(&self) -> (k: WidgetKind)
        ensures
            k == self.kind(),
    {
        match self {
            AnyBlueprint::NumberInput(_) => WidgetKind::NumberInput,
            AnyBlueprint::ButtonBox(_) => WidgetKind::ButtonBox,
            AnyBlueprint::Checkbox(_) => WidgetKind::Checkbox,
            AnyBlueprint::Column(_) => WidgetKind::Column,
            AnyBlueprint::Counter(_) => WidgetKind::Counter,
            AnyBlueprint::HRule(_) => WidgetKind::HRule,
            AnyBlueprint::Image(_) => WidgetKind::Image,
            AnyBlueprint::Input(_) => WidgetKind::Input,
            AnyBlueprint::KeyedColumn(_) => WidgetKind::KeyedColumn,
            AnyBlueprint::PickList(_) => WidgetKind::PickList,
            AnyBlueprint::Pin(_) => WidgetKind::Pin,
            AnyBlueprint::ProgressBar(_) => WidgetKind::ProgressBar,
            AnyBlueprint::Space(_) => WidgetKind::Space,
            AnyBlueprint::Stack(_) => WidgetKind::Stack,
            AnyBlueprint::Svg(_) => WidgetKind::Svg,
            AnyBlueprint::Text(_) => WidgetKind::Text,
            AnyBlueprint::Toggler(_) => WidgetKind::Toggler,
            AnyBlueprint::Dummy(_) => WidgetKind::Dummy,
        }
    }

    /// The type name of the blueprint's kind.
    pub fn widget_type(&self) -> (r: &'static str)
        ensures
            r@ == kind_type_name(self.kind()),
    {
        self.get_kind().widget_type()
    }

    /// The widget id the blueprint carries.
    pub fn get_id(&self) -> (r: String)
        ensures
            r@ == self.id(),
    {
        self.get_meta().id.clone()
    }

    /// Gives the blueprint a new id; its kind and layer index stay.
    pub fn set_id(&mut self, id: &str)
        ensures
            final(self).id() == id@,
            final(self).meta_spec().index == old(self).meta_spec().index,
            final(self).kind() == old(self).kind(),
    {
        let m = self.get_meta_mut();
        m.id = owned(id);
    }

    /// The layer index the blueprint carries.
    pub fn get_index(&self) -> (r: usize)
        ensures
            r == self.meta_spec().index,
    {
        self.get_meta().index
    }

    /// A copy of the blueprint.
    pub fn duplicate(&self) -> (b: AnyBlueprint)
        ensures
            b == *self,
    {
        match self {
            AnyBlueprint::NumberInput(x) => AnyBlueprint::NumberInput(NumberInputBlueprint { meta: x.meta.duplicate() }),
            AnyBlueprint::ButtonBox(x) => AnyBlueprint::ButtonBox(ButtonBoxBlueprint { meta: x.meta.duplicate() }),
            AnyBlueprint::Checkbox(x) => AnyBlueprint::Checkbox(CheckboxBlueprint { meta: x.meta.duplicate() }),
            AnyBlueprint::Column(x) => AnyBlueprint::Column(ColumnBlueprint { meta: x.meta.duplicate() }),
            AnyBlueprint::Counter(x) => AnyBlueprint::Counter(CounterBlueprint { meta: x.meta.duplicate() }),
            AnyBlueprint::HRule(x) => AnyBlueprint::HRule(HRuleBlueprint { meta: x.meta.duplicate() }),
            AnyBlueprint::Image(x) => AnyBlueprint::Image(ImageBlueprint { meta: x.meta.duplicate() }),
            AnyBlueprint::Input(x) => AnyBlueprint::Input(InputBlueprint { meta: x.meta.duplicate() }),
            AnyBlueprint::KeyedColumn(x) => AnyBlueprint::KeyedColumn(KeyedColumnBlueprint { meta: x.meta.duplicate() }),
            AnyBlueprint::PickList(x) => AnyBlueprint::PickList(PickListBlueprint { meta: x.meta.duplicate() }),
            AnyBlueprint::Pin(x) => AnyBlueprint::Pin(PinBlueprint { meta: x.meta.duplicate() }),
            AnyBlueprint::ProgressBar(x) => AnyBlueprint::ProgressBar(ProgressBarBlueprint { meta: x.meta.duplicate() }),
            AnyBlueprint::Space(x) => AnyBlueprint::Space(SpaceBlueprint { meta: x.meta.duplicate() }),
            AnyBlueprint::Stack(x) => AnyBlueprint::Stack(StackBlueprint { meta: x.meta.duplicate() }),
            AnyBlueprint::Svg(x) => AnyBlueprint::Svg(SvgBlueprint { meta: x.meta.duplicate() }),
            AnyBlueprint::Text(x) => AnyBlueprint::Text(TextBlueprint { meta: x.meta.duplicate() }),
            AnyBlueprint::Toggler(x) => AnyBlueprint::Toggler(TogglerBlueprint { meta: x.meta.duplicate() }),
            AnyBlueprint::Dummy(x) => AnyBlueprint::Dummy(DummyBlueprint { meta: x.meta.duplicate() }),
        }
    }
}

impl HasCommonMeta for AnyBlueprint {
    open spec fn meta_spec(&self) -> CommonWidgetMeta {
        match self {
            AnyBlueprint::NumberInput(x) => x.meta,
            AnyBlueprint::ButtonBox(x) => x.meta,
            AnyBlueprint::Checkbox(x) => x.meta,
            AnyBlueprint::Column(x) => x.meta,
            AnyBlueprint::Counter(x) => x.meta,
            AnyBlueprint::HRule(x) => x.meta,
            AnyBlueprint::Image(x) => x.meta,
            AnyBlueprint::Input(x) => x.meta,
            AnyBlueprint::KeyedColumn(x) => x.meta,
            AnyBlueprint::PickList(x) => x.meta,
            AnyBlueprint::Pin(x) => x.meta,
            AnyBlueprint::ProgressBar(x) => x.meta,
            AnyBlueprint::Space(x) => x.meta,
            AnyBlueprint::Stack(x) => x.meta,
            AnyBlueprint::Svg(x) => x.meta,
            AnyBlueprint::Text(x) => x.meta,
            AnyBlueprint::Toggler(x) => x.meta,
            AnyBlueprint::Dummy(x) => x.meta,
        }
    }

    fn get_meta(&self) -> (m: &CommonWidgetMeta) {
        match self {
            AnyBlueprint::NumberInput(x) => &x.meta,
            AnyBlueprint::ButtonBox(x) => &x.meta,
            AnyBlueprint::Checkbox(x) => &x.meta,
            AnyBlueprint::Column(x) => &x.meta,
            AnyBlueprint::Counter(x) => &x.meta,
            AnyBlueprint::HRule(x) => &x.meta,
            AnyBlueprint::Image(x) => &x.meta,
            AnyBlueprint::Input(x) => &x.meta,
            AnyBlueprint::KeyedColumn(x) => &x.meta,
            AnyBlueprint::PickList(x) => &x.meta,
            AnyBlueprint::Pin(x) => &x.meta,
            AnyBlueprint::ProgressBar(x) => &x.meta,
            AnyBlueprint::Space(x) => &x.meta,
            AnyBlueprint::Stack(x) => &x.meta,
            AnyBlueprint::Svg(x) => &x.meta,
            AnyBlueprint::Text(x) => &x.meta,
            AnyBlueprint::Toggler(x) => &x.meta,
            AnyBlueprint::Dummy(x) => &x.meta,
        }
    }

    fn get_meta_mut(&mut self) -> (m: &mut CommonWidgetMeta)
        ensures
            final(self).kind() == old(self).kind(),
    {
        match self {
            AnyBlueprint::NumberInput(x) => &mut x.meta,
            AnyBlueprint::ButtonBox(x) => &mut x.meta,
            AnyBlueprint::Checkbox(x) => &mut x.meta,
            AnyBlueprint::Column(x) => &mut x.meta,
            AnyBlueprint::Counter(x) => &mut x.meta,
            AnyBlueprint::HRule(x) => &mut x.meta,
            AnyBlueprint::Image(x) => &mut x.meta,
            AnyBlueprint::Input(x) => &mut x.meta,
            AnyBlueprint::KeyedColumn(x) => &mut x.meta,
            AnyBlueprint::PickList(x) => &mut x.meta,
            AnyBlueprint::Pin(x) => &mut x.meta,
            AnyBlueprint::ProgressBar(x) => &mut x.meta,
            AnyBlueprint::Space(x) => &mut x.meta,
            AnyBlueprint::Stack(x) => &mut x.meta,
            AnyBlueprint::Svg(x) => &mut x.meta,
            AnyBlueprint::Text(x) => &mut x.meta,
            AnyBlueprint::Toggler(x) => &mut x.meta,
            AnyBlueprint::Dummy(x) => &mut x.meta,
        }
    }
}

/// A maker of blueprints of one kind.
pub trait WidgetCreator {
    /// The kind this creator makes.
    spec fn creates(&self) -> WidgetKind;

    /// Makes a new blueprint with the given id.
    fn create_blueprint(&self, id: String) -> (b: AnyBlueprint)
        ensures
            b.kind() == self.creates(),
            b.meta_spec() == (CommonWidgetMeta { id: id, index: 0 }),;
}

/// Maker of `number_input` blueprints.
#[derive(Debug, Clone, Copy)]
pub struct NumberInputCreator;

impl WidgetCreator for NumberInputCreator {
    open spec fn creates(&self) -> WidgetKind {
        WidgetKind::NumberInput
    }

    fn create_blueprint(&self, id: String) -> (b: AnyBlueprint) {
        WidgetKind::NumberInput.create(id)
    }
}

/// Maker of `button_box` blueprints.
#[derive(Debug, Clone, Copy)]
pub struct ButtonBoxCreator;

impl WidgetCreator for ButtonBoxCreator {
    open spec fn creates(&self) -> WidgetKind {
        WidgetKind::ButtonBox
    }

    fn create_blueprint(&self, id: String) -> (b: AnyBlueprint) {
        WidgetKind::ButtonBox.create(id)
    }
}

/// Maker of `check_box` blueprints.
#[derive(Debug, Clone, Copy)]
pub struct CheckboxCreator;

impl WidgetCreator for CheckboxCreator {
    open spec fn creates(&self) -> WidgetKind {
        WidgetKind::Checkbox
    }

    fn create_blueprint(&self, id: String) -> (b: AnyBlueprint) {
        WidgetKind::Checkbox.create(id)
    }
}

/// Maker of `column` blueprints.
#[derive(Debug, Clone, Copy)]
pub struct ColumnCreator;

impl WidgetCreator for ColumnCreator {
    open spec fn creates(&self) -> WidgetKind {
        WidgetKind::Column
    }

    fn create_blueprint(&self, id: String) -> (b: AnyBlueprint) {
        WidgetKind::Column.create(id)
    }
}

/// Maker of `counter` blueprints.
#[derive(Debug, Clone, Copy)]
pub struct CounterCreator;

impl WidgetCreator for CounterCreator {
    open spec fn creates(&self) -> WidgetKind {
        WidgetKind::Counter
    }

    fn create_blueprint(&self, id: String) -> (b: AnyBlueprint) {
        WidgetKind::Counter.create(id)
    }
}

/// Maker of `h_rule` blueprints.
#[derive(Debug, Clone, Copy)]
pub struct HRuleCreator;

impl WidgetCreator for HRuleCreator {
    open spec fn creates(&self) -> WidgetKind {
        WidgetKind::HRule
    }

    fn create_blueprint(&self, id: String) -> (b: AnyBlueprint) {
        WidgetKind::HRule.create(id)
    }
}

/// Maker of `image` blueprints.
#[derive(Debug, Clone, Copy)]
pub struct ImageCreator;

impl WidgetCreator for ImageCreator {
    open spec fn creates(&self) -> WidgetKind {
        WidgetKind::Image
    }

    fn create_blueprint(&self, id: String) -> (b: AnyBlueprint) {
        WidgetKind::Image.create(id)
    }
}

/// Maker of `input` blueprints.
#[derive(Debug, Clone, Copy)]
pub struct InputCreator;

impl WidgetCreator for InputCreator {
    open spec fn creates(&self) -> WidgetKind {
        WidgetKind::Input
    }

    fn create_blueprint(&self, id: String) -> (b: AnyBlueprint) {
        WidgetKind::Input.create(id)
    }
}

/// Maker of `keyed_column` blueprints.
#[derive(Debug, Clone, Copy)]
pub struct KeyedColumnCreator;

impl WidgetCreator for KeyedColumnCreator {
    open spec fn creates(&self) -> WidgetKind {
        WidgetKind::KeyedColumn
    }

    fn create_blueprint(&self, id: String) -> (b: AnyBlueprint) {
        WidgetKind::KeyedColumn.create(id)
    }
}

/// Maker of `pick_list` blueprints.
#[derive(Debug, Clone, Copy)]
pub struct PickListCreator;

impl WidgetCreator for PickListCreator {
    open spec fn creates(&self) -> WidgetKind {
        WidgetKind::PickList
    }

    fn create_blueprint(&self, id: String) -> (b: AnyBlueprint) {
        WidgetKind::PickList.create(id)
    }
}

/// Maker of `pin` blueprints.
#[derive(Debug, Clone, Copy)]
pub struct PinCreator;

impl WidgetCreator for PinCreator {
    open spec fn creates(&self) -> WidgetKind {
        WidgetKind::Pin
    }

    fn create_blueprint(&self, id: String) -> (b: AnyBlueprint) {
        WidgetKind::Pin.create(id)
    }
}

/// Maker of `progress_bar` blueprints.
#[derive(Debug, Clone, Copy)]
pub struct ProgressBarCreator;

impl WidgetCreator for ProgressBarCreator {
    open spec fn creates(&self) -> WidgetKind {
        WidgetKind::ProgressBar
    }

    fn create_blueprint(&self, id: String) -> (b: AnyBlueprint) {
        WidgetKind::ProgressBar.create(id)
    }
}

/// Maker of `space` blueprints.
#[derive(Debug, Clone, Copy)]
pub struct SpaceCreator;

impl WidgetCreator for SpaceCreator {
    open spec fn creates(&self) -> WidgetKind {
        WidgetKind::Space
    }

    fn create_blueprint(&self, id: String) -> (b: AnyBlueprint) {
        WidgetKind::Space.create(id)
    }
}

/// Maker of `stack` blueprints.
#[derive(Debug, Clone, Copy)]
pub struct StackCreator;

impl WidgetCreator for StackCreator {
    open spec fn creates(&self) -> WidgetKind {
        WidgetKind::Stack
    }

    fn create_blueprint(&self, id: String) -> (b: AnyBlueprint) {
        WidgetKind::Stack.create(id)
    }
}

/// Maker of `svg` blueprints.
#[derive(Debug, Clone, Copy)]
pub struct SvgCreator;

impl WidgetCreator for SvgCreator {
    open spec fn creates(&self) -> WidgetKind {
        WidgetKind::Svg
    }

    fn create_blueprint(&self, id: String) -> (b: AnyBlueprint) {
        WidgetKind::Svg.create(id)
    }
}

/// Maker of `text` blueprints.
#[derive(Debug, Clone, Copy)]
pub struct TextCreator;

impl WidgetCreator for TextCreator {
    open spec fn creates(&self) -> WidgetKind {
        WidgetKind::Text
    }

    fn create_blueprint(&self, id: String) -> (b: AnyBlueprint) {
        WidgetKind::Text.create(id)
    }
}

/// Maker of `toggler` blueprints.
#[derive(Debug, Clone, Copy)]
pub struct TogglerCreator;

impl WidgetCreator for TogglerCreator {
    open spec fn creates(&self) -> WidgetKind {
        WidgetKind::Toggler
    }

    fn create_blueprint(&self, id: String) -> (b: AnyBlueprint) {
        WidgetKind::Toggler.create(id)
    }
}

/// An entry of the registry of widget kinds: the type name, the category
/// under which the toolbox lists it, and the kind it creates.
#[derive(Debug, Clone, Copy)]
pub struct AutoRegisteredWidget {
    pub name: &'static str,
    pub category: &'static str,
    pub kind: WidgetKind,
}

/// Category of a registrable kind.
pub open spec fn category_of(k: WidgetKind) -> Seq<char> {
    match k {
        WidgetKind::NumberInput => CAT_INPUTS@,
        WidgetKind::ButtonBox => CAT_CONTAIN@,
        WidgetKind::Checkbox => CAT_INPUTS@,
        WidgetKind::Column => CAT_CONTAIN@,
        WidgetKind::Counter => CAT_INPUTS@,
        WidgetKind::HRule => CAT_BASE@,
        WidgetKind::Image => CAT_INPUTS@,
        WidgetKind::Input => CAT_INPUTS@,
        WidgetKind::KeyedColumn => CAT_CONTAIN@,
        WidgetKind::PickList => CAT_INPUTS@,
        WidgetKind::Pin => CAT_CONTAIN@,
        WidgetKind::ProgressBar => CAT_INPUTS@,
        WidgetKind::Space => CAT_BASE@,
        WidgetKind::Stack => CAT_CONTAIN@,
        WidgetKind::Svg => CAT_BASE@,
        WidgetKind::Text => CAT_BASE@,
        WidgetKind::Toggler => CAT_INPUTS@,
        WidgetKind::Dummy => Seq::empty(),
    }
}

/// The kinds that register themselves, in registry order.
pub open spec fn registered_kinds() -> Seq<WidgetKind> {
    seq![
        WidgetKind::NumberInput,
        WidgetKind::ButtonBox,
        WidgetKind::Checkbox,
        WidgetKind::Column,
        WidgetKind::Counter,
        WidgetKind::HRule,
        WidgetKind::Image,
        WidgetKind::Input,
        WidgetKind::KeyedColumn,
        WidgetKind::PickList,
        WidgetKind::Pin,
        WidgetKind::ProgressBar,
        WidgetKind::Space,
        WidgetKind::Stack,
        WidgetKind::Svg,
        WidgetKind::Text,
        WidgetKind::Toggler,
    ]
}

/// The registry of all widget kinds the designer offers.
pub fn registered_widgets() -> (r: Vec<AutoRegisteredWidget>)
    ensures
        r@.len() == registered_kinds().len(),
        forall|i: int| 0 <= i < r@.len() ==> {
            &&& (#[trigger] r@[i]).kind == registered_kinds()[i]
            &&& r@[i].name@ == kind_type_name(r@[i].kind)
            &&& r@[i].category@ == category_of(r@[i].kind)
        },
{
    let mut r: Vec<AutoRegisteredWidget> = Vec::new();
    r.push(AutoRegisteredWidget { name: "number_input", category: CAT_INPUTS, kind: WidgetKind::NumberInput });
    r.push(AutoRegisteredWidget { name: "button_box", category: CAT_CONTAIN, kind: WidgetKind::ButtonBox });
    r.push(AutoRegisteredWidget { name: "check_box", category: CAT_INPUTS, kind: WidgetKind::Checkbox });
    r.push(AutoRegisteredWidget { name: "column", category: CAT_CONTAIN, kind: WidgetKind::Column });
    r.push(AutoRegisteredWidget { name: "counter", category: CAT_INPUTS, kind: WidgetKind::Counter });
    r.push(AutoRegisteredWidget { name: "h_rule", category: CAT_BASE, kind: WidgetKind::HRule });
    r.push(AutoRegisteredWidget { name: "image", category: CAT_INPUTS, kind: WidgetKind::Image });
    r.push(AutoRegisteredWidget { name: "input", category: CAT_INPUTS, kind: WidgetKind::Input });
    r.push(AutoRegisteredWidget { name: "keyed_column", category: CAT_CONTAIN, kind: WidgetKind::KeyedColumn });
    r.push(AutoRegisteredWidget { name: "pick_list", category: CAT_INPUTS, kind: WidgetKind::PickList });
    r.push(AutoRegisteredWidget { name: "pin", category: CAT_CONTAIN, kind: WidgetKind::Pin });
    r.push(AutoRegisteredWidget { name: "progress_bar", category: CAT_INPUTS, kind: WidgetKind::ProgressBar });
    r.push(AutoRegisteredWidget { name: "space", category: CAT_BASE, kind: WidgetKind::Space });
    r.push(AutoRegisteredWidget { name: "stack", category: CAT_CONTAIN, kind: WidgetKind::Stack });
    r.push(AutoRegisteredWidget { name: "svg", category: CAT_BASE, kind: WidgetKind::Svg });
    r.push(AutoRegisteredWidget { name: "text", category: CAT_BASE, kind: WidgetKind::Text });
    r.push(AutoRegisteredWidget { name: "toggler", category: CAT_INPUTS, kind: WidgetKind::Toggler });
    assert(r@.len() == registered_kinds().len());
    r
}


/// The properties the inspector lists for each widget kind, position by
/// position, as each blueprint of the designer declares them.
pub proof fn law_editable_lists()
    ensures
        editable_ids(WidgetKind::NumberInput).len() == 14,
        editable_ids(WidgetKind::NumberInput)[0] == PropertyId::Value,
        editable_ids(WidgetKind::NumberInput)[1] == PropertyId::Min,
        editable_ids(WidgetKind::NumberInput)[2] == PropertyId::Max,
        editable_ids(WidgetKind::NumberInput)[3] == PropertyId::Step,
        editable_ids(WidgetKind::NumberInput)[4] == PropertyId::Width,
        editable_ids(WidgetKind::NumberInput)[5] == PropertyId::Padding,
        editable_ids(WidgetKind::NumberInput)[6] == PropertyId::AlignX,
        editable_ids(WidgetKind::NumberInput)[7] == PropertyId::FontFamily,
        editable_ids(WidgetKind::NumberInput)[8] == PropertyId::TextSize,
        editable_ids(WidgetKind::NumberInput)[9] == PropertyId::FontWeight,
        editable_ids(WidgetKind::NumberInput)[10] == PropertyId::FontStyle,
        editable_ids(WidgetKind::NumberInput)[11] == PropertyId::LineHeight,
        editable_ids(WidgetKind::NumberInput)[12] == PropertyId::IgnoreScroll,
        editable_ids(WidgetKind::NumberInput)[13] == PropertyId::IgnoreButtons,
        editable_ids(WidgetKind::ButtonBox).len() == 7,
        editable_ids(WidgetKind::ButtonBox)[0] == PropertyId::Width,
        editable_ids(WidgetKind::ButtonBox)[1] == PropertyId::Height,
        editable_ids(WidgetKind::ButtonBox)[2] == PropertyId::Padding,
        editable_ids(WidgetKind::ButtonBox)[3] == PropertyId::BgColor,
        editable_ids(WidgetKind::ButtonBox)[4] == PropertyId::BorderRadius,
        editable_ids(WidgetKind::ButtonBox)[5] == PropertyId::BorderColor,
        editable_ids(WidgetKind::ButtonBox)[6] == PropertyId::BorderWidth,
        editable_ids(WidgetKind::Checkbox).len() == 18,
        editable_ids(WidgetKind::Checkbox)[0] == PropertyId::Action,
        editable_ids(WidgetKind::Checkbox)[1] == PropertyId::IsChecked,
        editable_ids(WidgetKind::Checkbox)[2] == PropertyId::Label,
        editable_ids(WidgetKind::Checkbox)[3] == PropertyId::FlagSize,
        editable_ids(WidgetKind::Checkbox)[4] == PropertyId::Width,
        editable_ids(WidgetKind::Checkbox)[5] == PropertyId::Spacing,
        editable_ids(WidgetKind::Checkbox)[6] == PropertyId::FontFamily,
        editable_ids(WidgetKind::Checkbox)[7] == PropertyId::TextSize,
        editable_ids(WidgetKind::Checkbox)[8] == PropertyId::FontWeight,
        editable_ids(WidgetKind::Checkbox)[9] == PropertyId::FontStyle,
        editable_ids(WidgetKind::Checkbox)[10] == PropertyId::Wrapping,
        editable_ids(WidgetKind::Checkbox)[11] == PropertyId::Shaping,
        editable_ids(WidgetKind::Checkbox)[12] == PropertyId::LineHeight,
        editable_ids(WidgetKind::Checkbox)[13] == PropertyId::TextColor,
        editable_ids(WidgetKind::Checkbox)[14] == PropertyId::BgColor,
        editable_ids(WidgetKind::Checkbox)[15] == PropertyId::BorderRadius,
        editable_ids(WidgetKind::Checkbox)[16] == PropertyId::BorderWidth,
        editable_ids(WidgetKind::Checkbox)[17] == PropertyId::BorderColor,
        editable_ids(WidgetKind::Column).len() == 6,
        editable_ids(WidgetKind::Column)[0] == PropertyId::Width,
        editable_ids(WidgetKind::Column)[1] == PropertyId::Height,
        editable_ids(WidgetKind::Column)[2] == PropertyId::MaxWidth,
        editable_ids(WidgetKind::Column)[3] == PropertyId::Padding,
        editable_ids(WidgetKind::Column)[4] == PropertyId::Spacing,
        editable_ids(WidgetKind::Column)[5] == PropertyId::AlignX,
        editable_ids(WidgetKind::Counter).len() == 5,
        editable_ids(WidgetKind::Counter)[0] == PropertyId::Value,
        editable_ids(WidgetKind::Counter)[1] == PropertyId::Min,
        editable_ids(WidgetKind::Counter)[2] == PropertyId::Max,
        editable_ids(WidgetKind::Counter)[3] == PropertyId::Step,
        editable_ids(WidgetKind::Counter)[4] == PropertyId::Scale,
        editable_ids(WidgetKind::HRule).len() == 4,
        editable_ids(WidgetKind::HRule)[0] == PropertyId::Thickness,
        editable_ids(WidgetKind::HRule)[1] == PropertyId::FillPercent,
        editable_ids(WidgetKind::HRule)[2] == PropertyId::Color,
        editable_ids(WidgetKind::HRule)[3] == PropertyId::BorderRadius,
        editable_ids(WidgetKind::Image).len() == 9,
        editable_ids(WidgetKind::Image)[0] == PropertyId::Path,
        editable_ids(WidgetKind::Image)[1] == PropertyId::Width,
        editable_ids(WidgetKind::Image)[2] == PropertyId::Height,
        editable_ids(WidgetKind::Image)[3] == PropertyId::ContentFit,
        editable_ids(WidgetKind::Image)[4] == PropertyId::Scale,
        editable_ids(WidgetKind::Image)[5] == PropertyId::Rotation,
        editable_ids(WidgetKind::Image)[6] == PropertyId::Opacity,
        editable_ids(WidgetKind::Image)[7] == PropertyId::BorderRadius,
        editable_ids(WidgetKind::Image)[8] == PropertyId::FilterMethod,
        editable_ids(WidgetKind::Input).len() == 12,
        editable_ids(WidgetKind::Input)[0] == PropertyId::Action,
        editable_ids(WidgetKind::Input)[1] == PropertyId::Placeholder,
        editable_ids(WidgetKind::Input)[2] == PropertyId::Value,
        editable_ids(WidgetKind::Input)[3] == PropertyId::Secure,
        editable_ids(WidgetKind::Input)[4] == PropertyId::Width,
        editable_ids(WidgetKind::Input)[5] == PropertyId::Padding,
        editable_ids(WidgetKind::Input)[6] == PropertyId::FontFamily,
        editable_ids(WidgetKind::Input)[7] == PropertyId::TextSize,
        editable_ids(WidgetKind::Input)[8] == PropertyId::FontWeight,
        editable_ids(WidgetKind::Input)[9] == PropertyId::FontStyle,
        editable_ids(WidgetKind::Input)[10] == PropertyId::LineHeight,
        editable_ids(WidgetKind::Input)[11] == PropertyId::AlignX,
        editable_ids(WidgetKind::KeyedColumn).len() == 6,
        editable_ids(WidgetKind::KeyedColumn)[0] == PropertyId::Width,
        editable_ids(WidgetKind::KeyedColumn)[1] == PropertyId::Height,
        editable_ids(WidgetKind::KeyedColumn)[2] == PropertyId::MaxWidth,
        editable_ids(WidgetKind::KeyedColumn)[3] == PropertyId::Padding,
        editable_ids(WidgetKind::KeyedColumn)[4] == PropertyId::Spacing,
        editable_ids(WidgetKind::KeyedColumn)[5] == PropertyId::AlignItems,
        editable_ids(WidgetKind::PickList).len() == 13,
        editable_ids(WidgetKind::PickList)[0] == PropertyId::Action,
        editable_ids(WidgetKind::PickList)[1] == PropertyId::Options,
        editable_ids(WidgetKind::PickList)[2] == PropertyId::Value,
        editable_ids(WidgetKind::PickList)[3] == PropertyId::Placeholder,
        editable_ids(WidgetKind::PickList)[4] == PropertyId::Width,
        editable_ids(WidgetKind::PickList)[5] == PropertyId::Padding,
        editable_ids(WidgetKind::PickList)[6] == PropertyId::MenuHeight,
        editable_ids(WidgetKind::PickList)[7] == PropertyId::TextLineHeight,
        editable_ids(WidgetKind::PickList)[8] == PropertyId::FontFamily,
        editable_ids(WidgetKind::PickList)[9] == PropertyId::TextSize,
        editable_ids(WidgetKind::PickList)[10] == PropertyId::FontWeight,
        editable_ids(WidgetKind::PickList)[11] == PropertyId::FontStyle,
        editable_ids(WidgetKind::PickList)[12] == PropertyId::ShowHandle,
        editable_ids(WidgetKind::Pin).len() == 2,
        editable_ids(WidgetKind::Pin)[0] == PropertyId::PinX,
        editable_ids(WidgetKind::Pin)[1] == PropertyId::PinY,
        editable_ids(WidgetKind::ProgressBar).len() == 11,
        editable_ids(WidgetKind::ProgressBar)[0] == PropertyId::ValF32,
        editable_ids(WidgetKind::ProgressBar)[1] == PropertyId::Min,
        editable_ids(WidgetKind::ProgressBar)[2] == PropertyId::Max,
        editable_ids(WidgetKind::ProgressBar)[3] == PropertyId::Length,
        editable_ids(WidgetKind::ProgressBar)[4] == PropertyId::Girth,
        editable_ids(WidgetKind::ProgressBar)[5] == PropertyId::IsVertical,
        editable_ids(WidgetKind::ProgressBar)[6] == PropertyId::BgColor,
        editable_ids(WidgetKind::ProgressBar)[7] == PropertyId::BarColor,
        editable_ids(WidgetKind::ProgressBar)[8] == PropertyId::BorderWidth,
        editable_ids(WidgetKind::ProgressBar)[9] == PropertyId::BorderColor,
        editable_ids(WidgetKind::ProgressBar)[10] == PropertyId::BorderRadius,
        editable_ids(WidgetKind::Space).len() == 2,
        editable_ids(WidgetKind::Space)[0] == PropertyId::Width,
        editable_ids(WidgetKind::Space)[1] == PropertyId::Height,
        editable_ids(WidgetKind::Stack).len() == 3,
        editable_ids(WidgetKind::Stack)[0] == PropertyId::Width,
        editable_ids(WidgetKind::Stack)[1] == PropertyId::Height,
        editable_ids(WidgetKind::Stack)[2] == PropertyId::Clip,
        editable_ids(WidgetKind::Svg).len() == 7,
        editable_ids(WidgetKind::Svg)[0] == PropertyId::Path,
        editable_ids(WidgetKind::Svg)[1] == PropertyId::Width,
        editable_ids(WidgetKind::Svg)[2] == PropertyId::Height,
        editable_ids(WidgetKind::Svg)[3] == PropertyId::ContentFit,
        editable_ids(WidgetKind::Svg)[4] == PropertyId::Color,
        editable_ids(WidgetKind::Svg)[5] == PropertyId::Opacity,
        editable_ids(WidgetKind::Svg)[6] == PropertyId::Rotation,
        editable_ids(WidgetKind::Text).len() == 13,
        editable_ids(WidgetKind::Text)[0] == PropertyId::Text,
        editable_ids(WidgetKind::Text)[1] == PropertyId::Width,
        editable_ids(WidgetKind::Text)[2] == PropertyId::Height,
        editable_ids(WidgetKind::Text)[3] == PropertyId::AlignX,
        editable_ids(WidgetKind::Text)[4] == PropertyId::AlignY,
        editable_ids(WidgetKind::Text)[5] == PropertyId::FontFamily,
        editable_ids(WidgetKind::Text)[6] == PropertyId::TextSize,
        editable_ids(WidgetKind::Text)[7] == PropertyId::FontWeight,
        editable_ids(WidgetKind::Text)[8] == PropertyId::FontStyle,
        editable_ids(WidgetKind::Text)[9] == PropertyId::LineHeight,
        editable_ids(WidgetKind::Text)[10] == PropertyId::Wrapping,
        editable_ids(WidgetKind::Text)[11] == PropertyId::Shaping,
        editable_ids(WidgetKind::Text)[12] == PropertyId::TextColor,
        editable_ids(WidgetKind::Toggler).len() == 13,
        editable_ids(WidgetKind::Toggler)[0] == PropertyId::IsChecked,
        editable_ids(WidgetKind::Toggler)[1] == PropertyId::Label,
        editable_ids(WidgetKind::Toggler)[2] == PropertyId::FlagSize,
        editable_ids(WidgetKind::Toggler)[3] == PropertyId::Width,
        editable_ids(WidgetKind::Toggler)[4] == PropertyId::Spacing,
        editable_ids(WidgetKind::Toggler)[5] == PropertyId::FontFamily,
        editable_ids(WidgetKind::Toggler)[6] == PropertyId::TextSize,
        editable_ids(WidgetKind::Toggler)[7] == PropertyId::FontWeight,
        editable_ids(WidgetKind::Toggler)[8] == PropertyId::FontStyle,
        editable_ids(WidgetKind::Toggler)[9] == PropertyId::ActiveColor,
        editable_ids(WidgetKind::Toggler)[10] == PropertyId::BgColor,
        editable_ids(WidgetKind::Toggler)[11] == PropertyId::FgColor,
        editable_ids(WidgetKind::Toggler)[12] == PropertyId::TextColor,
        editable_ids(WidgetKind::Dummy).len() == 0,
{
}

} // verus!
