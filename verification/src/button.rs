//! Buttons and the layers they form.

use vstd::prelude::*;
use input_linux::Key;

verus! {

/// The display width, in pixels, from which a panel is a wide one. A wide
/// panel has room for an escape key in front of the configured buttons.
pub const WIDE_PANEL_WIDTH: u16 = 2170;

/// The code of the escape key among the kernel's input event codes.
pub const KEY_ESC: u16 = 1;

/// `input_linux::Key::code`, called on `Key::Esc`: the raw event code of the
/// escape key, which the crate defines as the kernel's `KEY_ESC`.
#[verifier::external_body]
fn escape_key_code() -> (code: u16)
    ensures
        code == KEY_ESC,
{
    Key::Esc.code()
}

/// One button of a layer, as a configuration file describes it. What the
/// button shows is an icon, a text, the time or the battery's state; the
/// renderer settles which where several are given.
pub struct ButtonConfig {
    pub icon: Option<String>,
    pub text: Option<String>,
    pub theme: Option<String>,
    pub time: Option<String>,
    pub battery: Option<String>,
    pub locale: Option<String>,
    /// The input event code of the key that the button stands for.
    pub action: u16,
    pub stretch: Option<usize>,
}

/// What a `ButtonConfig` holds, with each string as its characters.
pub struct ButtonView {
    pub icon: Option<Seq<char>>,
    pub text: Option<Seq<char>>,
    pub theme: Option<Seq<char>>,
    pub time: Option<Seq<char>>,
    pub battery: Option<Seq<char>>,
    pub locale: Option<Seq<char>>,
    pub action: u16,
    pub stretch: Option<usize>,
}

/// The characters of a string that may be absent.
pub open spec fn chars_of(s: Option<String>) -> Option<Seq<char>> {
    match s {
        Some(s) => Some(s@),
        None => None,
    }
}

impl View for ButtonConfig {
    type V = ButtonView;

    open spec fn view(&self) -> ButtonView {
        ButtonView {
            icon: chars_of(self.icon),
            text: chars_of(self.text),
            theme: chars_of(self.theme),
            time: chars_of(self.time),
            battery: chars_of(self.battery),
            locale: chars_of(self.locale),
            action: self.action,
            stretch: self.stretch,
        }
    }
}

/// The views of a row of buttons, in their order.
pub open spec fn views(buttons: Seq<ButtonConfig>) -> Seq<ButtonView> {
    buttons.map_values(|button: ButtonConfig| button@)
}

/// The escape key of a wide panel: the text `esc`, the escape key's code, and
/// nothing else.
pub open spec fn escape_button() -> ButtonView {
    ButtonView {
        icon: None,
        text: Some("esc"@),
        theme: None,
        time: None,
        battery: None,
        locale: None,
        action: KEY_ESC,
        stretch: None,
    }
}

/// The buttons of a layer on a panel of the given width: the configured
/// ones, behind an escape key where the panel is wide.
pub open spec fn layout(keys: Seq<ButtonView>, width: u16) -> Seq<ButtonView> {
    if width >= WIDE_PANEL_WIDTH {
        seq![escape_button()] + keys
    } else {
        keys
    }
}

/// One row of buttons, from left to right.
pub struct FunctionLayer {
    pub buttons: Vec<ButtonConfig>,
}

impl View for FunctionLayer {
    type V = Seq<ButtonView>;

    open spec fn view(&self) -> Seq<ButtonView> {
        views(self.buttons@)
    }
}

impl FunctionLayer {
    /// The layer of exactly the given buttons.
    pub fn with_config(cfg: Vec<ButtonConfig>) -> (layer: FunctionLayer)
        ensures
            layer.buttons == cfg,
    {
        FunctionLayer { buttons: cfg }
    }

    /// The layer that a panel of the given width shows for the configured
    /// buttons.
    pub fn build(keys: Vec<ButtonConfig>, width: u16) -> (layer: FunctionLayer)
        ensures
            layer@ == layout(views(keys@), width),
    {
        let mut keys = keys;
        if width >= WIDE_PANEL_WIDTH {
            let escape = ButtonConfig {
                icon: None,
                text: Some("esc".to_owned()),
                theme: None,
                action: escape_key_code(),
                stretch: None,
                time: None,
                locale: None,
                battery: None,
            };
            proof {
                assert(views(keys@.insert(0, escape)) =~= seq![escape_button()] + views(keys@));
            }
            keys.insert(0, escape);
        }
        FunctionLayer::with_config(keys)
    }
}

/// The two layers in the order in which the panel holds them: the layer
/// shown first stands first.
pub open spec fn layer_order(
    primary: FunctionLayer,
    media: FunctionLayer,
    media_layer_default: bool,
) -> Seq<FunctionLayer> {
    if media_layer_default {
        seq![media, primary]
    } else {
        seq![primary, media]
    }
}

/// Puts the two layers in the order in which the panel holds them.
pub fn order_layers(
    primary: FunctionLayer,
    media: FunctionLayer,
    media_layer_default: bool,
) -> (layers: [FunctionLayer; 2])
    ensures
        layers@ == layer_order(primary, media, media_layer_default),
{
    let layers = if media_layer_default {
        [media, primary]
    } else {
        [primary, media]
    };
    assert(layers@ =~= layer_order(primary, media, media_layer_default));
    layers
}

/// Whether a row of buttons begins with the escape key of wide panels.
pub open spec fn begins_with_escape(buttons: Seq<ButtonView>) -> bool {
    buttons.len() > 0 && buttons.first() == escape_button()
}

/// A panel of 2170 pixels or more shows the escape key in front of the
/// configured buttons, which follow unchanged. A narrower panel shows the
/// configured buttons alone, so its layer begins with the escape key only
/// where the configuration itself puts one there.
pub proof fn escape_key_heads_wide_panels_only(keys: Seq<ButtonView>, width: u16)
    ensures
        width >= 2170 ==> begins_with_escape(layout(keys, width)) && layout(
            keys,
            width,
        ).drop_first() == keys,
        width <= 2169 ==> layout(keys, width) == keys,
        width <= 2169 && !begins_with_escape(keys) ==> !begins_with_escape(layout(keys, width)),
{
    if width >= 2170 {
        assert(layout(keys, width).drop_first() =~= keys);
    }
}

} // verus!
