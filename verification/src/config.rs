//! The configuration of the panel: the layers of a configuration as files
//! give them, how the user's layer is laid over the packaged one, and the
//! snapshot that the two resolve to.

use vstd::prelude::*;
use crate::button::{
    begins_with_escape, escape_key_heads_wide_panels_only, layout, order_layers, views,
    ButtonConfig, ButtonView, FunctionLayer,
};
use crate::color::{ColorConfig, ColorConfigProxy};

verus! {

/// One layer of configuration, as a file gives it. Every entry may be absent.
pub struct ConfigProxy {
    pub media_layer_default: Option<bool>,
    pub show_button_outlines: Option<bool>,
    pub enable_pixel_shift: Option<bool>,
    pub font_template: Option<String>,
    pub adaptive_brightness: Option<bool>,
    pub active_brightness: Option<u32>,
    pub primary_layer_keys: Option<Vec<ButtonConfig>>,
    pub media_layer_keys: Option<Vec<ButtonConfig>>,
    pub colors: Option<ColorConfigProxy>,
}

/// Why the user's file gave no layer.
#[derive(Clone, Copy, Debug, PartialEq, Eq, Structural)]
pub enum SourceError {
    /// There is no such file.
    Missing,
    /// The file is there and could not be read.
    Unreadable,
    /// The file was read and is no configuration.
    Malformed,
}

/// The resolved configuration that the panel runs on. `F` is the handle of
/// the loaded font.
pub struct Config<F> {
    pub show_button_outlines: bool,
    pub enable_pixel_shift: bool,
    pub font_face: F,
    pub adaptive_brightness: bool,
    pub active_brightness: u32,
    pub colors: ColorConfig,
}

/// The entry in force where the user's layer lies over the packaged one: the
/// user's where there is one, else the packaged one.
pub open spec fn coalesce<T>(user: Option<T>, base: Option<T>) -> Option<T> {
    match user {
        Some(_) => user,
        None => base,
    }
}

/// Picks the user's entry where there is one, else the packaged one.
pub fn or<T>(user: Option<T>, base: Option<T>) -> (entry: Option<T>)
    ensures
        entry == coalesce(user, base),
{
    match user {
        Some(value) => Some(value),
        None => base,
    }
}

/// The views of the two layers of a pair, in their order.
pub open spec fn layer_views(layers: Seq<FunctionLayer>) -> Seq<Seq<ButtonView>> {
    layers.map_values(|layer: FunctionLayer| layer@)
}

impl ConfigProxy {
    /// This layer with `user` laid over it, entry by entry. The two lists
    /// of buttons and the colour section count as one entry each.
    pub open spec fn overlaid(self, user: ConfigProxy) -> ConfigProxy {
        ConfigProxy {
            media_layer_default: coalesce(user.media_layer_default, self.media_layer_default),
            show_button_outlines: coalesce(user.show_button_outlines, self.show_button_outlines),
            enable_pixel_shift: coalesce(user.enable_pixel_shift, self.enable_pixel_shift),
            font_template: coalesce(user.font_template, self.font_template),
            adaptive_brightness: coalesce(user.adaptive_brightness, self.adaptive_brightness),
            active_brightness: coalesce(user.active_brightness, self.active_brightness),
            primary_layer_keys: coalesce(user.primary_layer_keys, self.primary_layer_keys),
            media_layer_keys: coalesce(user.media_layer_keys, self.media_layer_keys),
            colors: coalesce(user.colors, self.colors),
        }
    }

    /// This layer under what the user's file gave: overlaid with the user's
    /// layer where the file gave one, and as it stands where it gave none,
    /// whatever the reason.
    pub open spec fn merged(self, user: Result<ConfigProxy, SourceError>) -> ConfigProxy {
        match user {
            Ok(user) => self.overlaid(user),
            Err(_) => self,
        }
    }

    /// Whether the layer has every entry that a snapshot is made of. The
    /// colour section is none of them: without one the dark theme holds.
    pub open spec fn is_complete(self) -> bool {
        &&& self.media_layer_default is Some
        &&& self.show_button_outlines is Some
        &&& self.enable_pixel_shift is Some
        &&& self.font_template is Some
        &&& self.adaptive_brightness is Some
        &&& self.active_brightness is Some
        &&& self.primary_layer_keys is Some
        &&& self.media_layer_keys is Some
    }

    /// The colour section of the layer, or the one that sets nothing.
    pub open spec fn color_section(self) -> ColorConfigProxy {
        match self.colors {
            Some(section) => section,
            None => ColorConfigProxy::unset(),
        }
    }

    /// The snapshot that a complete layer resolves to, around the font that
    /// was loaded for it.
    pub open spec fn config<F>(self, font_face: F) -> Config<F> {
        Config {
            show_button_outlines: self.show_button_outlines.unwrap(),
            enable_pixel_shift: self.enable_pixel_shift.unwrap(),
            font_face,
            adaptive_brightness: self.adaptive_brightness.unwrap(),
            active_brightness: self.active_brightness.unwrap(),
            colors: self.color_section().resolved(),
        }
    }

    /// The buttons of the primary layer on a panel of the given width.
    pub open spec fn primary_layer(self, width: u16) -> Seq<ButtonView> {
        layout(views(self.primary_layer_keys.unwrap()@), width)
    }

    /// The buttons of the media layer on a panel of the given width.
    pub open spec fn media_layer(self, width: u16) -> Seq<ButtonView> {
        layout(views(self.media_layer_keys.unwrap()@), width)
    }

    /// The two layers that a complete layer of configuration gives on a
    /// panel of the given width, the one shown first in front.
    pub open spec fn layers(self, width: u16) -> Seq<Seq<ButtonView>> {
        if self.media_layer_default.unwrap() {
            seq![self.media_layer(width), self.primary_layer(width)]
        } else {
            seq![self.primary_layer(width), self.media_layer(width)]
        }
    }

    /// Tells whether the layer has every entry that a snapshot is made of.
    pub fn complete(&self) -> (complete: bool)
        ensures
            complete == self.is_complete(),
    {
        self.media_layer_default.is_some() && self.show_button_outlines.is_some()
            && self.enable_pixel_shift.is_some() && self.font_template.is_some()
            && self.adaptive_brightness.is_some() && self.active_brightness.is_some()
            && self.primary_layer_keys.is_some() && self.media_layer_keys.is_some()
    }
}

/// Lays what the user's file gave over the packaged layer. A user's file
/// that gave no layer, for whatever reason, leaves the packaged layer as it
/// is.
pub fn merge_config(base: ConfigProxy, user: Result<ConfigProxy, SourceError>) -> (merged:
    ConfigProxy)
    ensures
        merged == base.merged(user),
{
    match user {
        Ok(user) => ConfigProxy {
            media_layer_default: or(user.media_layer_default, base.media_layer_default),
            show_button_outlines: or(user.show_button_outlines, base.show_button_outlines),
            enable_pixel_shift: or(user.enable_pixel_shift, base.enable_pixel_shift),
            font_template: or(user.font_template, base.font_template),
            adaptive_brightness: or(user.adaptive_brightness, base.adaptive_brightness),
            active_brightness: or(user.active_brightness, base.active_brightness),
            primary_layer_keys: or(user.primary_layer_keys, base.primary_layer_keys),
            media_layer_keys: or(user.media_layer_keys, base.media_layer_keys),
            colors: or(user.colors, base.colors),
        },
        Err(_) => base,
    }
}

/// Resolves a merged, complete layer of configuration to the snapshot for a
/// panel of the given width, around the font that was loaded for the layer's
/// `font_template`.
pub fn load_config<F>(merged: ConfigProxy, width: u16, font_face: F) -> (loaded: (
    Config<F>,
    [FunctionLayer; 2],
))
    requires
        merged.is_complete(),
    ensures
        loaded.0 == merged.config(font_face),
        layer_views(loaded.1@) == merged.layers(width),
{
    let media_layer = FunctionLayer::build(merged.media_layer_keys.unwrap(), width);
    let fkey_layer = FunctionLayer::build(merged.primary_layer_keys.unwrap(), width);
    let layers = order_layers(fkey_layer, media_layer, merged.media_layer_default.unwrap());
    let section = match merged.colors {
        Some(section) => section,
        None => ColorConfigProxy::default(),
    };
    let cfg = Config {
        show_button_outlines: merged.show_button_outlines.unwrap(),
        enable_pixel_shift: merged.enable_pixel_shift.unwrap(),
        adaptive_brightness: merged.adaptive_brightness.unwrap(),
        font_face,
        active_brightness: merged.active_brightness.unwrap(),
        colors: section.to_color_config(),
    };
    assert(layer_views(layers@) =~= merged.layers(width));
    (cfg, layers)
}

/// Every entry of a merged layer is the user's where the user gave one and
/// the packaged one where not.
pub proof fn merge_goes_entry_by_entry(base: ConfigProxy, user: ConfigProxy)
    ensures
        ({
            let merged = base.merged(Ok(user));
            &&& merged.media_layer_default == coalesce(
                user.media_layer_default,
                base.media_layer_default,
            )
            &&& merged.show_button_outlines == coalesce(
                user.show_button_outlines,
                base.show_button_outlines,
            )
            &&& merged.enable_pixel_shift == coalesce(
                user.enable_pixel_shift,
                base.enable_pixel_shift,
            )
            &&& merged.font_template == coalesce(
                user.font_template,
                base.font_template,
            )
            &&& merged.adaptive_brightness == coalesce(
                user.adaptive_brightness,
                base.adaptive_brightness,
            )
            &&& merged.active_brightness == coalesce(
                user.active_brightness,
                base.active_brightness,
            )
            &&& merged.primary_layer_keys == coalesce(
                user.primary_layer_keys,
                base.primary_layer_keys,
            )
            &&& merged.media_layer_keys == coalesce(
                user.media_layer_keys,
                base.media_layer_keys,
            )
            &&& merged.colors == coalesce(
                user.colors,
                base.colors,
            )
        }),
{
}

/// An entry of a merged layer is settled by the two entries of its name
/// alone: two merges that agree on these agree on the entry, whatever the
/// other entries hold.
pub proof fn merged_entries_are_independent(
    base: ConfigProxy,
    user: ConfigProxy,
    other_base: ConfigProxy,
    other_user: ConfigProxy,
)
    ensures
        ({
            let merged = base.merged(Ok(user));
            let other = other_base.merged(Ok(other_user));
            &&& user.media_layer_default == other_user.media_layer_default
                && base.media_layer_default == other_base.media_layer_default
                ==> merged.media_layer_default == other.media_layer_default
            &&& user.show_button_outlines == other_user.show_button_outlines
                && base.show_button_outlines == other_base.show_button_outlines
                ==> merged.show_button_outlines == other.show_button_outlines
            &&& user.enable_pixel_shift == other_user.enable_pixel_shift
                && base.enable_pixel_shift == other_base.enable_pixel_shift
                ==> merged.enable_pixel_shift == other.enable_pixel_shift
            &&& user.font_template == other_user.font_template
                && base.font_template == other_base.font_template
                ==> merged.font_template == other.font_template
            &&& user.adaptive_brightness == other_user.adaptive_brightness
                && base.adaptive_brightness == other_base.adaptive_brightness
                ==> merged.adaptive_brightness == other.adaptive_brightness
            &&& user.active_brightness == other_user.active_brightness
                && base.active_brightness == other_base.active_brightness
                ==> merged.active_brightness == other.active_brightness
            &&& user.primary_layer_keys == other_user.primary_layer_keys
                && base.primary_layer_keys == other_base.primary_layer_keys
                ==> merged.primary_layer_keys == other.primary_layer_keys
            &&& user.media_layer_keys == other_user.media_layer_keys
                && base.media_layer_keys == other_base.media_layer_keys
                ==> merged.media_layer_keys == other.media_layer_keys
            &&& user.colors == other_user.colors
                && base.colors == other_base.colors
                ==> merged.colors == other.colors
        }),
{
}

/// A user's file that gives no layer counts for nothing, whatever went
/// wrong with it: the packaged layer stands as it is, and the snapshot and
/// the layers are those of the packaged layer alone.
pub proof fn unusable_user_file_counts_for_nothing<F>(
    base: ConfigProxy,
    failure: SourceError,
    width: u16,
    font_face: F,
)
    ensures
        base.merged(Err(failure)) == base,
        base.merged(Err(failure)) == base.merged(Err(SourceError::Missing)),
        base.merged(Err(failure)).config(font_face) == base.merged(
            Err(SourceError::Missing),
        ).config(font_face),
        base.merged(Err(failure)).layers(width) == base.merged(Err(SourceError::Missing)).layers(
            width,
        ),
{
}

/// The layer shown first stands first: the media layer where the
/// configuration says so, else the primary layer.
pub proof fn default_layer_stands_first(merged: ConfigProxy, width: u16)
    requires
        merged.is_complete(),
    ensures
        merged.media_layer_default == Some(true) ==> merged.layers(width) == seq![
            merged.media_layer(width),
            merged.primary_layer(width),
        ],
        merged.media_layer_default == Some(false) ==> merged.layers(width) == seq![
            merged.primary_layer(width),
            merged.media_layer(width),
        ],
{
}

/// On a panel of 2170 pixels or more both layers begin with the escape key.
/// On a narrower one neither does, unless the configuration itself puts such
/// a button in front of a layer.
pub proof fn escape_key_heads_both_layers_of_wide_panels_only(merged: ConfigProxy, width: u16)
    requires
        merged.is_complete(),
    ensures
        merged.layers(width).len() == 2,
        width >= 2170 ==> begins_with_escape(merged.layers(width)[0]) && begins_with_escape(
            merged.layers(width)[1],
        ),
        width <= 2169 && !begins_with_escape(views(merged.primary_layer_keys.unwrap()@))
            && !begins_with_escape(views(merged.media_layer_keys.unwrap()@))
            ==> !begins_with_escape(merged.layers(width)[0]) && !begins_with_escape(
            merged.layers(width)[1],
        ),
{
    escape_key_heads_wide_panels_only(views(merged.primary_layer_keys.unwrap()@), width);
    escape_key_heads_wide_panels_only(views(merged.media_layer_keys.unwrap()@), width);
}

} // verus!
