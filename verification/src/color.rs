//! Colours of the panel: the built-in themes, the overrides a configuration
//! may lay over them, and the colours each button ends up with.
//!
//! A colour is a triple of red, green and blue intensities. Each intensity is
//! carried as the IEEE 754 bit pattern of a double (`f64::to_bits`), so that a
//! value read from a configuration file reaches the renderer bit for bit.

use vstd::prelude::*;
use vstd::hash_map::StringHashMap;

verus! {

/// Red, green and blue, each the bit pattern of a double.
pub type Rgb = [u64; 3];

/// The five colours a button is drawn with, in the order background while
/// idle, background while pressed, icon, icon while pressed, label.
pub type ButtonColors = (Rgb, Rgb, Rgb, Rgb, Rgb);

/// Bit pattern of 0.0.
pub const LEVEL_0: u64 = 0x0000_0000_0000_0000;

/// Bit pattern of 0.1.
pub const LEVEL_10: u64 = 0x3FB9_9999_9999_999A;

/// Bit pattern of 0.15.
pub const LEVEL_15: u64 = 0x3FC3_3333_3333_3333;

/// Bit pattern of 0.2.
pub const LEVEL_20: u64 = 0x3FC9_9999_9999_999A;

/// Bit pattern of 0.35.
pub const LEVEL_35: u64 = 0x3FD6_6666_6666_6666;

/// Bit pattern of 0.4.
pub const LEVEL_40: u64 = 0x3FD9_9999_9999_999A;

/// Bit pattern of 0.6.
pub const LEVEL_60: u64 = 0x3FE3_3333_3333_3333;

/// Bit pattern of 0.7.
pub const LEVEL_70: u64 = 0x3FE6_6666_6666_6666;

/// Bit pattern of 0.8.
pub const LEVEL_80: u64 = 0x3FE9_9999_9999_999A;

/// Bit pattern of 0.9.
pub const LEVEL_90: u64 = 0x3FEC_CCCC_CCCC_CCCD;

/// Bit pattern of 1.0.
pub const LEVEL_100: u64 = 0x3FF0_0000_0000_0000;

/// The value that wins where an override may or may not be present.
pub open spec fn overlay<T>(over: Option<T>, under: T) -> T {
    match over {
        Some(value) => value,
        None => under,
    }
}

/// What `str::to_lowercase` returns for a string with the given characters:
/// its lowercase equivalent by the Unicode case mappings.
pub uninterp spec fn lowercase(s: Seq<char>) -> Seq<char>;

/// `str::to_lowercase` depends on the characters of its argument alone, so its
/// result is named by `lowercase`; nothing more is claimed of it.
pub assume_specification[ str::to_lowercase ](s: &str) -> (lower: String)
    ensures
        lower@ == lowercase(s@),
;

/// A built-in palette.
#[derive(Clone, Copy, Debug, PartialEq, Eq, Structural)]
pub enum Theme {
    /// Dark buttons with white icons and labels: the palette of every name
    /// that is not one of the other three.
    Dark,
    Light,
    Colorful,
    Minimal,
}

impl Theme {
    /// The theme that a name, already in lower case, stands for.
    pub open spec fn named(name: Seq<char>) -> Theme {
        if name == "light"@ {
            Theme::Light
        } else if name == "colorful"@ {
            Theme::Colorful
        } else if name == "minimal"@ {
            Theme::Minimal
        } else {
            Theme::Dark
        }
    }

    /// The colours of the theme, with no button singled out.
    pub open spec fn colors(self) -> ColorConfig {
        match self {
            Theme::Dark => ColorConfig {
                button_background_inactive: [LEVEL_20, LEVEL_20, LEVEL_20],
                button_background_active: [LEVEL_40, LEVEL_40, LEVEL_40],
                icon_color: [LEVEL_100, LEVEL_100, LEVEL_100],
                icon_color_active: [LEVEL_100, LEVEL_100, LEVEL_100],
                text_color: [LEVEL_100, LEVEL_100, LEVEL_100],
                button_overrides: None,
            },
            Theme::Light => ColorConfig {
                button_background_inactive: [LEVEL_90, LEVEL_90, LEVEL_90],
                button_background_active: [LEVEL_70, LEVEL_70, LEVEL_70],
                icon_color: [LEVEL_10, LEVEL_10, LEVEL_10],
                icon_color_active: [LEVEL_0, LEVEL_0, LEVEL_0],
                text_color: [LEVEL_10, LEVEL_10, LEVEL_10],
                button_overrides: None,
            },
            Theme::Colorful => ColorConfig {
                button_background_inactive: [LEVEL_15, LEVEL_15, LEVEL_15],
                button_background_active: [LEVEL_35, LEVEL_35, LEVEL_35],
                icon_color: [LEVEL_100, LEVEL_80, LEVEL_60],
                icon_color_active: [LEVEL_100, LEVEL_100, LEVEL_80],
                text_color: [LEVEL_100, LEVEL_100, LEVEL_100],
                button_overrides: None,
            },
            Theme::Minimal => ColorConfig {
                button_background_inactive: [LEVEL_10, LEVEL_10, LEVEL_10],
                button_background_active: [LEVEL_20, LEVEL_20, LEVEL_20],
                icon_color: [LEVEL_90, LEVEL_90, LEVEL_90],
                icon_color_active: [LEVEL_100, LEVEL_100, LEVEL_100],
                text_color: [LEVEL_90, LEVEL_90, LEVEL_90],
                button_overrides: None,
            },
        }
    }

    /// Looks a theme up by its name. The name is compared as it stands: only
    /// `light`, `colorful` and `minimal`, written so, name a theme of their
    /// own, and every other string names the dark one.
    pub fn from_name(name: &str) -> (theme: Theme)
        ensures
            theme == Theme::named(name@),
    {
        let name = name.to_owned();
        if name == "light".to_owned() {
            Theme::Light
        } else if name == "colorful".to_owned() {
            Theme::Colorful
        } else if name == "minimal".to_owned() {
            Theme::Minimal
        } else {
            Theme::Dark
        }
    }

    /// Builds the colours of the theme.
    pub fn palette(self) -> (colors: ColorConfig)
        ensures
            colors == self.colors(),
    {
        match self {
            Theme::Dark => ColorConfig {
                button_background_inactive: [LEVEL_20, LEVEL_20, LEVEL_20],
                button_background_active: [LEVEL_40, LEVEL_40, LEVEL_40],
                icon_color: [LEVEL_100, LEVEL_100, LEVEL_100],
                icon_color_active: [LEVEL_100, LEVEL_100, LEVEL_100],
                text_color: [LEVEL_100, LEVEL_100, LEVEL_100],
                button_overrides: None,
            },
            Theme::Light => ColorConfig {
                button_background_inactive: [LEVEL_90, LEVEL_90, LEVEL_90],
                button_background_active: [LEVEL_70, LEVEL_70, LEVEL_70],
                icon_color: [LEVEL_10, LEVEL_10, LEVEL_10],
                icon_color_active: [LEVEL_0, LEVEL_0, LEVEL_0],
                text_color: [LEVEL_10, LEVEL_10, LEVEL_10],
                button_overrides: None,
            },
            Theme::Colorful => ColorConfig {
                button_background_inactive: [LEVEL_15, LEVEL_15, LEVEL_15],
                button_background_active: [LEVEL_35, LEVEL_35, LEVEL_35],
                icon_color: [LEVEL_100, LEVEL_80, LEVEL_60],
                icon_color_active: [LEVEL_100, LEVEL_100, LEVEL_80],
                text_color: [LEVEL_100, LEVEL_100, LEVEL_100],
                button_overrides: None,
            },
            Theme::Minimal => ColorConfig {
                button_background_inactive: [LEVEL_10, LEVEL_10, LEVEL_10],
                button_background_active: [LEVEL_20, LEVEL_20, LEVEL_20],
                icon_color: [LEVEL_90, LEVEL_90, LEVEL_90],
                icon_color_active: [LEVEL_100, LEVEL_100, LEVEL_100],
                text_color: [LEVEL_90, LEVEL_90, LEVEL_90],
                button_overrides: None,
            },
        }
    }
}

/// Colours for one button, laid over those of the palette. A colour that is
/// absent leaves the palette's colour in place.
#[derive(Clone, Copy, Debug)]
pub struct ButtonColorOverride {
    pub button_background_inactive: Option<Rgb>,
    pub button_background_active: Option<Rgb>,
    pub icon_color: Option<Rgb>,
    pub icon_color_active: Option<Rgb>,
    pub text_color: Option<Rgb>,
}

impl ButtonColorOverride {
    /// The colours of a button once this override is laid over `under`.
    pub open spec fn over(self, under: ButtonColors) -> ButtonColors {
        (
            overlay(self.button_background_inactive, under.0),
            overlay(self.button_background_active, under.1),
            overlay(self.icon_color, under.2),
            overlay(self.icon_color_active, under.3),
            overlay(self.text_color, under.4),
        )
    }
}

/// The colours in force: a palette with every colour set, and the overrides
/// of single buttons, keyed by the text the button shows.
pub struct ColorConfig {
    pub button_background_inactive: Rgb,
    pub button_background_active: Rgb,
    pub icon_color: Rgb,
    pub icon_color_active: Rgb,
    pub text_color: Rgb,
    pub button_overrides: Option<StringHashMap<ButtonColorOverride>>,
}

impl Default for ColorConfig {
    /// The dark theme.
    fn default() -> (colors: Self)
        ensures
            colors == Theme::Dark.colors(),
    {
        Theme::Dark.palette()
    }
}

impl ColorConfig {
    /// The five colours of the palette, as a button without an override has
    /// them.
    pub open spec fn base_colors(self) -> ButtonColors {
        (
            self.button_background_inactive,
            self.button_background_active,
            self.icon_color,
            self.icon_color_active,
            self.text_color,
        )
    }

    /// The override recorded for the button that shows `button_text`.
    pub open spec fn override_of(self, button_text: Seq<char>) -> Option<ButtonColorOverride> {
        match self.button_overrides {
            Some(overrides) => if overrides@.contains_key(button_text) {
                Some(overrides@[button_text])
            } else {
                None
            },
            None => None,
        }
    }

    /// The colours of the button that shows `button_text`: those of the
    /// palette, but for the ones that the button's override sets.
    pub open spec fn button_colors(self, button_text: Seq<char>) -> ButtonColors {
        match self.override_of(button_text) {
            Some(custom) => custom.over(self.base_colors()),
            None => self.base_colors(),
        }
    }

    /// The palette of the theme that `theme` names, whatever the case of its
    /// letters. A name that is none of `light`, `colorful` and `minimal`
    /// gives the dark palette.
    pub fn from_theme(theme: &str) -> (colors: Self)
        ensures
            colors == Theme::named(lowercase(theme@)).colors(),
    {
        let lower = theme.to_lowercase();
        Theme::from_name(lower.as_str()).palette()
    }

    /// The colours to draw the button that shows `button_text` with.
    pub fn get_button_colors(&self, button_text: &str) -> (colors: ButtonColors)
        ensures
            colors == self.button_colors(button_text@),
    {
        let mut bg_inactive = self.button_background_inactive;
        let mut bg_active = self.button_background_active;
        let mut icon_color = self.icon_color;
        let mut icon_color_active = self.icon_color_active;
        let mut text_color = self.text_color;

        if let Some(ref overrides) = self.button_overrides {
            if let Some(custom) = overrides.get(button_text) {
                if let Some(inactive) = custom.button_background_inactive {
                    bg_inactive = inactive;
                }
                if let Some(active) = custom.button_background_active {
                    bg_active = active;
                }
                if let Some(icon) = custom.icon_color {
                    icon_color = icon;
                }
                if let Some(icon_active) = custom.icon_color_active {
                    icon_color_active = icon_active;
                }
                if let Some(text) = custom.text_color {
                    text_color = text;
                }
            }
        }

        (bg_inactive, bg_active, icon_color, icon_color_active, text_color)
    }
}

/// The mapping that a list of entries stands for. Where two entries name the
/// same button, the later one counts.
pub open spec fn entries_map(entries: Seq<(String, ButtonColorOverride)>) -> Map<
    Seq<char>,
    ButtonColorOverride,
>
    decreases entries.len(),
{
    if entries.len() == 0 {
        Map::empty()
    } else {
        entries_map(entries.drop_last()).insert(entries.last().0@, entries.last().1)
    }
}

/// Collects the overrides of single buttons, each given with the text of
/// its button, into the mapping that `ColorConfig` and `ColorConfigProxy`
/// hold.
pub fn button_overrides(entries: &Vec<(String, ButtonColorOverride)>) -> (overrides: StringHashMap<
    ButtonColorOverride,
>)
    ensures
        overrides@ == entries_map(entries@),
{
    let mut overrides: StringHashMap<ButtonColorOverride> = StringHashMap::new();
    let mut i: usize = 0;
    while i < entries.len()
        invariant
            i <= entries.len(),
            overrides@ == entries_map(entries@.take(i as int)),
        decreases entries.len() - i,
    {
        let button_text = entries[i].0.clone();
        overrides.insert(button_text, entries[i].1);
        proof {
            assert(entries@.take(i + 1).drop_last() == entries@.take(i as int));
        }
        i += 1;
    }
    proof {
        assert(entries@.take(i as int) == entries@);
    }
    overrides
}

/// The colour section of a configuration file: the name of a theme, colours
/// that replace those of the theme, and overrides for single buttons. Every
/// entry may be absent.
pub struct ColorConfigProxy {
    pub theme: Option<String>,
    pub button_background_inactive: Option<Rgb>,
    pub button_background_active: Option<Rgb>,
    pub icon_color: Option<Rgb>,
    pub icon_color_active: Option<Rgb>,
    pub text_color: Option<Rgb>,
    pub button_overrides: Option<StringHashMap<ButtonColorOverride>>,
}

impl Default for ColorConfigProxy {
    /// The section that sets nothing.
    fn default() -> (section: Self)
        ensures
            section == ColorConfigProxy::unset(),
    {
        ColorConfigProxy {
            theme: None,
            button_background_inactive: None,
            button_background_active: None,
            icon_color: None,
            icon_color_active: None,
            text_color: None,
            button_overrides: None,
        }
    }
}

impl ColorConfigProxy {
    /// The section that sets nothing.
    pub open spec fn unset() -> ColorConfigProxy {
        ColorConfigProxy {
            theme: None,
            button_background_inactive: None,
            button_background_active: None,
            icon_color: None,
            icon_color_active: None,
            text_color: None,
            button_overrides: None,
        }
    }

    /// The theme the section asks for: the one its name stands for once in
    /// lower case, the dark one where it names none.
    pub open spec fn chosen_theme(self) -> Theme {
        match self.theme {
            Some(name) => Theme::named(lowercase(name@)),
            None => Theme::Dark,
        }
    }

    /// The colours the section resolves to: the palette of its theme, each
    /// colour replaced where the section sets it, and the overrides of single
    /// buttons as they stand.
    pub open spec fn resolved(self) -> ColorConfig {
        let palette = self.chosen_theme().colors();
        ColorConfig {
            button_background_inactive: overlay(
                self.button_background_inactive,
                palette.button_background_inactive,
            ),
            button_background_active: overlay(
                self.button_background_active,
                palette.button_background_active,
            ),
            icon_color: overlay(self.icon_color, palette.icon_color),
            icon_color_active: overlay(self.icon_color_active, palette.icon_color_active),
            text_color: overlay(self.text_color, palette.text_color),
            button_overrides: self.button_overrides,
        }
    }

    /// Resolves the section to the colours in force.
    pub fn to_color_config(self) -> (colors: ColorConfig)
        ensures
            colors == self.resolved(),
    {
        let mut colors = match &self.theme {
            Some(theme) => ColorConfig::from_theme(theme.as_str()),
            None => ColorConfig::default(),
        };

        if let Some(inactive) = self.button_background_inactive {
            colors.button_background_inactive = inactive;
        }
        if let Some(active) = self.button_background_active {
            colors.button_background_active = active;
        }
        if let Some(icon_color) = self.icon_color {
            colors.icon_color = icon_color;
        }
        if let Some(icon_color_active) = self.icon_color_active {
            colors.icon_color_active = icon_color_active;
        }
        if let Some(text_color) = self.text_color {
            colors.text_color = text_color;
        }
        if self.button_overrides.is_some() {
            colors.button_overrides = self.button_overrides;
        }

        colors
    }
}

/// The lookup of a theme heeds no case: two names with the same lowercase
/// form give the same palette.
pub proof fn theme_lookup_ignores_case(first: Seq<char>, second: Seq<char>)
    requires
        lowercase(first) == lowercase(second),
    ensures
        Theme::named(lowercase(first)).colors() == Theme::named(lowercase(second)).colors(),
{
}

/// The lookup of a theme never fails: every name gives the palette of
/// exactly one of the four themes, since no two themes share a palette.
pub proof fn theme_lookup_is_total(name: Seq<char>)
    ensures
        ({
            let colors = Theme::named(lowercase(name)).colors();
            let theme = Theme::named(lowercase(name));
            forall|other: Theme| (colors == other.colors()) <==> other == theme
        }),
{
    assert(Theme::Dark.colors().button_background_inactive[0] == LEVEL_20);
    assert(Theme::Light.colors().button_background_inactive[0] == LEVEL_90);
    assert(Theme::Colorful.colors().button_background_inactive[0] == LEVEL_15);
    assert(Theme::Minimal.colors().button_background_inactive[0] == LEVEL_10);
}

/// Asking for the colours of a button twice gives the same colours: they
/// depend on the palette, the overrides and the button's text alone. And an
/// override laid over its own result changes nothing more.
pub proof fn button_colors_are_repeatable(
    colors: ColorConfig,
    first: Seq<char>,
    second: Seq<char>,
    custom: ButtonColorOverride,
)
    requires
        first == second,
    ensures
        colors.button_colors(first) == colors.button_colors(second),
        custom.over(custom.over(colors.base_colors())) == custom.over(colors.base_colors()),
{
}

} // verus!
