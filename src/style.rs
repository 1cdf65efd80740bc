use vstd::prelude::*;
use crate::state::Theme;

verus! {

/// The two button looks.
#[derive(Clone, Copy, Debug, PartialEq, Eq, Structural)]
pub enum ButtonStyle {
    /// Filled accent background, rounded corners, drop shadow, white text.
    Standard,
    /// No fill, no border, no shadow; text follows the theme.
    ThemeButton,
}

/// The named colours the styles use.
#[derive(Clone, Copy, Debug, PartialEq, Eq, Structural)]
pub enum Shade {
    /// The blue accent, rgb(0.059, 0.463, 0.702).
    Accent,
    Black,
    White,
    /// Fully transparent black.
    Transparent,
}

/// A drop shadow: colour, offset in logical pixels and blur radius.
#[derive(Clone, Copy, Debug, PartialEq, Eq, Structural)]
pub struct DropShadow {
    pub color: Shade,
    pub offset_x: u16,
    pub offset_y: u16,
    pub blur_radius: u16,
}

/// What a button looks like in its resting state.
#[derive(Clone, Copy, Debug, PartialEq, Eq, Structural)]
pub struct ButtonAppearance {
    pub background: Option<Shade>,
    pub border_radius: u16,
    pub shadow: DropShadow,
    pub text_color: Shade,
}

/// What a container looks like; `None` leaves a colour to the host's default.
#[derive(Clone, Copy, Debug, PartialEq, Eq, Structural)]
pub struct ContainerAppearance {
    pub text_color: Option<Shade>,
    pub background: Option<Shade>,
    pub border_radius: u16,
    pub shadow: DropShadow,
}

/// The container look of the whole composition.
#[derive(Clone, Copy, Debug, PartialEq, Eq, Structural)]
pub struct ContainerStyle;

/// A shadow that draws nothing.
pub open spec fn no_shadow() -> DropShadow {
    DropShadow { color: Shade::Transparent, offset_x: 0, offset_y: 0, blur_radius: 0 }
}

/// The look of a button of `style` under `theme`.
pub open spec fn button_look(style: ButtonStyle, theme: Theme) -> ButtonAppearance {
    match style {
        ButtonStyle::Standard => ButtonAppearance {
            background: Some(Shade::Accent),
            border_radius: 5,
            shadow: DropShadow { color: Shade::Black, offset_x: 0, offset_y: 4, blur_radius: 20 },
            text_color: Shade::White,
        },
        ButtonStyle::ThemeButton => ButtonAppearance {
            background: Some(Shade::Transparent),
            border_radius: 0,
            shadow: no_shadow(),
            text_color: if theme == Theme::Light {
                Shade::Black
            } else {
                Shade::White
            },
        },
    }
}

/// The container look, the same under every theme.
pub open spec fn container_look() -> ContainerAppearance {
    ContainerAppearance {
        text_color: None,
        background: None,
        border_radius: 5,
        shadow: DropShadow { color: Shade::Black, offset_x: 0, offset_y: 2, blur_radius: 40 },
    }
}

impl ButtonStyle {
    /// The resting look of a button of this style under `theme`.
    pub fn active(&self, theme: Theme) -> (r: ButtonAppearance)
        ensures
            r == button_look(*self, theme),
    {
        match self {
            ButtonStyle::Standard => ButtonAppearance {
                background: Some(Shade::Accent),
                border_radius: 5,
                shadow: DropShadow { color: Shade::Black, offset_x: 0, offset_y: 4, blur_radius: 20 },
                text_color: Shade::White,
            },
            ButtonStyle::ThemeButton => ButtonAppearance {
                background: Some(Shade::Transparent),
                border_radius: 0,
                shadow: DropShadow {
                    color: Shade::Transparent,
                    offset_x: 0,
                    offset_y: 0,
                    blur_radius: 0,
                },
                text_color: if theme == Theme::Light {
                    Shade::Black
                } else {
                    Shade::White
                },
            },
        }
    }
}

impl ContainerStyle {
    /// The container look; the theme does not change it.
    pub fn appearance(&self, _theme: Theme) -> (r: ContainerAppearance)
        ensures
            r == container_look(),
    {
        ContainerAppearance {
            text_color: None,
            background: None,
            border_radius: 5,
            shadow: DropShadow { color: Shade::Black, offset_x: 0, offset_y: 2, blur_radius: 40 },
        }
    }
}

} // verus!
