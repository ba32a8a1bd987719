use vstd::prelude::*;

use generational_arena::Index;

use crate::meta::Id;
use crate::theme::{Color, Theme, ThemeColor};

verus! {

/// The part of a widget's state that its logic reads: whether it is shown and hovered.
#[derive(Debug, Clone, Copy, PartialEq, Eq, Structural)]
pub struct WidgetState {
    pub visible: bool,
    pub hovered: bool,
}

impl WidgetState {
    /// A visible, not hovered widget.
    pub fn new() -> (res: Self)
        ensures
            res.visible && !res.hovered,
    {
        WidgetState { visible: true, hovered: false }
    }

    /// Show or hide the widget.
    pub fn set_visible(&mut self, visible: bool)
        ensures
            final(self).visible == visible,
            final(self).hovered == old(self).hovered,
    {
        self.visible = visible;
    }
}

/// A line of text.
pub struct TextWidget {
    pub state: WidgetState,
    pub text: String,
}

impl TextWidget {
    pub fn new(text: &str) -> (res: Self)
        ensures
            res.text@ == text@,
            res.state.visible && !res.state.hovered,
    {
        TextWidget { state: WidgetState::new(), text: String::from_str(text) }
    }
}

/// An icon drawn in a theme color; `X` is its texture.
pub struct IconWidget<X> {
    pub state: WidgetState,
    pub texture: X,
    pub color: ThemeColor,
}

impl<X> IconWidget<X> {
    /// An icon in the light color.
    pub fn new(texture: X) -> (res: Self)
        ensures
            res.texture == texture,
            res.color == ThemeColor::Light,
            res.state.visible && !res.state.hovered,
    {
        IconWidget { state: WidgetState::new(), texture, color: ThemeColor::Light }
    }
}

/// How an icon button shows that it is hovered.
#[derive(Debug, Clone, Copy, PartialEq, Eq, Structural)]
pub enum HighlightMode {
    /// Swap the icon color with the background color.
    SwapColors,
    /// Draw the icon in another color.
    Color(ThemeColor),
}

/// An icon that can be clicked; `X` is its texture.
pub struct IconButtonWidget<X> {
    pub state: WidgetState,
    pub texture: X,
    pub color: ThemeColor,
    pub highlight: HighlightMode,
}

impl<X> IconButtonWidget<X> {
    /// A button in the light color that swaps colors when hovered.
    pub fn new(texture: X) -> (res: Self)
        ensures
            res.texture == texture,
            res.color == ThemeColor::Light,
            res.highlight == HighlightMode::SwapColors,
            res.state.visible && !res.state.hovered,
    {
        IconButtonWidget {
            state: WidgetState::new(),
            texture,
            color: ThemeColor::Light,
            highlight: HighlightMode::SwapColors,
        }
    }

    /// The same button with another highlight mode.
    pub fn highlight(self, mode: HighlightMode) -> (res: Self)
        ensures
            res.highlight == mode,
            res.state == self.state,
            res.texture == self.texture,
            res.color == self.color,
    {
        IconButtonWidget { highlight: mode, ..self }
    }

    /// The color of the icon and, when the button has an outline, the outline color.
    pub open spec fn colors_in(self, theme: Theme) -> (Color, Option<Color>) {
        let fg = theme.color_of(self.color);
        let bg = theme.dark;
        match self.highlight {
            HighlightMode::SwapColors => if self.state.hovered {
                (bg, Some(fg))
            } else {
                (fg, Some(bg))
            },
            HighlightMode::Color(highlight) => if self.state.hovered {
                (theme.color_of(highlight), None)
            } else {
                (fg, None)
            },
        }
    }

    /// The color of the icon and, when the button has an outline, the outline color.
    pub fn colors(&self, theme: &Theme) -> (res: (Color, Option<Color>))
        ensures
            res == self.colors_in(*theme),
    {
        let mut fg_color = theme.get_color(self.color);
        let mut bg_color = theme.dark;
        match self.highlight {
            HighlightMode::SwapColors => {
                if self.state.hovered {
                    std::mem::swap(&mut fg_color, &mut bg_color);
                }
                (fg_color, Some(bg_color))
            },
            HighlightMode::Color(highlight) => {
                if self.state.hovered {
                    fg_color = theme.get_color(highlight);
                }
                (fg_color, None)
            },
        }
    }
}

/// The panel describing the selected level: music, its author, whether it is an
/// original track, the difficulty and its mappers.
pub struct PlayLevelWidget {
    pub music: TextWidget,
    pub music_author: TextWidget,
    pub music_original: TextWidget,
    pub difficulty: TextWidget,
    pub mappers: TextWidget,
}

impl PlayLevelWidget {
    /// Empty texts; the "original" mark starts hidden.
    pub fn new() -> (res: Self)
        ensures
            res.music.text@ == ""@,
            res.music_author.text@ == ""@,
            res.music_original.text@ == "original"@,
            !res.music_original.state.visible,
            res.difficulty.text@ == ""@,
            res.mappers.text@ == ""@,
    {
        let mut widget = PlayLevelWidget {
            music: TextWidget::new(""),
            music_author: TextWidget::new(""),
            music_original: TextWidget::new("original"),
            difficulty: TextWidget::new(""),
            mappers: TextWidget::new(""),
        };
        widget.music_original.state.set_visible(false);
        widget
    }
}

/// An item of a list, showing a text and holding some data.
pub struct ItemWidget<T> {
    pub state: WidgetState,
    pub text: TextWidget,
    pub data: T,
}

impl<T> ItemWidget<T> {
    pub fn new(text: &str, data: T) -> (res: Self)
        ensures
            res.text.text@ == text@,
            res.data == data,
            res.state.visible && !res.state.hovered,
    {
        ItemWidget { state: WidgetState::new(), text: TextWidget::new(text), data }
    }
}

/// An entry of the difficulty list: the difficulty's name, marks for a local
/// (unpublished) or an edited difficulty, and the grade of the local highscore.
/// `X` is a texture and `L` the difficulty it shows.
pub struct ItemDiffWidget<X, L> {
    pub state: WidgetState,
    pub edited: IconWidget<X>,
    pub local: IconWidget<X>,
    pub text: TextWidget,
    pub group: Index,
    pub index: usize,
    pub level: L,
    pub grade: IconWidget<X>,
}

impl<X, L> ItemDiffWidget<X, L> {
    /// Show difficulty `level_index` of a group. A difficulty with id 0 exists only
    /// locally and gets the local mark; a published one gets the edited mark when it was
    /// edited. `grade` is the texture of the local highscore's grade and whether that
    /// grade is the failing one (shown in the danger color, others highlighted); without
    /// a highscore the grade is hidden.
    pub fn sync(
        &mut self,
        group: Index,
        level_index: usize,
        level: L,
        level_id: Id,
        name: String,
        edited: bool,
        grade: Option<(X, bool)>,
    )
        ensures
            final(self).group == group,
            final(self).index == level_index,
            final(self).level == level,
            final(self).text.text@ == name@,
            final(self).text.state == old(self).text.state,
            final(self).local.state.visible == (level_id == 0),
            final(self).edited.state.visible == (level_id != 0 && edited),
            final(self).local.texture == old(self).local.texture,
            final(self).local.color == old(self).local.color,
            final(self).edited.texture == old(self).edited.texture,
            final(self).edited.color == old(self).edited.color,
            final(self).local.state.hovered == old(self).local.state.hovered,
            final(self).edited.state.hovered == old(self).edited.state.hovered,
            final(self).state == old(self).state,
            final(self).grade.state.hovered == old(self).grade.state.hovered,
            match grade {
                Some((texture, failed)) => {
                    &&& final(self).grade.state.visible
                    &&& final(self).grade.texture == texture
                    &&& final(self).grade.color == (if failed {
                        ThemeColor::Danger
                    } else {
                        ThemeColor::Highlight
                    })
                },
                None => {
                    &&& !final(self).grade.state.visible
                    &&& final(self).grade.texture == old(self).grade.texture
                    &&& final(self).grade.color == old(self).grade.color
                },
            },
    {
        self.index = level_index;
        self.group = group;
        self.level = level;
        self.text.text = name;
        if level_id == 0 {
            self.local.state.set_visible(true);
            self.edited.state.set_visible(false);
        } else {
            self.local.state.set_visible(false);
            self.edited.state.set_visible(edited);
        }
        match grade {
            Some((texture, failed)) => {
                self.grade.texture = texture;
                self.grade.color = if failed {
                    ThemeColor::Danger
                } else {
                    ThemeColor::Highlight
                };
                self.grade.state.set_visible(true);
            },
            None => {
                self.grade.state.set_visible(false);
            },
        }
    }
}

} // verus!
