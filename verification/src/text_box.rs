//! The style of a text box: how its text is measured and coloured, and what
//! a key press does to it.

use vstd::prelude::*;
use embedded_graphics::geometry::Dimensions;
use embedded_graphics::geometry::Point;
use embedded_graphics::geometry::Size;
use embedded_graphics::mono_font::ascii::FONT_6X10;
use embedded_graphics::mono_font::jis_x0201::FONT_6X13;
use embedded_graphics::mono_font::MonoTextStyle;
use embedded_graphics::pixelcolor::Rgb888;
use embedded_graphics::primitives::Rectangle;
use embedded_graphics::text::Baseline;
use embedded_graphics::text::Text;
use embedded_text::style::HeightMode;
use embedded_text::style::TextBoxStyleBuilder;
use crate::geometry::MeasuredSize;
use crate::label::LabelProperties;
use crate::measurement::MeasureSpec;

verus! {

/// A font of `embedded_graphics` that text can be set in. Both are six
/// pixels wide.
#[derive(Clone, Copy, Debug, PartialEq, Eq, Structural)]
pub enum TextFont {
    /// The ASCII font of 6 by 10 pixels.
    Ascii6x10,
    /// The JIS X 0201 font of 6 by 13 pixels.
    Jis6x13,
}

/// The longest text, in characters, that is handed to the layout. A
/// character takes up to four bytes and a byte is taken as six pixels wide,
/// so the width of one line of such a text stays below `i32::MAX`, and the
/// height of its lines, at most thirteen pixels each, stays below it too.
pub const MAX_TEXT_LENGTH: usize = 89_000_000;

/// The size that `embedded_text` gives a text box of the given width once it
/// has fitted the height of the box to the text, set in the given font.
pub uninterp spec fn fitted_text_size(
    text: Seq<char>,
    font: TextFont,
    max_width: u32,
    max_height: u32,
) -> MeasuredSize;

/// The size of the box that `embedded_graphics` gives a text that is set in
/// the given font and broken only where the text itself has a line break:
/// the natural size of the text.
pub uninterp spec fn unwrapped_text_size(text: Seq<char>, font: TextFont) -> MeasuredSize;

/// Lays `text` out with `embedded_text::TextBox::with_textbox_style` in a
/// box of `max_width` by `max_height` pixels, in the given font and the
/// height mode `FitToText`, and returns the size of the box that results.
///
/// `embedded_text` leaves the width of the box as it is given and sets its
/// height to the height of the text, which it holds at `i32::MAX`. It is not
/// called with a text of more than `MAX_TEXT_LENGTH` characters: on a build
/// that checks arithmetic, a longer word or a longer run of lines makes it
/// panic.
#[verifier::external_body]
fn fit_text(text: &str, font: TextFont, max_width: u32, max_height: u32) -> (size:
    MeasuredSize)
    requires
        text@.len() <= MAX_TEXT_LENGTH,
    ensures
        size == fitted_text_size(text@, font, max_width, max_height),
        size.width == max_width,
        size.height <= i32::MAX,
{
    let font = match font {
        TextFont::Ascii6x10 => &FONT_6X10,
        TextFont::Jis6x13 => &FONT_6X13,
    };
    let bounds = Rectangle::new(Point::zero(), Size::new(max_width, max_height));
    let style = TextBoxStyleBuilder::new().height_mode(HeightMode::FitToText).build();
    let character_style = MonoTextStyle::new(font, Rgb888::new(0, 0, 0));
    let fitted = embedded_text::TextBox::with_textbox_style(text, bounds, character_style, style)
        .bounding_box();
    MeasuredSize { width: fitted.size.width, height: fitted.size.height }
}

/// Asks `embedded_graphics` for the bounding box of `text` as
/// `embedded_graphics::text::Text` sets it at the origin, in the given font,
/// and returns the size of that box. It is not called with a text of more
/// than `MAX_TEXT_LENGTH` characters, for the reason given at `fit_text`.
#[verifier::external_body]
fn measure_unwrapped(text: &str, font: TextFont) -> (size: MeasuredSize)
    requires
        text@.len() <= MAX_TEXT_LENGTH,
    ensures
        size == unwrapped_text_size(text@, font),
{
    let font = match font {
        TextFont::Ascii6x10 => &FONT_6X10,
        TextFont::Jis6x13 => &FONT_6X13,
    };
    let character_style = MonoTextStyle::new(font, Rgb888::new(0, 0, 0));
    let natural = Text::with_baseline(text, Point::zero(), character_style, Baseline::Top)
        .bounding_box();
    MeasuredSize { width: natural.size.width, height: natural.size.height }
}

/// The room a text may take under `spec`: on each axis the limit of the
/// constraint, or `u32::MAX` where there is none.
pub open spec fn text_limits(spec: MeasureSpec) -> MeasuredSize {
    MeasuredSize {
        width: match spec.width.limit() {
            Some(limit) => limit,
            None => u32::MAX,
        },
        height: match spec.height.limit() {
            Some(limit) => limit,
            None => u32::MAX,
        },
    }
}

/// Whether the natural size of a text is needed to measure it under `spec`:
/// it is, unless the width is given exactly.
pub open spec fn needs_natural_size(spec: MeasureSpec) -> bool {
    !(spec.width is Exactly)
}

/// Whether a text has to be laid out to measure it under `spec`: it has,
/// where the width is limited, so that lines may have to be broken, and the
/// height is not given exactly.
pub open spec fn needs_layout(spec: MeasureSpec) -> bool {
    spec.width.limit() is Some && !(spec.height is Exactly)
}

/// The size of a text box under `spec`, given the natural size of its text
/// and the size `fitted` that the text takes once it is laid out in the
/// width that `spec` allows.
///
/// The width is the natural width, held to the width constraint. The height
/// is the height of the laid-out text where the width is limited, and the
/// natural height where it is not, held to the height constraint. So the
/// box never exceeds a limit, takes exactly what it is told to take, and
/// has its natural size where nothing constrains it.
pub open spec fn text_box_size(
    spec: MeasureSpec,
    natural: MeasuredSize,
    fitted: MeasuredSize,
) -> MeasuredSize {
    MeasuredSize {
        width: spec.width.applied_to(natural.width),
        height: spec.height.applied_to(
            if spec.width.limit() is Some {
                fitted.height
            } else {
                natural.height
            },
        ),
    }
}

/// The size of a text box is decided by the natural size only as far as
/// that is needed, and by the laid-out size only as far as that is needed.
pub proof fn lemma_text_box_size_needs(
    spec: MeasureSpec,
    natural: MeasuredSize,
    fitted: MeasuredSize,
    other_natural: MeasuredSize,
    other_fitted: MeasuredSize,
)
    requires
        needs_natural_size(spec) ==> other_natural == natural,
        needs_layout(spec) ==> other_fitted == fitted,
        !needs_layout(spec) && !(spec.height is Exactly) ==> other_natural == natural,
    ensures
        text_box_size(spec, other_natural, other_fitted) == text_box_size(spec, natural, fitted),
{
}

/// Finds the room a text may take under `spec`.
pub fn limits_of(spec: MeasureSpec) -> (limits: MeasuredSize)
    ensures
        limits == text_limits(spec),
        spec.admits(limits),
{
    MeasuredSize {
        width: match spec.width.largest() {
            Some(limit) => limit,
            None => u32::MAX,
        },
        height: match spec.height.largest() {
            Some(limit) => limit,
            None => u32::MAX,
        },
    }
}

/// Decides the size of a text box under `spec` from the natural size of its
/// text and the size the text was laid out to. The result obeys `spec` on
/// both axes.
pub fn measured_text_size(spec: MeasureSpec, natural: MeasuredSize, fitted: MeasuredSize) -> (size:
    MeasuredSize)
    ensures
        size == text_box_size(spec, natural, fitted),
        spec.admits(size),
{
    let height = match spec.width.largest() {
        Some(_) => fitted.height,
        None => natural.height,
    };
    MeasuredSize {
        width: spec.width.apply_to_measured(natural.width),
        height: spec.height.apply_to_measured(height),
    }
}

/// Where a line of text stands between the left and the right of its box.
#[derive(Clone, Copy, Debug, PartialEq, Eq, Structural)]
pub enum HorizontalAlignment {
    Left,
    Center,
    Right,
    Justified,
}

/// Where the text stands between the top and the bottom of its box.
#[derive(Clone, Copy, Debug, PartialEq, Eq, Structural)]
pub enum VerticalAlignment {
    Top,
    Middle,
    Bottom,
}

/// The style of a text box, with colours of type `C`. The cursor is drawn
/// only where it has a colour.
#[derive(Debug)]
pub struct TextBoxStyle<C> {
    pub font: TextFont,
    pub text_color: Option<C>,
    pub horizontal: HorizontalAlignment,
    pub vertical: VerticalAlignment,
    pub cursor_color: Option<C>,
}

impl<C: Copy> TextBoxStyle<C> {
    /// A style with text and cursor in `color`, in the ASCII font of 6 by 10
    /// pixels, aligned to the top left.
    pub fn new(color: C) -> (style: Self)
        ensures
            style.font == TextFont::Ascii6x10,
            style.text_color == Some(color),
            style.cursor_color == Some(color),
            style.horizontal == HorizontalAlignment::Left,
            style.vertical == VerticalAlignment::Top,
    {
        TextBoxStyle {
            font: TextFont::Ascii6x10,
            text_color: Some(color),
            horizontal: HorizontalAlignment::Left,
            vertical: VerticalAlignment::Top,
            cursor_color: Some(color),
        }
    }

    /// The colour of the text.
    pub fn get_text_color(&self) -> (color: Option<C>)
        ensures
            color == self.text_color,
    {
        self.text_color
    }

    /// Sets the colour of the text. A cursor that has no colour yet takes
    /// the same colour; a cursor that has one keeps it.
    pub fn text_color(&mut self, text_color: C)
        ensures
            final(self).text_color == Some(text_color),
            final(self).cursor_color == (if old(self).cursor_color is None {
                Some(text_color)
            } else {
                old(self).cursor_color
            }),
            final(self).horizontal == old(self).horizontal,
            final(self).vertical == old(self).vertical,
            final(self).font == old(self).font,
    {
        self.text_color = Some(text_color);
        if self.cursor_color.is_none() {
            self.cursor_color(text_color);
        }
    }

    /// Sets the colour of the cursor.
    pub fn cursor_color(&mut self, color: C)
        ensures
            *final(self) == (TextBoxStyle { cursor_color: Some(color), ..*old(self) }),
    {
        self.cursor_color = Some(color);
    }

    /// Sets the font. The cursor loses its colour, and takes the colour of
    /// the text when that is set next.
    pub fn font(self, font: TextFont) -> (style: Self)
        ensures
            style == (TextBoxStyle { font, cursor_color: None, ..self }),
    {
        TextBoxStyle {
            font,
            text_color: self.text_color,
            horizontal: self.horizontal,
            vertical: self.vertical,
            cursor_color: None,
        }
    }

    /// Sets where lines stand between left and right.
    pub fn horizontal_alignment(self, alignment: HorizontalAlignment) -> (style: Self)
        ensures
            style == (TextBoxStyle { horizontal: alignment, ..self }),
    {
        TextBoxStyle {
            font: self.font,
            text_color: self.text_color,
            horizontal: alignment,
            vertical: self.vertical,
            cursor_color: self.cursor_color,
        }
    }

    /// Sets where the text stands between top and bottom.
    pub fn vertical_alignment(self, alignment: VerticalAlignment) -> (style: Self)
        ensures
            style == (TextBoxStyle { vertical: alignment, ..self }),
    {
        TextBoxStyle {
            font: self.font,
            text_color: self.text_color,
            horizontal: self.horizontal,
            vertical: alignment,
            cursor_color: self.cursor_color,
        }
    }
}

impl<C: Copy> LabelProperties for TextBoxStyle<C> {
    /// A text of more than `MAX_TEXT_LENGTH` characters is not laid out: it
    /// takes all the room that `spec` allows. Any other text takes the size
    /// that `text_box_size` gives for its natural and its laid-out size.
    open spec fn text_size(&self, text: Seq<char>, spec: MeasureSpec) -> MeasuredSize {
        if text.len() > MAX_TEXT_LENGTH {
            text_limits(spec)
        } else {
            text_box_size(
                spec,
                unwrapped_text_size(text, self.font),
                fitted_text_size(
                    text,
                    self.font,
                    text_limits(spec).width,
                    text_limits(spec).height,
                ),
            )
        }
    }

    /// Measures `text` under `spec`. The text is laid out only where the
    /// answer depends on it: not where the height is given exactly, nor
    /// where nothing limits the width.
    fn measure_text(&self, text: &str, spec: MeasureSpec) -> (size: MeasuredSize)
        ensures
            spec.admits(size),
    {
        let limits = limits_of(spec);
        if text.unicode_len() > MAX_TEXT_LENGTH {
            return limits;
        }
        let natural = if spec.width.is_exact() {
            limits
        } else {
            measure_unwrapped(text, self.font)
        };
        let lay_out = spec.width.largest().is_some() && !spec.height.is_exact();
        let fitted = if lay_out {
            fit_text(text, self.font, limits.width, limits.height)
        } else {
            natural
        };
        proof {
            lemma_text_box_size_needs(
                spec,
                unwrapped_text_size(text@, self.font),
                fitted_text_size(text@, self.font, limits.width, limits.height),
                natural,
                fitted,
            );
        }
        measured_text_size(spec, natural, fitted)
    }
}

/// A key of the keyboard.
#[derive(Clone, Copy, Debug, PartialEq, Eq, Structural)]
pub enum Key {
    ArrowUp,
    ArrowDown,
    ArrowLeft,
    ArrowRight,
    Del,
    Backspace,
    /// A key that stands for a character.
    Character(char),
    /// Any other key.
    Other,
}

/// What a key press does to the text under the cursor.
#[derive(Clone, Copy, Debug, PartialEq, Eq, Structural)]
pub enum CursorAction {
    MoveUp,
    MoveDown,
    MoveLeft,
    MoveRight,
    DeleteAfter,
    DeleteBefore,
    Insert(char),
    Nothing,
}

/// What pressing `key` does in a text box.
pub open spec fn action_of(key: Key) -> CursorAction {
    match key {
        Key::ArrowUp => CursorAction::MoveUp,
        Key::ArrowDown => CursorAction::MoveDown,
        Key::ArrowLeft => CursorAction::MoveLeft,
        Key::ArrowRight => CursorAction::MoveRight,
        Key::Del => CursorAction::DeleteAfter,
        Key::Backspace => CursorAction::DeleteBefore,
        Key::Character(c) => CursorAction::Insert(c),
        Key::Other => CursorAction::Nothing,
    }
}

/// Decides what a key press does in a text box: the arrows move the cursor,
/// Del and Backspace delete the character after and before it, a character
/// is inserted, and every other key does nothing.
pub fn handle_keypress(key: Key) -> (action: CursorAction)
    ensures
        action == action_of(key),
{
    match key {
        Key::ArrowUp => CursorAction::MoveUp,
        Key::ArrowDown => CursorAction::MoveDown,
        Key::ArrowLeft => CursorAction::MoveLeft,
        Key::ArrowRight => CursorAction::MoveRight,
        Key::Del => CursorAction::DeleteAfter,
        Key::Backspace => CursorAction::DeleteBefore,
        Key::Character(c) => CursorAction::Insert(c),
        Key::Other => CursorAction::Nothing,
    }
}

} // verus!
