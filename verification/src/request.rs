//! The overlays of a generation request.

use crate::geometry::{Color, Offset, Size, TextAlignment};
use vstd::prelude::*;

verus! {

/// An image to paint: where it comes from, where it goes, and the box that it
/// is fitted into.
#[derive(Debug)]
pub struct ImageComponent {
    pub file_path: String,
    pub offset: Offset,
    pub size: Size,
}

impl ImageComponent {
    pub fn new(file_path: String, offset: Offset, size: Size) -> (component: Self)
        ensures
            component.file_path == file_path,
            component.offset == offset,
            component.size == size,
    {
        ImageComponent { file_path, offset, size }
    }

    pub fn file_path(&self) -> (file_path: String)
        ensures
            file_path == self.file_path,
    {
        self.file_path.clone()
    }

    pub fn offset(&self) -> (offset: Offset)
        ensures
            offset == self.offset,
    {
        self.offset
    }

    pub fn size(&self) -> (size: Size)
        ensures
            size == self.size,
    {
        self.size
    }
}

/// A text to draw: the text itself, which may hold line breaks, its box, its
/// colour, the range of font sizes to choose from, and the symbols for its
/// alignment and its wrapping strategy.
#[derive(Debug)]
pub struct TextComponent {
    pub text: String,
    pub offset: Offset,
    pub size: Size,
    pub color: Color,
    pub min_font_size: u32,
    pub max_font_size: u32,
    pub text_align: TextAlignment,
    pub wrap: String,
}

impl TextComponent {
    pub fn new(
        text: String,
        offset: Offset,
        size: Size,
        color: Color,
        min_font_size: u32,
        max_font_size: u32,
        text_align: TextAlignment,
        wrap: String,
    ) -> (component: Self)
        ensures
            component.text == text,
            component.offset == offset,
            component.size == size,
            component.color == color,
            component.min_font_size == min_font_size,
            component.max_font_size == max_font_size,
            component.text_align == text_align,
            component.wrap == wrap,
    {
        TextComponent {
            text,
            offset,
            size,
            color,
            min_font_size,
            max_font_size,
            text_align,
            wrap,
        }
    }

    pub fn text(&self) -> (text: String)
        ensures
            text == self.text,
    {
        self.text.clone()
    }

    pub fn offset(&self) -> (offset: Offset)
        ensures
            offset == self.offset,
    {
        self.offset
    }

    pub fn size(&self) -> (size: Size)
        ensures
            size == self.size,
    {
        self.size
    }

    pub fn color(&self) -> (color: Color)
        ensures
            color == self.color,
    {
        self.color
    }

    pub fn min_font_size(&self) -> (min_font_size: u32)
        ensures
            min_font_size == self.min_font_size,
    {
        self.min_font_size
    }

    pub fn max_font_size(&self) -> (max_font_size: u32)
        ensures
            max_font_size == self.max_font_size,
    {
        self.max_font_size
    }

    pub fn text_align(&self) -> (text_align: TextAlignment)
        ensures
            text_align == self.text_align,
    {
        TextAlignment { x: self.text_align.x.clone(), y: self.text_align.y.clone() }
    }

    pub fn wrap(&self) -> (wrap: String)
        ensures
            wrap == self.wrap,
    {
        self.wrap.clone()
    }
}

} // verus!
