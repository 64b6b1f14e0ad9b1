//! Style resolution: which font and which size a styled run of text uses,
//! and ownership-preserving slicing of text runs.

use std::borrow::Cow;
use vstd::prelude::*;

use crate::resources::{Config, FontRole, Resources};
use crate::style::{Class, Style};

verus! {

broadcast use vstd::utf8::encode_utf8_valid_utf8, vstd::utf8::encode_utf8_decode_utf8;

/// The logical font role a style set resolves to, as an ordered priority:
/// code wins outright, then the strong/emphasis combinations, and a style
/// with none of those tags falls back to the default role.
pub open spec fn role_of_style(style: Set<Class>) -> FontRole {
    if style.contains(Class::Code) {
        FontRole::Mono
    } else if style.contains(Class::Strong) && style.contains(Class::Emphasis) {
        FontRole::BoldItalic
    } else if style.contains(Class::Strong) {
        FontRole::Bold
    } else if style.contains(Class::Emphasis) {
        FontRole::Italic
    } else {
        FontRole::Default
    }
}

/// The font size a style set resolves to under a configuration: heading
/// levels take precedence over body text, and a higher heading level takes
/// precedence over a lower one.
pub open spec fn spec_scale_from_style<S>(config: Config<S>, style: Set<Class>) -> S {
    if style.contains(Class::Heading(4)) {
        config.h4_font_size
    } else if style.contains(Class::Heading(3)) {
        config.h3_font_size
    } else if style.contains(Class::Heading(2)) {
        config.h2_font_size
    } else if style.contains(Class::Heading(1)) {
        config.h1_font_size
    } else {
        config.default_font_size
    }
}

/// Resolves a style to the loaded font for its role: the monospace font for
/// code, bold italic when strong and emphasis are combined, bold or italic
/// alone otherwise, and the default font when none of those tags is present.
///
/// Every configured font must already be loaded; a miss here would mean the
/// startup sequence was broken, not that the style was bad input.
pub fn font_from_style<'res, F, S>(resources: &'res Resources<F, S>, style: &Style) -> (font:
    &'res F)
    requires
        resources.all_fonts_loaded(),
    ensures
        Some(*font) == resources.spec_get_font(
            resources.spec_config().font_name(role_of_style(style@)),
        ),
{
    let config = resources.get_config();
    let strong = style.contains(&Class::Strong);
    let emphasis = style.contains(&Class::Emphasis);

    if style.contains(&Class::Code) {
        resources.get_font(&config.mono_font).expect(
            "All fonts should be loaded, or program should've quit",
        )
    } else if strong && emphasis {
        resources.get_font(&config.bold_italic_font).expect(
            "All fonts should be loaded, or program should've quit",
        )
    } else if strong {
        resources.get_font(&config.bold_font).expect(
            "All fonts should be loaded, or program should've quit",
        )
    } else if emphasis {
        resources.get_font(&config.italic_font).expect(
            "All fonts should be loaded, or program should've quit",
        )
    } else {
        resources.get_font(&config.default_font).expect(
            "All fonts should be loaded, or program should've quit",
        )
    }
}

/// Resolves a style to its font size under a configuration: the size of the
/// highest heading level present, or the default size when the style carries
/// no heading tag for levels one through four.
pub fn scale_from_style<S: Copy>(config: &Config<S>, style: &Style) -> (scale: S)
    ensures
        scale == spec_scale_from_style(*config, style@),
{
    if style.contains(&Class::Heading(4)) {
        config.h4_font_size
    } else if style.contains(&Class::Heading(3)) {
        config.h3_font_size
    } else if style.contains(&Class::Heading(2)) {
        config.h2_font_size
    } else if style.contains(&Class::Heading(1)) {
        config.h1_font_size
    } else {
        config.default_font_size
    }
}

/// Law: a style that carries the `Code` tag always resolves to the monospace
/// role, whatever other tags stand beside it.
pub proof fn lemma_code_selects_mono(style: Set<Class>)
    requires
        style.contains(Class::Code),
    ensures
        role_of_style(style) == FontRole::Mono,
{
}

/// Law: a style that carries both `Strong` and `Emphasis` resolves to the
/// bold-italic role, not to bold or italic alone. Code takes precedence over
/// the combination, so the law speaks of styles without the `Code` tag.
pub proof fn lemma_strong_emphasis_selects_bold_italic(style: Set<Class>)
    requires
        style.contains(Class::Strong),
        style.contains(Class::Emphasis),
        !style.contains(Class::Code),
    ensures
        role_of_style(style) == FontRole::BoldItalic,
{
}

/// Law: when heading levels one and four stand in the same style, level four
/// wins the size resolution — heading priority is strict, not an error.
pub proof fn lemma_heading_four_wins<S>(config: Config<S>, style: Set<Class>)
    requires
        style.contains(Class::Heading(1)),
        style.contains(Class::Heading(4)),
    ensures
        spec_scale_from_style(config, style) == config.h4_font_size,
{
}

/// The UTF-8 byte encoding of a text run, owned or borrowed alike.
pub open spec fn cow_bytes<'c>(text: Cow<'c, str>) -> Seq<u8> {
    vstd::utf8::encode_utf8(text@)
}

/// Whether a text run owns its buffer, as opposed to borrowing a view into a
/// longer-lived one.
pub open spec fn is_owned_text<'c>(text: Cow<'c, str>) -> bool {
    match text {
        Cow::Owned(_) => true,
        Cow::Borrowed(_) => false,
    }
}

/// Why an index into a text run was refused by the checked slicing
/// operations.
#[derive(Clone, Copy, PartialEq, Eq, Structural, Debug)]
pub enum SliceError {
    /// The index lies beyond the end of the text.
    OutOfBounds,
    /// The index lies inside a multi-byte character encoding.
    NotCharBoundary,
}

/// Slices a text run from a byte index to its end, preserving the ownership
/// mode of the input: an owned run yields a newly allocated owned copy of the
/// tail, a borrowed run yields a borrowed view into the same buffer.
///
/// The index must lie on a character boundary; `try_slice_cow_from_idx`
/// checks that instead of requiring it.
pub fn slice_cow_from_idx<'c>(text: &Cow<'c, str>, idx: usize) -> (r: Cow<'c, str>)
    requires
        vstd::utf8::is_char_boundary(cow_bytes(*text), idx as int),
    ensures
        cow_bytes(r) == cow_bytes(*text).subrange(idx as int, cow_bytes(*text).len() as int),
        r@ == vstd::utf8::decode_utf8(
            cow_bytes(*text).subrange(idx as int, cow_bytes(*text).len() as int),
        ),
        is_owned_text(r) == is_owned_text(*text),
{
    let r = match text {
        Cow::Owned(string) => Cow::Owned(string.as_str().split_at(idx).1.to_owned()),
        Cow::Borrowed(stringref) => Cow::Borrowed(stringref.split_at(idx).1),
    };
    proof {
        assert(vstd::utf8::decode_utf8(vstd::utf8::encode_utf8(r@)) == r@);
    }
    r
}

/// Slices a text run from its start up to a byte index, preserving the
/// ownership mode of the input: an owned run yields a newly allocated owned
/// copy of the head, a borrowed run yields a borrowed view into the same
/// buffer.
///
/// The index must lie on a character boundary; `try_slice_cow_till_idx`
/// checks that instead of requiring it.
pub fn slice_cow_till_idx<'c>(text: &Cow<'c, str>, idx: usize) -> (r: Cow<'c, str>)
    requires
        vstd::utf8::is_char_boundary(cow_bytes(*text), idx as int),
    ensures
        cow_bytes(r) == cow_bytes(*text).subrange(0, idx as int),
        r@ == vstd::utf8::decode_utf8(cow_bytes(*text).subrange(0, idx as int)),
        is_owned_text(r) == is_owned_text(*text),
{
    let r = match text {
        Cow::Owned(string) => Cow::Owned(string.as_str().split_at(idx).0.to_owned()),
        Cow::Borrowed(stringref) => Cow::Borrowed(stringref.split_at(idx).0),
    };
    proof {
        assert(vstd::utf8::decode_utf8(vstd::utf8::encode_utf8(r@)) == r@);
    }
    r
}

/// Checked form of `slice_cow_from_idx`: refuses an index beyond the end of
/// the text or inside a character encoding instead of requiring the caller
/// to have checked it.
pub fn try_slice_cow_from_idx<'c>(text: &Cow<'c, str>, idx: usize) -> (r: Result<
    Cow<'c, str>,
    SliceError,
>)
    ensures
        match r {
            Ok(sliced) => {
                &&& vstd::utf8::is_char_boundary(cow_bytes(*text), idx as int)
                &&& cow_bytes(sliced) == cow_bytes(*text).subrange(
                    idx as int,
                    cow_bytes(*text).len() as int,
                )
                &&& is_owned_text(sliced) == is_owned_text(*text)
            },
            Err(SliceError::OutOfBounds) => idx > cow_bytes(*text).len(),
            Err(SliceError::NotCharBoundary) => {
                &&& idx <= cow_bytes(*text).len()
                &&& !vstd::utf8::is_char_boundary(cow_bytes(*text), idx as int)
            },
        },
{
    let s: &str = match text {
        Cow::Owned(string) => string.as_str(),
        Cow::Borrowed(stringref) => stringref,
    };
    let nbytes: usize = s.as_bytes().len();
    if idx > nbytes {
        Err(SliceError::OutOfBounds)
    } else if !s.is_char_boundary(idx) {
        Err(SliceError::NotCharBoundary)
    } else {
        Ok(slice_cow_from_idx(text, idx))
    }
}

/// Checked form of `slice_cow_till_idx`: refuses an index beyond the end of
/// the text or inside a character encoding instead of requiring the caller
/// to have checked it.
pub fn try_slice_cow_till_idx<'c>(text: &Cow<'c, str>, idx: usize) -> (r: Result<
    Cow<'c, str>,
    SliceError,
>)
    ensures
        match r {
            Ok(sliced) => {
                &&& vstd::utf8::is_char_boundary(cow_bytes(*text), idx as int)
                &&& cow_bytes(sliced) == cow_bytes(*text).subrange(0, idx as int)
                &&& is_owned_text(sliced) == is_owned_text(*text)
            },
            Err(SliceError::OutOfBounds) => idx > cow_bytes(*text).len(),
            Err(SliceError::NotCharBoundary) => {
                &&& idx <= cow_bytes(*text).len()
                &&& !vstd::utf8::is_char_boundary(cow_bytes(*text), idx as int)
            },
        },
{
    let s: &str = match text {
        Cow::Owned(string) => string.as_str(),
        Cow::Borrowed(stringref) => stringref,
    };
    let nbytes: usize = s.as_bytes().len();
    if idx > nbytes {
        Err(SliceError::OutOfBounds)
    } else if !s.is_char_boundary(idx) {
        Err(SliceError::NotCharBoundary)
    } else {
        Ok(slice_cow_till_idx(text, idx))
    }
}

/// Law: the slicing operations compose. Taking the tail of a text run from
/// byte index `i` and then the head of the result up to relative byte index
/// `j` is legal whenever the single slice `i..i+j` is — `j` falls on a
/// character boundary of the tail — and yields exactly the bytes `i..i+j`
/// of the original run.
pub proof fn lemma_slice_from_then_till(bytes: Seq<u8>, i: int, j: int)
    requires
        vstd::utf8::valid_utf8(bytes),
        vstd::utf8::is_char_boundary(bytes, i),
        vstd::utf8::is_char_boundary(bytes, i + j),
        0 <= i,
        0 <= j,
        i + j <= bytes.len(),
    ensures
        vstd::utf8::is_char_boundary(bytes.subrange(i, bytes.len() as int), j),
        bytes.subrange(i, bytes.len() as int).subrange(0, j) == bytes.subrange(i, i + j),
{
    let tail = bytes.subrange(i, bytes.len() as int);
    vstd::utf8::valid_utf8_split(bytes, i);
    if j == tail.len() {
        vstd::utf8::is_char_boundary_start_end_of_seq(tail);
    } else {
        assert(tail[j] == bytes[i + j]);
        vstd::utf8::is_char_boundary_iff_not_is_continuation_byte(bytes, i + j);
        vstd::utf8::is_char_boundary_iff_not_is_continuation_byte(tail, j);
    }
    assert(tail.subrange(0, j) =~= bytes.subrange(i, i + j));
}
} // verus!
