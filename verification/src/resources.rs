//! The layout configuration and the font resource store.
//!
//! Fonts themselves are opaque to the layout core: the store is generic in
//! the font type `F`, and the configuration is generic in the scale type `S`,
//! so the same resolution policy serves whatever backend loads the fonts and
//! whatever unit system sizes them.

use vstd::prelude::*;

verus! {

/// The logical font roles a style can resolve to.
#[derive(Clone, Copy, PartialEq, Eq, Structural, Debug)]
pub enum FontRole {
    Default,
    Bold,
    Italic,
    BoldItalic,
    Mono,
}

/// The layout configuration: one font name per logical role, one font size
/// per heading level, and a default size for body text.
///
/// All fields are required; the core synthesizes no defaults.
pub struct Config<S> {
    pub default_font: String,
    pub bold_font: String,
    pub italic_font: String,
    pub bold_italic_font: String,
    pub mono_font: String,
    pub default_font_size: S,
    pub h1_font_size: S,
    pub h2_font_size: S,
    pub h3_font_size: S,
    pub h4_font_size: S,
}

impl<S> Config<S> {
    /// The configured font name for a logical role.
    pub open spec fn font_name(&self, role: FontRole) -> Seq<char> {
        match role {
            FontRole::Default => self.default_font@,
            FontRole::Bold => self.bold_font@,
            FontRole::Italic => self.italic_font@,
            FontRole::BoldItalic => self.bold_italic_font@,
            FontRole::Mono => self.mono_font@,
        }
    }
}

/// The font stored under `name` in a list of named fonts, if any; when a name
/// occurs more than once the entry stored last wins.
pub open spec fn lookup<F>(entries: Seq<(String, F)>, name: Seq<char>) -> Option<F>
    decreases entries.len(),
{
    if entries.len() == 0 {
        None
    } else if entries.last().0@ == name {
        Some(entries.last().1)
    } else {
        lookup(entries.drop_last(), name)
    }
}

/// A read-only store of loaded fonts keyed by name, together with the active
/// configuration. The core never loads fonts itself; the surrounding
/// application fills the store once at startup and only reads it afterwards.
pub struct Resources<F, S> {
    fonts: Vec<(String, F)>,
    config: Config<S>,
}

impl<F, S> Resources<F, S> {
    /// The stored fonts, as the sequence of insertions.
    pub closed spec fn entries(&self) -> Seq<(String, F)> {
        self.fonts@
    }

    /// The font stored under `name`, if any.
    pub open spec fn spec_get_font(&self, name: Seq<char>) -> Option<F> {
        lookup(self.entries(), name)
    }

    /// The active configuration.
    pub closed spec fn spec_config(&self) -> Config<S> {
        self.config
    }

    /// Every font that the configuration names for some role is present in
    /// the store. The surrounding application establishes this at startup;
    /// resolution treats a miss as a broken startup invariant, not as input.
    pub open spec fn all_fonts_loaded(&self) -> bool {
        &&& self.spec_get_font(self.spec_config().font_name(FontRole::Default)) is Some
        &&& self.spec_get_font(self.spec_config().font_name(FontRole::Bold)) is Some
        &&& self.spec_get_font(self.spec_config().font_name(FontRole::Italic)) is Some
        &&& self.spec_get_font(self.spec_config().font_name(FontRole::BoldItalic)) is Some
        &&& self.spec_get_font(self.spec_config().font_name(FontRole::Mono)) is Some
    }

    /// An empty store holding only the configuration.
    pub fn new(config: Config<S>) -> (r: Resources<F, S>)
        ensures
            r.spec_config() == config,
            forall|name: Seq<char>| #[trigger] r.spec_get_font(name) is None,
    {
        Resources { fonts: Vec::new(), config }
    }

    /// Stores a font under a name. Inserting under an already-used name
    /// replaces the font that a later lookup finds; every other name is
    /// unaffected.
    pub fn insert_font(&mut self, name: String, font: F)
        ensures
            final(self).spec_config() == old(self).spec_config(),
            final(self).spec_get_font(name@) == Some(font),
            forall|other: Seq<char>|
                other != name@ ==> #[trigger] final(self).spec_get_font(other) == old(
                    self,
                ).spec_get_font(other),
    {
        let ghost n = name@;
        let ghost old_entries = self.fonts@;
        self.fonts.push((name, font));
        proof {
            assert(self.fonts@.drop_last() =~= old_entries);
            assert(self.fonts@.last().0@ == n);
        }
    }

    /// Looks a font up by name: the result is exactly what the store holds
    /// under that name, or `None` when the name was never inserted.
    pub fn get_font(&self, name: &String) -> (r: Option<&F>)
        ensures
            match r {
                Some(font) => self.spec_get_font(name@) == Some(*font),
                None => self.spec_get_font(name@) is None,
            },
    {
        let n: usize = self.fonts.len();
        let mut i: usize = n;
        proof {
            assert(self.fonts@.take(n as int) =~= self.fonts@);
        }
        while i > 0
            invariant
                i <= n,
                n == self.fonts.len(),
                lookup(self.fonts@, name@) == lookup(self.fonts@.take(i as int), name@),
            decreases i,
        {
            i = i - 1;
            let ghost checked = self.fonts@.take((i + 1) as int);
            proof {
                assert(checked.last() == self.fonts@[i as int]);
            }
            if self.fonts[i].0 == *name {
                return Some(&self.fonts[i].1);
            }
            proof {
                assert(checked.drop_last() =~= self.fonts@.take(i as int));
            }
        }
        proof {
            assert(self.fonts@.take(0) =~= Seq::<(String, F)>::empty());
        }
        None
    }

    /// The active configuration, for the style resolver.
    pub fn get_config(&self) -> (c: &Config<S>)
        ensures
            *c == self.spec_config(),
    {
        &self.config
    }
}

} // verus!
