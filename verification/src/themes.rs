//! Themes: maps from role names to colour texts, and the palette of eight
//! roles that the generators produce.

use crate::colors::Rgb;
use crate::strmap::StrMap;
use vstd::prelude::*;
use vstd::string::*;

pub mod predefined;

verus! {

/// A theme: colour texts by role name. A theme of the user's may lack roles,
/// hold further keys, and hold texts that are no colours.
pub type Theme = StrMap<String>;

/// Themes by name.
pub type ThemeCatalog = StrMap<Theme>;

/// The eight roles that a palette gives a colour to.
#[derive(Clone, Copy, Debug, PartialEq, Eq, Structural)]
pub enum Role {
    Bg,
    Surface,
    Primary,
    Secondary,
    Accent,
    Text,
    Muted,
    Highlight,
}

impl Role {
    /// The name under which a theme holds the role's colour.
    pub open spec fn name(self) -> Seq<char> {
        match self {
            Role::Bg => "bg"@,
            Role::Surface => "surface"@,
            Role::Primary => "primary"@,
            Role::Secondary => "secondary"@,
            Role::Accent => "accent"@,
            Role::Text => "text"@,
            Role::Muted => "muted"@,
            Role::Highlight => "highlight"@,
        }
    }

    /// The name under which a theme holds the role's colour.
    pub fn as_str(self) -> (s: &'static str)
        ensures
            s@ == self.name(),
    {
        match self {
            Role::Bg => "bg",
            Role::Surface => "surface",
            Role::Primary => "primary",
            Role::Secondary => "secondary",
            Role::Accent => "accent",
            Role::Text => "text",
            Role::Muted => "muted",
            Role::Highlight => "highlight",
        }
    }
}

/// One colour for each of the eight roles.
#[derive(Clone, Copy, Debug, PartialEq, Eq, Structural)]
pub struct Palette {
    pub bg: Rgb,
    pub surface: Rgb,
    pub primary: Rgb,
    pub secondary: Rgb,
    pub accent: Rgb,
    pub text: Rgb,
    pub muted: Rgb,
    pub highlight: Rgb,
}

/// The theme of a palette: under each of the eight role names the colour's
/// text, `#rrggbb` in lower case.
#[verifier::opaque]
pub open spec fn theme_of(p: Palette) -> Map<Seq<char>, Seq<char>> {
    map![
        "bg"@ => p.bg.hex(),
        "surface"@ => p.surface.hex(),
        "primary"@ => p.primary.hex(),
        "secondary"@ => p.secondary.hex(),
        "accent"@ => p.accent.hex(),
        "text"@ => p.text.hex(),
        "muted"@ => p.muted.hex(),
        "highlight"@ => p.highlight.hex(),
    ]
}

/// The eight role names, in the order in which a palette's theme lists them.
pub open spec fn role_names() -> Seq<Seq<char>> {
    seq![
        "bg"@,
        "surface"@,
        "primary"@,
        "secondary"@,
        "accent"@,
        "text"@,
        "muted"@,
        "highlight"@,
    ]
}

/// The palette whose colours are given as numbers `0xRRGGBB`, in the order
/// bg, surface, primary, secondary, accent, text, muted, highlight.
pub open spec fn palette_of_roles(c: [u32; 8]) -> Palette {
    Palette {
        bg: Rgb::of_u32(c[0]),
        surface: Rgb::of_u32(c[1]),
        primary: Rgb::of_u32(c[2]),
        secondary: Rgb::of_u32(c[3]),
        accent: Rgb::of_u32(c[4]),
        text: Rgb::of_u32(c[5]),
        muted: Rgb::of_u32(c[6]),
        highlight: Rgb::of_u32(c[7]),
    }
}

/// The palette of a base16 scheme, whose sixteen slots are given as numbers
/// `0xRRGGBB`: bg is slot 0, surface slot 1, muted slot 3, text slot 5, primary
/// slot 8, highlight slot 9, accent slot 12 and secondary slot 14.
pub open spec fn palette_of_base16(c: [u32; 16]) -> Palette {
    Palette {
        bg: Rgb::of_u32(c[0]),
        surface: Rgb::of_u32(c[1]),
        primary: Rgb::of_u32(c[8]),
        secondary: Rgb::of_u32(c[14]),
        accent: Rgb::of_u32(c[12]),
        text: Rgb::of_u32(c[5]),
        muted: Rgb::of_u32(c[3]),
        highlight: Rgb::of_u32(c[9]),
    }
}

impl Palette {
    /// The colour of a role.
    pub open spec fn color(self, role: Role) -> Rgb {
        match role {
            Role::Bg => self.bg,
            Role::Surface => self.surface,
            Role::Primary => self.primary,
            Role::Secondary => self.secondary,
            Role::Accent => self.accent,
            Role::Text => self.text,
            Role::Muted => self.muted,
            Role::Highlight => self.highlight,
        }
    }

    /// The colour of a role.
    pub fn get(&self, role: Role) -> (c: Rgb)
        ensures
            c == self.color(role),
    {
        match role {
            Role::Bg => self.bg,
            Role::Surface => self.surface,
            Role::Primary => self.primary,
            Role::Secondary => self.secondary,
            Role::Accent => self.accent,
            Role::Text => self.text,
            Role::Muted => self.muted,
            Role::Highlight => self.highlight,
        }
    }

    /// The palette whose colours are given as numbers `0xRRGGBB`, in the order
    /// bg, surface, primary, secondary, accent, text, muted, highlight.
    pub fn from_roles(c: &[u32; 8]) -> (p: Palette)
        ensures
            p == palette_of_roles(*c),
    {
        Palette {
            bg: Rgb::from_u32(c[0]),
            surface: Rgb::from_u32(c[1]),
            primary: Rgb::from_u32(c[2]),
            secondary: Rgb::from_u32(c[3]),
            accent: Rgb::from_u32(c[4]),
            text: Rgb::from_u32(c[5]),
            muted: Rgb::from_u32(c[6]),
            highlight: Rgb::from_u32(c[7]),
        }
    }

    /// The theme of the palette, with all eight roles.
    pub fn to_theme(&self) -> (t: Theme)
        ensures
            t@ == theme_of(*self),
            t.keys() == role_names(),
    {
        let mut t: Theme = StrMap::new();
        proof {
            reveal(theme_of);
            lemma_role_names_differ(Role::Bg, Role::Surface);
            lemma_role_names_differ(Role::Bg, Role::Primary);
            lemma_role_names_differ(Role::Bg, Role::Secondary);
            lemma_role_names_differ(Role::Bg, Role::Accent);
            lemma_role_names_differ(Role::Bg, Role::Text);
            lemma_role_names_differ(Role::Bg, Role::Muted);
            lemma_role_names_differ(Role::Bg, Role::Highlight);
            lemma_role_names_differ(Role::Surface, Role::Primary);
            lemma_role_names_differ(Role::Surface, Role::Secondary);
            lemma_role_names_differ(Role::Surface, Role::Accent);
            lemma_role_names_differ(Role::Surface, Role::Text);
            lemma_role_names_differ(Role::Surface, Role::Muted);
            lemma_role_names_differ(Role::Surface, Role::Highlight);
            lemma_role_names_differ(Role::Primary, Role::Secondary);
            lemma_role_names_differ(Role::Primary, Role::Accent);
            lemma_role_names_differ(Role::Primary, Role::Text);
            lemma_role_names_differ(Role::Primary, Role::Muted);
            lemma_role_names_differ(Role::Primary, Role::Highlight);
            lemma_role_names_differ(Role::Secondary, Role::Accent);
            lemma_role_names_differ(Role::Secondary, Role::Text);
            lemma_role_names_differ(Role::Secondary, Role::Muted);
            lemma_role_names_differ(Role::Secondary, Role::Highlight);
            lemma_role_names_differ(Role::Accent, Role::Text);
            lemma_role_names_differ(Role::Accent, Role::Muted);
            lemma_role_names_differ(Role::Accent, Role::Highlight);
            lemma_role_names_differ(Role::Text, Role::Muted);
            lemma_role_names_differ(Role::Text, Role::Highlight);
            lemma_role_names_differ(Role::Muted, Role::Highlight);
        }
        t.insert(String::from_str("bg"), self.bg.to_hex());
        t.insert(String::from_str("surface"), self.surface.to_hex());
        t.insert(String::from_str("primary"), self.primary.to_hex());
        t.insert(String::from_str("secondary"), self.secondary.to_hex());
        t.insert(String::from_str("accent"), self.accent.to_hex());
        t.insert(String::from_str("text"), self.text.to_hex());
        t.insert(String::from_str("muted"), self.muted.to_hex());
        t.insert(String::from_str("highlight"), self.highlight.to_hex());
        assert(t.keys() =~= role_names());
        t
    }
}

/// The names of the eight roles differ from each other.
pub proof fn lemma_role_names_differ(a: Role, b: Role)
    ensures
        a.name() == b.name() <==> a == b,
{
    reveal_strlit("bg");
    reveal_strlit("surface");
    reveal_strlit("primary");
    reveal_strlit("secondary");
    reveal_strlit("accent");
    reveal_strlit("text");
    reveal_strlit("muted");
    reveal_strlit("highlight");
    assert("bg"@.len() == 2 && "surface"@.len() == 7 && "primary"@.len() == 7);
    assert("secondary"@.len() == 9 && "accent"@.len() == 6 && "text"@.len() == 4);
    assert("muted"@.len() == 5 && "highlight"@.len() == 9);
    assert("surface"@[0] != "primary"@[0]);
    assert("secondary"@[0] != "highlight"@[0]);
}

/// The theme of a palette has exactly the eight roles, each with the text of
/// its colour.
pub proof fn lemma_theme_has_the_roles(p: Palette)
    ensures
        forall|role: Role| #[trigger]
            theme_of(p).contains_key(role.name()) && theme_of(p)[role.name()] == p.color(
                role,
            ).hex(),
        forall|k: Seq<char>|
            theme_of(p).contains_key(k) ==> exists|role: Role| #[trigger] role.name() == k,
{
    reveal(theme_of);
    assert forall|role: Role| #[trigger]
        theme_of(p).contains_key(role.name()) && theme_of(p)[role.name()] == p.color(
            role,
        ).hex() by {
        lemma_role_names_differ(role, Role::Bg);
        lemma_role_names_differ(role, Role::Surface);
        lemma_role_names_differ(role, Role::Primary);
        lemma_role_names_differ(role, Role::Secondary);
        lemma_role_names_differ(role, Role::Accent);
        lemma_role_names_differ(role, Role::Text);
        lemma_role_names_differ(role, Role::Muted);
        lemma_role_names_differ(role, Role::Highlight);
    }
    assert forall|k: Seq<char>| theme_of(p).contains_key(k) implies exists|role: Role| #[trigger]
        role.name() == k by {
        if k == "bg"@ {
            assert(Role::Bg.name() == k);
        } else if k == "surface"@ {
            assert(Role::Surface.name() == k);
        } else if k == "primary"@ {
            assert(Role::Primary.name() == k);
        } else if k == "secondary"@ {
            assert(Role::Secondary.name() == k);
        } else if k == "accent"@ {
            assert(Role::Accent.name() == k);
        } else if k == "text"@ {
            assert(Role::Text.name() == k);
        } else if k == "muted"@ {
            assert(Role::Muted.name() == k);
        } else {
            assert(Role::Highlight.name() == k);
        }
    }
}

/// The palette of a base16 scheme, whose sixteen slots are given as numbers
/// `0xRRGGBB`.
pub fn map_base16(colors: &[u32; 16]) -> (p: Palette)
    ensures
        p == palette_of_base16(*colors),
{
    Palette {
        bg: Rgb::from_u32(colors[0]),
        surface: Rgb::from_u32(colors[1]),
        primary: Rgb::from_u32(colors[8]),
        secondary: Rgb::from_u32(colors[14]),
        accent: Rgb::from_u32(colors[12]),
        text: Rgb::from_u32(colors[5]),
        muted: Rgb::from_u32(colors[3]),
        highlight: Rgb::from_u32(colors[9]),
    }
}

} // verus!
