//! The colour themes of the dashboard and the choice among them.

use crate::text::str_eq;
use vstd::arithmetic::div_mod::lemma_add_mod_noop_right;
use vstd::arithmetic::div_mod::lemma_mod_add_multiples_vanish;
use vstd::arithmetic::div_mod::lemma_small_mod;
use vstd::prelude::*;

verus! {

/// A colour by its red, green and blue parts.
#[derive(Debug, Clone, Copy, PartialEq, Eq, Structural)]
pub struct Rgb {
    pub r: u8,
    pub g: u8,
    pub b: u8,
}

/// The colour with the given parts.
#[verifier::allow_in_spec]
pub fn rgb(r: u8, g: u8, b: u8) -> Rgb
    returns
        (Rgb { r, g, b }),
{
    Rgb { r, g, b }
}

/// A colour theme: its name as it is shown, and the colour of each part of
/// the dashboard.
#[derive(Debug, Clone, Copy)]
pub struct Theme {
    pub name: &'static str,
    pub primary: Rgb,
    pub secondary: Rgb,
    pub background: Rgb,
    pub surface: Rgb,
    pub text: Rgb,
    pub text_secondary: Rgb,
    pub success: Rgb,
    pub warning: Rgb,
    pub error: Rgb,
    pub accent: Rgb,
}

/// The theme `moonlight`.
#[verifier::allow_in_spec]
pub fn moonlight() -> Theme
    returns
        (Theme {
            name: "Moonlight",
            primary: rgb(190, 180, 255),
            secondary: rgb(140, 180, 255),
            background: rgb(30, 30, 45),
            surface: rgb(40, 40, 55),
            text: rgb(255, 255, 255),
            text_secondary: rgb(170, 170, 170),
            success: rgb(120, 255, 180),
            warning: rgb(255, 200, 120),
            error: rgb(255, 120, 140),
            accent: rgb(180, 120, 255),
        }),
{
    Theme {
        name: "Moonlight",
        primary: rgb(190, 180, 255),
        secondary: rgb(140, 180, 255),
        background: rgb(30, 30, 45),
        surface: rgb(40, 40, 55),
        text: rgb(255, 255, 255),
        text_secondary: rgb(170, 170, 170),
        success: rgb(120, 255, 180),
        warning: rgb(255, 200, 120),
        error: rgb(255, 120, 140),
        accent: rgb(180, 120, 255),
    }
}

/// The theme `nord`.
#[verifier::allow_in_spec]
pub fn nord() -> Theme
    returns
        (Theme {
            name: "Nord",
            primary: rgb(136, 192, 208),
            secondary: rgb(143, 188, 187),
            background: rgb(46, 52, 64),
            surface: rgb(59, 66, 82),
            text: rgb(236, 239, 244),
            text_secondary: rgb(216, 222, 233),
            success: rgb(163, 190, 140),
            warning: rgb(235, 203, 139),
            error: rgb(191, 97, 106),
            accent: rgb(136, 192, 208),
        }),
{
    Theme {
        name: "Nord",
        primary: rgb(136, 192, 208),
        secondary: rgb(143, 188, 187),
        background: rgb(46, 52, 64),
        surface: rgb(59, 66, 82),
        text: rgb(236, 239, 244),
        text_secondary: rgb(216, 222, 233),
        success: rgb(163, 190, 140),
        warning: rgb(235, 203, 139),
        error: rgb(191, 97, 106),
        accent: rgb(136, 192, 208),
    }
}

/// The theme `dracula`.
#[verifier::allow_in_spec]
pub fn dracula() -> Theme
    returns
        (Theme {
            name: "Dracula",
            primary: rgb(189, 147, 249),
            secondary: rgb(139, 233, 253),
            background: rgb(40, 42, 54),
            surface: rgb(68, 71, 90),
            text: rgb(248, 248, 242),
            text_secondary: rgb(188, 187, 177),
            success: rgb(80, 250, 123),
            warning: rgb(255, 184, 108),
            error: rgb(255, 85, 85),
            accent: rgb(189, 147, 249),
        }),
{
    Theme {
        name: "Dracula",
        primary: rgb(189, 147, 249),
        secondary: rgb(139, 233, 253),
        background: rgb(40, 42, 54),
        surface: rgb(68, 71, 90),
        text: rgb(248, 248, 242),
        text_secondary: rgb(188, 187, 177),
        success: rgb(80, 250, 123),
        warning: rgb(255, 184, 108),
        error: rgb(255, 85, 85),
        accent: rgb(189, 147, 249),
    }
}

/// The theme `gruvbox`.
#[verifier::allow_in_spec]
pub fn gruvbox() -> Theme
    returns
        (Theme {
            name: "Gruvbox",
            primary: rgb(211, 134, 155),
            secondary: rgb(131, 165, 152),
            background: rgb(40, 40, 40),
            surface: rgb(60, 56, 54),
            text: rgb(235, 219, 178),
            text_secondary: rgb(213, 196, 161),
            success: rgb(142, 192, 124),
            warning: rgb(250, 189, 47),
            error: rgb(251, 73, 52),
            accent: rgb(211, 134, 155),
        }),
{
    Theme {
        name: "Gruvbox",
        primary: rgb(211, 134, 155),
        secondary: rgb(131, 165, 152),
        background: rgb(40, 40, 40),
        surface: rgb(60, 56, 54),
        text: rgb(235, 219, 178),
        text_secondary: rgb(213, 196, 161),
        success: rgb(142, 192, 124),
        warning: rgb(250, 189, 47),
        error: rgb(251, 73, 52),
        accent: rgb(211, 134, 155),
    }
}

/// The theme `solarized`.
#[verifier::allow_in_spec]
pub fn solarized() -> Theme
    returns
        (Theme {
            name: "Solarized Light",
            primary: rgb(38, 139, 210),
            secondary: rgb(108, 113, 196),
            background: rgb(253, 246, 227),
            surface: rgb(238, 232, 213),
            text: rgb(88, 110, 117),
            text_secondary: rgb(101, 123, 131),
            success: rgb(133, 153, 0),
            warning: rgb(181, 137, 0),
            error: rgb(211, 54, 130),
            accent: rgb(38, 139, 210),
        }),
{
    Theme {
        name: "Solarized Light",
        primary: rgb(38, 139, 210),
        secondary: rgb(108, 113, 196),
        background: rgb(253, 246, 227),
        surface: rgb(238, 232, 213),
        text: rgb(88, 110, 117),
        text_secondary: rgb(101, 123, 131),
        success: rgb(133, 153, 0),
        warning: rgb(181, 137, 0),
        error: rgb(211, 54, 130),
        accent: rgb(38, 139, 210),
    }
}

/// The theme `tokyonight`.
#[verifier::allow_in_spec]
pub fn tokyonight() -> Theme
    returns
        (Theme {
            name: "Tokyo Night",
            primary: rgb(124, 169, 247),
            secondary: rgb(108, 221, 192),
            background: rgb(26, 27, 38),
            surface: rgb(36, 40, 59),
            text: rgb(192, 202, 245),
            text_secondary: rgb(124, 135, 173),
            success: rgb(74, 218, 134),
            warning: rgb(255, 184, 108),
            error: rgb(218, 106, 106),
            accent: rgb(124, 169, 247),
        }),
{
    Theme {
        name: "Tokyo Night",
        primary: rgb(124, 169, 247),
        secondary: rgb(108, 221, 192),
        background: rgb(26, 27, 38),
        surface: rgb(36, 40, 59),
        text: rgb(192, 202, 245),
        text_secondary: rgb(124, 135, 173),
        success: rgb(74, 218, 134),
        warning: rgb(255, 184, 108),
        error: rgb(218, 106, 106),
        accent: rgb(124, 169, 247),
    }
}

/// The themes of the catalogue, in the order in which they are cycled
/// through.
pub open spec fn catalog() -> Seq<Theme> {
    seq![moonlight(), nord(), dracula(), gruvbox(), solarized(), tokyonight()]
}

/// The keys of the themes of the catalogue, in the same order.
pub open spec fn catalog_keys() -> Seq<Seq<char>> {
    seq!["moonlight"@, "nord"@, "dracula"@, "gruvbox"@, "solarized"@, "tokyonight"@]
}

/// The place of the key `key` among `keys`; `None` where it is not there.
pub open spec fn place_of(keys: Seq<Seq<char>>, key: Seq<char>) -> Option<int> {
    if exists|i: int| 0 <= i < keys.len() && keys[i] == key {
        Some(choose|i: int| 0 <= i < keys.len() && keys[i] == key)
    } else {
        None
    }
}

/// A theme under its key.
struct Entry {
    key: String,
    theme: Theme,
}

/// The themes that the dashboard offers, and the one that is in use.
pub struct ThemeManager {
    entries: Vec<Entry>,
    current: usize,
}

impl ThemeManager {
    /// There is a theme, the one in use is one of them, and no two themes
    /// share a key.
    #[verifier::type_invariant]
    spec fn well_formed(self) -> bool {
        &&& self.current < self.entries@.len()
        &&& forall|i: int, j: int|
            0 <= i < j < self.entries@.len() ==> (#[trigger] self.entries@[i]).key@ != (
            #[trigger] self.entries@[j]).key@
    }

    /// The keys of the themes, in the order in which they are cycled through.
    pub closed spec fn keys(&self) -> Seq<Seq<char>> {
        Seq::new(self.entries@.len(), |i: int| self.entries@[i].key@)
    }

    /// The themes, in the order of their keys.
    pub closed spec fn themes(&self) -> Seq<Theme> {
        Seq::new(self.entries@.len(), |i: int| self.entries@[i].theme)
    }

    /// The place of the theme in use.
    pub closed spec fn current_index(&self) -> int {
        self.current as int
    }

    /// The catalogue, with `moonlight` in use.
    pub fn new() -> (manager: ThemeManager)
        ensures
            manager.keys() == catalog_keys(),
            manager.themes() == catalog(),
            manager.current_index() == 0,
    {
        let mut entries: Vec<Entry> = Vec::new();
        entries.push(Entry { key: "moonlight".to_owned(), theme: moonlight() });
        entries.push(Entry { key: "nord".to_owned(), theme: nord() });
        entries.push(Entry { key: "dracula".to_owned(), theme: dracula() });
        entries.push(Entry { key: "gruvbox".to_owned(), theme: gruvbox() });
        entries.push(Entry { key: "solarized".to_owned(), theme: solarized() });
        entries.push(Entry { key: "tokyonight".to_owned(), theme: tokyonight() });
        proof {
            lemma_catalog_keys_differ();
            assert forall|i: int, j: int| 0 <= i < j < entries@.len() implies (
            #[trigger] entries@[i]).key@ != (#[trigger] entries@[j]).key@ by {
                assert(entries@[i].key@ == catalog_keys()[i]);
                assert(entries@[j].key@ == catalog_keys()[j]);
            }
        }
        let manager = ThemeManager { entries, current: 0 };
        assert(manager.keys() =~= catalog_keys());
        assert(manager.themes() =~= catalog());
        manager
    }

    /// The theme in use.
    pub fn current_theme(&self) -> (theme: &Theme)
        ensures
            0 <= self.current_index() < self.themes().len(),
            self.themes().len() == self.keys().len(),
            *theme == self.themes()[self.current_index()],
    {
        proof {
            use_type_invariant(self);
        }
        &self.entries[self.current].theme
    }

    /// Puts the theme with the key `name` in use. Where no theme has that
    /// key, the theme in use stays.
    pub fn set_theme(&mut self, name: String)
        ensures
            final(self).keys() == old(self).keys(),
            final(self).themes() == old(self).themes(),
            final(self).current_index() == match place_of(old(self).keys(), name@) {
                Some(place) => place,
                None => old(self).current_index(),
            },
    {
        proof {
            use_type_invariant(&*self);
        }
        let mut i: usize = 0;
        while i < self.entries.len()
            invariant
                i <= self.entries@.len(),
                *self == *old(self),
                forall|k: int| 0 <= k < i ==> self.keys()[k] != name@,
            decreases self.entries.len() - i,
        {
            if str_eq(self.entries[i].key.as_str(), name.as_str()) {
                proof {
                    use_type_invariant(&*self);
                    let keys = self.keys();
                    assert(keys[i as int] == name@);
                    let place = place_of(keys, name@)->0;
                    assert(0 <= place < keys.len() && keys[place] == name@);
                    assert(self.entries@[place].key@ == self.entries@[i as int].key@);
                }
                self.current = i;
                assert(self.keys() =~= old(self).keys());
                assert(self.themes() =~= old(self).themes());
                return ;
            }
            i += 1;
        }
    }

    /// Puts the next theme in use; after the last comes the first.
    pub fn cycle_theme(&mut self)
        ensures
            final(self).keys() == old(self).keys(),
            final(self).themes() == old(self).themes(),
            final(self).current_index() == (old(self).current_index() + 1) % (old(
                self,
            ).keys().len() as int),
    {
        proof {
            use_type_invariant(&*self);
        }
        let count = self.entries.len();
        self.current = (self.current + 1) % count;
        assert(self.keys() =~= old(self).keys());
        assert(self.themes() =~= old(self).themes());
    }

    /// The keys of the themes, in the order in which they are cycled through.
    pub fn theme_names(&self) -> (names: Vec<String>)
        ensures
            names@.len() == self.keys().len(),
            forall|i: int| 0 <= i < names@.len() ==> (#[trigger] names@[i])@ == self.keys()[i],
    {
        let mut names: Vec<String> = Vec::new();
        let mut i: usize = 0;
        while i < self.entries.len()
            invariant
                i <= self.entries@.len(),
                names@.len() == i,
                forall|k: int| 0 <= k < i ==> (#[trigger] names@[k])@ == self.keys()[k],
            decreases self.entries.len() - i,
        {
            names.push(self.entries[i].key.clone());
            i += 1;
        }
        names
    }

    /// The key of the theme in use.
    pub fn current_key(&self) -> (key: &str)
        ensures
            0 <= self.current_index() < self.keys().len(),
            key@ == self.keys()[self.current_index()],
    {
        proof {
            use_type_invariant(self);
        }
        self.entries[self.current].key.as_str()
    }
}

/// No two themes of the catalogue share a key.
pub proof fn lemma_catalog_keys_differ()
    ensures
        catalog_keys().len() == 6,
        catalog().len() == 6,
        forall|i: int, j: int|
            0 <= i < j < 6 ==> #[trigger] catalog_keys()[i] != #[trigger] catalog_keys()[j],
{
    reveal_strlit("moonlight");
    reveal_strlit("nord");
    reveal_strlit("dracula");
    reveal_strlit("gruvbox");
    reveal_strlit("solarized");
    reveal_strlit("tokyonight");
    let keys = catalog_keys();
    assert(keys[0][0] == 'm' && keys[1][0] == 'n' && keys[2][0] == 'd' && keys[3][0] == 'g'
        && keys[4][0] == 's' && keys[5][0] == 't');
}

/// Cycling as often as there are themes brings back the theme that was in
/// use, and fewer steps bring another.
pub proof fn lemma_cycle_visits_all(count: int, start: int, steps: int)
    requires
        0 <= start < count,
        0 <= steps <= count,
    ensures
        cycled(count, start, steps) == (start + steps) % count,
        steps == count ==> cycled(count, start, steps) == start,
        0 < steps < count ==> cycled(count, start, steps) != start,
    decreases steps,
{
    lemma_small_mod(start as nat, count as nat);
    if steps > 0 {
        lemma_cycle_visits_all(count, start, steps - 1);
        lemma_add_mod_noop_right(1, start + steps - 1, count);
        if start + steps >= count {
            let over = start + steps - count;
            lemma_mod_add_multiples_vanish(over, count);
            lemma_small_mod(over as nat, count as nat);
        } else {
            lemma_small_mod((start + steps) as nat, count as nat);
        }
    }
}

/// The place of the theme in use after `steps` calls of `cycle_theme`, of
/// `count` themes, from the place `start`.
pub open spec fn cycled(count: int, start: int, steps: int) -> int
    decreases steps,
{
    if steps <= 0 {
        start
    } else {
        (cycled(count, start, steps - 1) + 1) % count
    }
}

} // verus!
