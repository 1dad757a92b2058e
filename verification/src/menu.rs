//! The menu builder: the fixed two-level application menu.
//!
//! The menu is a tree exactly two levels deep — the root holds submenus, a
//! submenu holds items — built once before the main window is shown and never
//! mutated.  The dispatcher matches activations by item identifier, so the
//! builder guarantees that identifiers are pairwise distinct.

use vstd::prelude::*;

verus! {

/// A clickable entry of the native menu: a stable identifier the dispatcher
/// matches on, and the text shown to the user.
pub struct MenuItem {
    pub id: String,
    pub label: String,
}

/// A titled group of items, one level below the root.
pub struct Submenu {
    pub title: String,
    pub items: Vec<MenuItem>,
}

/// The application menu: an ordered collection of submenus.
pub struct Menu {
    pub submenus: Vec<Submenu>,
}

impl Menu {
    /// Position `(s, i)` names item `i` of submenu `s`.
    pub open spec fn valid_pos(self, s: int, i: int) -> bool {
        0 <= s < self.submenus@.len() && 0 <= i < self.submenus@[s].items@.len()
    }

    /// The identifier at position `(s, i)`.
    pub open spec fn id_at(self, s: int, i: int) -> Seq<char> {
        self.submenus@[s].items@[i].id@
    }

    /// Well-formed: no two items of the menu share an identifier.
    pub open spec fn wf(self) -> bool {
        forall|s1: int, i1: int, s2: int, i2: int|
            self.valid_pos(s1, i1) && self.valid_pos(s2, i2) && (s1 != s2 || i1 != i2)
                ==> self.id_at(s1, i1) != self.id_at(s2, i2)
    }
}

/// Builds the application menu: one "Ayuda" submenu holding the "about" and
/// "quit" entries with their fixed labels.  No input varies and no error is
/// possible; the identifiers are distinct and stay so for the life of the
/// process, since the structure is never mutated.
pub fn build_app_menu() -> (m: Menu)
    ensures
        m.submenus@.len() == 1,
        m.submenus@[0].title@ == "Ayuda"@,
        m.submenus@[0].items@.len() == 2,
        m.submenus@[0].items@[0].id@ == "about"@,
        m.submenus@[0].items@[0].label@ == "Acerca de PlumaMD"@,
        m.submenus@[0].items@[1].id@ == "quit"@,
        m.submenus@[0].items@[1].label@ == "Salir"@,
        m.wf(),
{
    let about = MenuItem { id: "about".to_owned(), label: "Acerca de PlumaMD".to_owned() };
    let quit = MenuItem { id: "quit".to_owned(), label: "Salir".to_owned() };
    let mut items: Vec<MenuItem> = Vec::new();
    items.push(about);
    items.push(quit);
    let mut submenus: Vec<Submenu> = Vec::new();
    submenus.push(Submenu { title: "Ayuda".to_owned(), items });
    let m = Menu { submenus };
    proof {
        reveal_strlit("about");
        reveal_strlit("quit");
        assert("about"@.len() != "quit"@.len());
    }
    m
}

} // verus!
