//! Choosing the submenu that the operating system fills with the list of
//! open windows.

use vstd::prelude::*;

verus! {

/// Title of the submenu that becomes the windows menu.
pub const WINDOW_MENU_TITLE: &'static str = "Window";

/// The title that designates the windows menu, as a sequence of characters.
pub open spec fn window_title() -> Seq<char> {
    seq!['W', 'i', 'n', 'd', 'o', 'w']
}

/// Whether the top-level item at `i` carries a submenu titled "Window".
pub open spec fn is_window_menu(items: Seq<Option<String>>, i: int) -> bool {
    &&& 0 <= i < items.len()
    &&& items[i] is Some
    &&& items[i]->0@ == window_title()
}

/// Picks the windows menu among the top-level items of the main menu.
///
/// Each entry is the title of that item's submenu, or `None` for an item
/// without a submenu. The result is the index of the first submenu titled
/// exactly "Window"; `None` when there is none, which is not an error.
pub fn windows_menu_index(items: &Vec<Option<String>>) -> (r: Option<usize>)
    ensures
        match r {
            Some(i) => {
                &&& is_window_menu(items@, i as int)
                &&& forall|j: int| 0 <= j < i ==> !is_window_menu(items@, j)
            },
            None => forall|j: int| !is_window_menu(items@, j),
        },
{
    let target = String::from_str(WINDOW_MENU_TITLE);
    proof {
        reveal_strlit("Window");
    }
    assert(target@ =~= window_title());
    let mut i: usize = 0;
    while i < items.len()
        invariant
            i <= items@.len(),
            target@ == window_title(),
            forall|j: int| 0 <= j < i ==> !is_window_menu(items@, j),
        decreases items@.len() - i,
    {
        match &items[i] {
            Some(title) => {
                if *title == target {
                    return Some(i);
                }
            },
            None => {},
        }
        i = i + 1;
    }
    None
}

} // verus!
