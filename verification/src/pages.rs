//! The table of UI pages the shell can show, and the lookup from a page
//! key to its window title.

use vstd::prelude::*;

use crate::text::str_eq;

verus! {

/// The title shown for a page key, `None` for a key that names no page.
pub open spec fn spec_title_for(page: Seq<char>) -> Option<Seq<char>> {
    if page == "data"@ {
        Some("Data"@)
    } else if page == "settings"@ {
        Some("Settings"@)
    } else {
        None
    }
}

/// The table of pages the shell can show: each page key with the title
/// word of its window.
pub fn page_title_map() -> (r: Vec<(&'static str, &'static str)>)
    ensures
        r@.len() == 2,
        r@[0].0@ == "data"@ && r@[0].1@ == "Data"@,
        r@[1].0@ == "settings"@ && r@[1].1@ == "Settings"@,
        forall|page: Seq<char>, i: int|
            0 <= i < r@.len() && r@[i].0@ == page ==> spec_title_for(page) == Some(r@[i].1@),
        forall|page: Seq<char>|
            (forall|i: int| 0 <= i < r@.len() ==> r@[i].0@ != page) ==> spec_title_for(page) is None,
{
    proof {
        reveal_strlit("data");
        reveal_strlit("settings");
        assert("data"@.len() != "settings"@.len());
    }
    let r: Vec<(&'static str, &'static str)> = vec![("data", "Data"), ("settings", "Settings")];
    r
}

/// Looks a page key up in the page table: the title word for a known
/// key, `None` for an unknown one.
pub fn page_title(page: &str) -> (r: Option<&'static str>)
    ensures
        r matches Some(t) ==> spec_title_for(page@) == Some(t@),
        r is None ==> spec_title_for(page@) is None,
{
    let map = page_title_map();
    let ghost m = map@;
    let mut i: usize = 0;
    while i < map.len()
        invariant
            map@ == m,
            m.len() == 2,
            m[0].0@ == "data"@ && m[0].1@ == "Data"@,
            m[1].0@ == "settings"@ && m[1].1@ == "Settings"@,
            i <= m.len(),
            forall|j: int| 0 <= j < i ==> m[j].0@ != page@,
        decreases m.len() - i,
    {
        let entry = map[i];
        if str_eq(entry.0, page) {
            return Some(entry.1);
        }
        i = i + 1;
    }
    None
}

} // verus!
