//! The one menu decision the shell needs: where in the menu bar a submenu
//! with a given title sits.  The shell hands the menu in as the sequence of
//! its entries' titles — `None` for an entry that is not a submenu — and gets
//! back the first matching position.

use vstd::prelude::*;

verus! {

/// Position of the first submenu titled `name` among `titles`, where `None`
/// stands for an entry that is not a submenu; `None` when no submenu
/// matches.
pub fn find_menu_idx(titles: &Vec<Option<String>>, name: &str) -> (idx: Option<usize>)
    ensures
        idx matches Some(i) ==> i < titles@.len() && titles.deep_view()[i as int] == Some(name@)
            && (forall|j: int| 0 <= j < i ==> titles.deep_view()[j] != Some(name@)),
        idx is None ==> forall|j: int|
            0 <= j < titles@.len() ==> titles.deep_view()[j] != Some(name@),
{
    let wanted = String::from_str(name);
    let mut k: usize = 0;
    while k < titles.len()
        invariant
            k <= titles@.len(),
            wanted@ == name@,
            forall|j: int| 0 <= j < k ==> titles.deep_view()[j] != Some(name@),
        decreases titles@.len() - k,
    {
        match &titles[k] {
            Option::Some(title) => {
                if *title == wanted {
                    return Some(k);
                }
            },
            Option::None => {},
        }
        k = k + 1;
    }
    None
}

} // verus!
