//! The forge's list of recipes.
use vstd::prelude::*;

use crate::item_list::{list_config, ItemList, ListBackground};

verus! {

/// The forge's recipe list: six rows at a time, with a "Back" row.
pub fn create_item_list() -> (l: ItemList)
    ensures
        l.config.show_filter_button && l.config.show_scroll_indicators,
        l.config.visible_count == 6,
        l.config.show_back_button,
        l.config.back_label@ == seq!['B', 'a', 'c', 'k'],
        l.config.background == ListBackground::Transparent,
        l.selection.selected == Some(0usize),
{
    proof {
        reveal_strlit("Back");
    }
    ItemList::new(list_config(6, true, "Back", ListBackground::Transparent))
}

/// A row of the forge's list: a recipe and its name.
pub struct RecipeRow<R> {
    pub recipe_id: R,
    pub name: String,
}

/// The rows a list of recipes gives, in order: each recipe that could be
/// made (it has a name), with that name.
pub open spec fn made_recipes<R>(recipes: Seq<(R, Option<String>)>) -> Seq<(R, Seq<char>)>
    decreases recipes.len(),
{
    if recipes.len() == 0 {
        seq![]
    } else {
        let rest = made_recipes(recipes.drop_last());
        match recipes.last().1 {
            Some(name) => rest.push((recipes.last().0, name@)),
            None => rest,
        }
    }
}

/// The rows as a caller sees them: each recipe with its name's characters.
pub open spec fn recipe_row_views<R>(rows: Seq<RecipeRow<R>>) -> Seq<(R, Seq<char>)> {
    rows.map_values(|r: RecipeRow<R>| (r.recipe_id, r.name@))
}

/// The forge's rows for the forging recipes, each given with its name when
/// the recipe could be made: the recipes that could not are left out, the
/// others keep their order.
pub fn rebuild_items<R>(recipes: Vec<(R, Option<String>)>) -> (rows: Vec<RecipeRow<R>>)
    ensures
        recipe_row_views(rows@) == made_recipes(recipes@),
{
    let mut rows: Vec<RecipeRow<R>> = Vec::new();
    let mut rest = recipes;
    let ghost start = rest@;
    let ghost mut k: int = 0;
    while rest.len() > 0
        invariant
            0 <= k <= start.len(),
            rest@ == start.subrange(k, start.len() as int),
            recipe_row_views(rows@) == made_recipes(start.subrange(0, k)),
        decreases rest@.len(),
    {
        let (id, name) = rest.remove(0);
        let ghost before = rows@;
        proof {
            assert(start.subrange(0, k + 1).drop_last() =~= start.subrange(0, k));
            assert(start.subrange(0, k + 1).last() == start[k]);
        }
        match name {
            Some(n) => {
                rows.push(RecipeRow { recipe_id: id, name: n });
                assert(recipe_row_views(rows@) =~= recipe_row_views(before).push(
                    (rows@.last().recipe_id, rows@.last().name@)));
            },
            None => {},
        }
        proof {
            k = k + 1;
        }
    }
    proof {
        assert(start.subrange(0, k) =~= start);
    }
    rows
}

} // verus!
