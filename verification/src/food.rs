//! Food, and what is left of it once the snake has eaten.

use vstd::prelude::*;
use crate::grid::Position;

verus! {

/// One piece of food, lying on a cell.
#[derive(Clone, Copy, PartialEq, Eq, Debug, Structural)]
pub struct Food {
    pub position: Position,
}

/// The test that food passes when it does not lie on `cell`.
pub open spec fn away_from(cell: Position) -> spec_fn(Food) -> bool {
    |food: Food| food.position != cell
}

/// Whether some piece of `foods` lies on `cell`.
pub open spec fn food_at(foods: Seq<Food>, cell: Position) -> bool {
    exists|i: int| 0 <= i < foods.len() && (#[trigger] foods[i]).position == cell
}

/// Whether every piece of `foods` lies in the arena.
pub open spec fn foods_in_arena(foods: Seq<Food>) -> bool {
    forall|i: int| 0 <= i < foods.len() ==> (#[trigger] foods[i]).position.in_arena()
}

/// What is left after a meal on `cell` was there before, and none of it lies
/// on `cell`.
pub proof fn lemma_uneaten_food_was_there(foods: Seq<Food>, cell: Position)
    ensures
        forall|i: int|
            0 <= i < foods.filter(away_from(cell)).len() ==> foods.contains(
                #[trigger] foods.filter(away_from(cell))[i],
            ),
        !food_at(foods.filter(away_from(cell)), cell),
        foods_in_arena(foods) ==> foods_in_arena(foods.filter(away_from(cell))),
        !food_at(foods, cell) ==> foods.filter(away_from(cell)) == foods,
    decreases foods.len(),
{
    let keep = away_from(cell);
    let left = foods.filter(keep);
    assert forall|i: int| 0 <= i < left.len() implies foods.contains(#[trigger] left[i])
        && left[i].position != cell by {
        foods.lemma_filter_pred(keep, i);
        assert(left.contains(left[i]));
        foods.lemma_filter_contains_rev(keep, left[i]);
    }
    if foods.len() > 0 {
        let earlier = foods.drop_last();
        assert(foods == earlier.push(foods.last()));
        lemma_one_more_piece(earlier, foods.last(), cell);
        lemma_uneaten_food_was_there(earlier, cell);
    } else {
        assert(left.len() <= foods.len()) by {
            foods.lemma_filter_len(keep);
        }
    }
}

/// The food that does not lie on `cell`, in the order it had, and whether
/// any food lay there.
pub fn uneaten(foods: &Vec<Food>, cell: Position) -> (left: (Vec<Food>, bool))
    ensures
        left.0@ == foods@.filter(away_from(cell)),
        left.1 == food_at(foods@, cell),
{
    let mut kept: Vec<Food> = Vec::new();
    let mut found = false;
    let mut i: usize = 0;
    proof {
        reveal(Seq::filter);
    }
    while i < foods.len()
        invariant
            i <= foods@.len(),
            kept@ == foods@.take(i as int).filter(away_from(cell)),
            found == food_at(foods@.take(i as int), cell),
        decreases foods.len() - i,
    {
        let food = foods[i];
        proof {
            lemma_one_more_piece(foods@.take(i as int), food, cell);
            assert(foods@.take(i + 1) == foods@.take(i as int).push(food));
        }
        if food.position == cell {
            found = true;
        } else {
            kept.push(food);
        }
        i += 1;
    }
    assert(foods@.take(i as int) == foods@);
    (kept, found)
}

/// What one more piece of food at the end does to the two questions that a
/// meal asks: what is left, and whether there was anything to eat.
proof fn lemma_one_more_piece(foods: Seq<Food>, food: Food, cell: Position)
    ensures
        foods.push(food).filter(away_from(cell)) == if food.position == cell {
            foods.filter(away_from(cell))
        } else {
            foods.filter(away_from(cell)).push(food)
        },
        food_at(foods.push(food), cell) == (food_at(foods, cell) || food.position == cell),
{
    let longer = foods.push(food);
    assert(longer.drop_last() == foods);
    reveal(Seq::filter);
    if food_at(foods, cell) {
        let j = choose|j: int| 0 <= j < foods.len() && (#[trigger] foods[j]).position == cell;
        assert(longer[j].position == cell);
    }
    if food.position == cell {
        assert(longer[foods.len() as int].position == cell);
    }
}

} // verus!
