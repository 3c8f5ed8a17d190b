use vstd::prelude::*;
use vstd::string::StringExecFns;

use crate::food::Food;
use crate::grid::{HEIGHT, WIDTH};
use crate::snake::Snake;

verus! {

/// The character a grid cell draws as: a filled square for a snake segment,
/// a filled circle for the food, a space otherwise; a snake segment wins
/// over the food when both occupy the cell.
pub open spec fn cell_char(
    body: Seq<(usize, usize)>,
    food: (usize, usize),
    x: usize,
    y: usize,
) -> char {
    if body.contains((x, y)) {
        '■'
    } else if (x, y) == food {
        '●'
    } else {
        ' '
    }
}

/// The first `x` cell characters of row `y` of the drawn grid.
pub open spec fn row_prefix(
    body: Seq<(usize, usize)>,
    food: (usize, usize),
    y: usize,
    x: nat,
) -> Seq<char>
    decreases x,
{
    if x == 0 {
        Seq::<char>::empty()
    } else {
        row_prefix(body, food, y, (x - 1) as nat).push(cell_char(body, food, (x - 1) as usize, y))
    }
}

/// The first `y` newline-terminated rows of the drawn grid.
pub open spec fn rows_prefix(body: Seq<(usize, usize)>, food: (usize, usize), y: nat) -> Seq<char>
    decreases y,
{
    if y == 0 {
        Seq::<char>::empty()
    } else {
        rows_prefix(body, food, (y - 1) as nat) + row_prefix(
            body,
            food,
            (y - 1) as usize,
            WIDTH as nat,
        ).push('\n')
    }
}

/// The full drawn grid: HEIGHT rows of WIDTH cell characters, each row
/// newline-terminated.
pub open spec fn render_chars(body: Seq<(usize, usize)>, food: (usize, usize)) -> Seq<char> {
    rows_prefix(body, food, HEIGHT as nat)
}

/// Draws the grid as text, row by row.
pub fn render(snake: &Snake, food: &Food) -> (r: String)
    ensures
        r@ == render_chars(snake.body@, food.position),
{
    let mut r = String::new();
    proof {
        assert(r@ =~= rows_prefix(snake.body@, food.position, 0));
    }
    let mut y: usize = 0;
    while y < HEIGHT
        invariant
            y <= HEIGHT,
            r@ == rows_prefix(snake.body@, food.position, y as nat),
        decreases HEIGHT - y,
    {
        let mut x: usize = 0;
        proof {
            assert(r@ =~= rows_prefix(snake.body@, food.position, y as nat) + row_prefix(
                snake.body@,
                food.position,
                y,
                0,
            ));
        }
        while x < WIDTH
            invariant
                x <= WIDTH,
                y < HEIGHT,
                r@ == rows_prefix(snake.body@, food.position, y as nat) + row_prefix(
                    snake.body@,
                    food.position,
                    y,
                    x as nat,
                ),
            decreases WIDTH - x,
        {
            let ghost prev = r@;
            if snake.occupies(x, y) {
                r.append("■");
                proof {
                    reveal_strlit("■");
                    assert(cell_char(snake.body@, food.position, x, y) == '■');
                    assert(r@ =~= prev.push('■'));
                }
            } else if x == food.position.0 && y == food.position.1 {
                r.append("●");
                proof {
                    reveal_strlit("●");
                    assert((x, y) =~= food.position);
                    assert(cell_char(snake.body@, food.position, x, y) == '●');
                    assert(r@ =~= prev.push('●'));
                }
            } else {
                r.append(" ");
                proof {
                    reveal_strlit(" ");
                    assert((x, y) != food.position);
                    assert(cell_char(snake.body@, food.position, x, y) == ' ');
                    assert(r@ =~= prev.push(' '));
                }
            }
            proof {
                assert(r@ =~= rows_prefix(snake.body@, food.position, y as nat) + row_prefix(
                    snake.body@,
                    food.position,
                    y,
                    (x + 1) as nat,
                ));
            }
            x += 1;
        }
        r.append("\n");
        proof {
            reveal_strlit("\n");
            assert(r@ =~= rows_prefix(snake.body@, food.position, (y + 1) as nat));
        }
        y += 1;
    }
    r
}

} // verus!
